//! Many deployments side by side: which units a configuration asks for, and
//! a fleet of deployments of which each goes its own way.

use vstd::prelude::*;
use vstd::string::*;
use crate::config::{texts, DeployConfig, DeployConfigView};
use crate::deploy::{next, target_of, upload_and_run_jar, upload_file};
use crate::machine::{created, Deployment, DeploymentView, Phase};
use crate::protocol::{Action, ActionView, Event, EventView};
use crate::retry::retrying_plan;
use crate::text::{same_text, stem, stem_of};
use crate::unit::{succeeded, DeploymentUnitView, Outcome, UnitKind};

verus! {

/// Whether the archive `jar` is deployed when the modules `models` were asked
/// for: every archive where none was named, else those whose name before the
/// first full stop is among them.
pub open spec fn takes_part(models: Seq<Seq<char>>, jar: Seq<char>) -> bool {
    models.len() == 0 || models.contains(stem(jar))
}

/// Where the build leaves the archive `jar`: in the project's own `target`
/// where the project builds one archive only, else in the `target` of the
/// module that the archive is named after.
pub open spec fn local_jar_path(project_dir: Seq<char>, jar: Seq<char>, alone: bool) -> Seq<char> {
    if alone {
        project_dir + "/target/"@ + jar
    } else {
        project_dir + "/"@ + stem(jar) + "/target/"@ + jar
    }
}

/// `name` inside the directory `dir`.
pub open spec fn path_in(dir: Seq<char>, name: Seq<char>) -> Seq<char> {
    dir + "/"@ + name
}

/// The deployment of the archive `jar` of a project to the environment `env`.
pub open spec fn jar_deployment(
    project_dir: Seq<char>,
    env: Seq<char>,
    config: DeployConfigView,
    jar: Seq<char>,
) -> DeploymentView {
    created(
        target_of(config.server, config.username, config.password),
        DeploymentUnitView {
            local_path: local_jar_path(project_dir, jar, config.jar_files.len() == 1),
            remote_path: path_in(config.remote_base_path, jar),
            kind: UnitKind::ExecutableArchive,
        },
        config.java_path,
        env,
        retrying_plan(),
    )
}

/// Those of the archives `jars` that take part, in their order.
pub open spec fn selected(jars: Seq<Seq<char>>, models: Seq<Seq<char>>) -> Seq<Seq<char>> {
    jars.filter(|jar: Seq<char>| takes_part(models, jar))
}

/// What the next archive adds to the selection.
proof fn lemma_selected_step(jars: Seq<Seq<char>>, models: Seq<Seq<char>>, i: int)
    requires
        0 <= i < jars.len(),
    ensures
        selected(jars.take(0), models) == Seq::<Seq<char>>::empty(),
        selected(jars.take(i + 1), models) == if takes_part(models, jars[i]) {
            selected(jars.take(i), models).push(jars[i])
        } else {
            selected(jars.take(i), models)
        },
{
    reveal(Seq::filter);
    assert(jars.take(i + 1).drop_last() =~= jars.take(i));
    assert(jars.take(i + 1).last() == jars[i]);
    assert(jars.take(0) =~= Seq::<Seq<char>>::empty());
}

/// The deployment of each of the archives `jars`.
pub open spec fn planned(
    project_dir: Seq<char>,
    env: Seq<char>,
    config: DeployConfigView,
    jars: Seq<Seq<char>>,
) -> Seq<DeploymentView> {
    jars.map_values(|jar: Seq<char>| jar_deployment(project_dir, env, config, jar))
}

/// The deployments that bring a project's archives to the environment `env`:
/// one for each archive of the configuration that takes part, in the order of
/// the configuration.
pub open spec fn jar_deployments(
    project_dir: Seq<char>,
    env: Seq<char>,
    config: DeployConfigView,
    models: Seq<Seq<char>>,
) -> Seq<DeploymentView> {
    planned(project_dir, env, config, selected(config.jar_files, models))
}

/// The deployment of a project's web bundle: the zipped output directory,
/// uploaded beside the directory of the same name under the remote base path.
pub open spec fn bundle_deployment(
    project_dir: Seq<char>,
    config: DeployConfigView,
) -> DeploymentView {
    created(
        target_of(config.server, config.username, config.password),
        DeploymentUnitView {
            local_path: path_in(project_dir, config.output_dir) + ".zip"@,
            remote_path: path_in(config.remote_base_path, config.output_dir),
            kind: UnitKind::StaticBundle,
        },
        Seq::empty(),
        Seq::empty(),
        retrying_plan(),
    )
}

/// The deployments of a list, each by its view.
pub open spec fn deployment_views(units: Seq<Deployment>) -> Seq<DeploymentView> {
    units.map_values(|d: Deployment| d@)
}

/// `name` inside the directory `dir`.
pub fn join_path(dir: &str, name: &str) -> (r: String)
    ensures
        r@ == path_in(dir@, name@),
{
    let mut r = String::from_str("");
    proof {
        reveal_strlit("");
    }
    r.append(dir);
    r.append("/");
    r.append(name);
    assert(r@ =~= path_in(dir@, name@));
    r
}

/// Whether `name` is among `models`.
pub fn is_among(models: &Vec<String>, name: &str) -> (r: bool)
    ensures
        r == texts(models@).contains(name@),
{
    let mut i: usize = 0;
    while i < models.len()
        invariant
            i <= models@.len(),
            forall|k: int| 0 <= k < i ==> texts(models@)[k] != name@,
        decreases models@.len() - i,
    {
        if same_text(models[i].as_str(), name) {
            assert(texts(models@)[i as int] == name@);
            return true;
        }
        i += 1;
    }
    false
}

/// Where the build leaves the archive `jar`.
pub fn local_jar(project_dir: &str, jar: &str, alone: bool) -> (r: String)
    ensures
        r@ == local_jar_path(project_dir@, jar@, alone),
{
    let mut r = String::from_str("");
    proof {
        reveal_strlit("");
    }
    r.append(project_dir);
    if !alone {
        r.append("/");
        r.append(stem_of(jar));
    }
    r.append("/target/");
    r.append(jar);
    assert(r@ =~= local_jar_path(project_dir@, jar@, alone));
    r
}

/// The deployments that bring a project's archives to the environment `env`:
/// one for each archive of the configuration that takes part, in the order of
/// the configuration, none of them begun.
pub fn deploy_java_project(
    project_dir: &str,
    env: &str,
    config: &DeployConfig,
    models: &Vec<String>,
) -> (r: Vec<Deployment>)
    ensures
        deployment_views(r@) == jar_deployments(project_dir@, env@, config@, texts(models@)),
{
    let mut r: Vec<Deployment> = Vec::new();
    let alone = config.jar_files.len() == 1;
    let ghost jars = config@.jar_files;
    let mut i: usize = 0;
    proof {
        reveal(Seq::filter);
        assert(jars.take(0) =~= Seq::<Seq<char>>::empty());
        assert(deployment_views(r@) =~= planned(
            project_dir@,
            env@,
            config@,
            selected(jars.take(0), texts(models@)),
        ));
    }
    while i < config.jar_files.len()
        invariant
            i <= config.jar_files@.len(),
            jars == config@.jar_files,
            jars.len() == config.jar_files@.len(),
            alone == (jars.len() == 1),
            deployment_views(r@) == planned(
                project_dir@,
                env@,
                config@,
                selected(jars.take(i as int), texts(models@)),
            ),
        decreases config.jar_files@.len() - i,
    {
        let jar = config.jar_files[i].as_str();
        let ghost before = selected(jars.take(i as int), texts(models@));
        proof {
            assert(jars[i as int] == jar@);
            lemma_selected_step(jars, texts(models@), i as int);
        }
        if models.len() == 0 || is_among(models, stem_of(jar)) {
            let local_path = local_jar(project_dir, jar, alone);
            let remote_path = join_path(config.remote_base_path.as_str(), jar);
            let deployment = upload_and_run_jar(
                config.server.as_str(),
                config.username.as_str(),
                config.password.as_str(),
                local_path.as_str(),
                remote_path.as_str(),
                config.java_path.as_str(),
                env,
            );
            let ghost done = deployment_views(r@);
            let ghost added = deployment@;
            assert(added == jar_deployment(project_dir@, env@, config@, jar@));
            r.push(deployment);
            assert(deployment_views(r@) =~= done.push(added));
            assert(planned(project_dir@, env@, config@, before.push(jar@)) =~= planned(
                project_dir@,
                env@,
                config@,
                before,
            ).push(added));
        }
        i += 1;
    }
    assert(jars.take(i as int) =~= jars);
    r
}

/// Where the web build of a project leaves its output.
pub fn bundle_source(project_dir: &str, config: &DeployConfig) -> (r: String)
    ensures
        r@ == path_in(project_dir@, config@.output_dir),
{
    join_path(project_dir, config.output_dir.as_str())
}

/// The deployment that brings a project's web bundle to an environment, not
/// yet begun.
pub fn deploy_vue_project(project_dir: &str, config: &DeployConfig) -> (r: Deployment)
    ensures
        r@ == bundle_deployment(project_dir@, config@),
{
    let mut zip_path = join_path(project_dir, config.output_dir.as_str());
    zip_path.append(".zip");
    let remote_path = join_path(config.remote_base_path.as_str(), config.output_dir.as_str());
    upload_file(
        config.server.as_str(),
        config.username.as_str(),
        config.password.as_str(),
        zip_path.as_str(),
        remote_path.as_str(),
    )
}

/// How many deployments of a fleet have ended well, have failed, and are
/// still under way.
#[derive(Clone, Copy, Debug, PartialEq, Eq, Structural)]
pub struct Tally {
    pub succeeded: usize,
    pub failed: usize,
    pub pending: usize,
}

/// Whether a deployment has ended well.
pub open spec fn ended_well(unit: DeploymentView) -> bool {
    unit.outcome is Some && succeeded(unit.outcome->0)
}

/// Whether a deployment has failed.
pub open spec fn has_failed(unit: DeploymentView) -> bool {
    unit.outcome is Some && !succeeded(unit.outcome->0)
}

/// The deployments that have ended well.
pub open spec fn those_ended_well(units: Seq<DeploymentView>) -> Seq<DeploymentView> {
    units.filter(|unit: DeploymentView| ended_well(unit))
}

/// The deployments that have failed.
pub open spec fn those_failed(units: Seq<DeploymentView>) -> Seq<DeploymentView> {
    units.filter(|unit: DeploymentView| has_failed(unit))
}

/// The deployments that are still under way.
pub open spec fn those_pending(units: Seq<DeploymentView>) -> Seq<DeploymentView> {
    units.filter(|unit: DeploymentView| unit.outcome is None)
}

/// What the next deployment adds to the three groups.
proof fn lemma_groups_step(units: Seq<DeploymentView>, i: int)
    requires
        0 <= i < units.len(),
    ensures
        those_ended_well(units.take(0)).len() == 0,
        those_failed(units.take(0)).len() == 0,
        those_pending(units.take(0)).len() == 0,
        those_ended_well(units.take(i + 1)).len() == those_ended_well(units.take(i)).len() + (
        if ended_well(units[i]) {
            1int
        } else {
            0int
        }),
        those_failed(units.take(i + 1)).len() == those_failed(units.take(i)).len() + (
        if has_failed(units[i]) {
            1int
        } else {
            0int
        }),
        those_pending(units.take(i + 1)).len() == those_pending(units.take(i)).len() + (
        if units[i].outcome is None {
            1int
        } else {
            0int
        }),
{
    reveal(Seq::filter);
    assert(units.take(i + 1).drop_last() =~= units.take(i));
    assert(units.take(i + 1).last() == units[i]);
    assert(units.take(0) =~= Seq::<DeploymentView>::empty());
}

/// Every deployment is in one of the three groups, and in one only.
pub proof fn lemma_tally_adds_up(units: Seq<DeploymentView>)
    ensures
        those_ended_well(units).len() + those_failed(units).len() + those_pending(units).len()
            == units.len(),
{
    lemma_groups_add_up(units, units.len() as int);
    assert(units.take(units.len() as int) =~= units);
}

proof fn lemma_groups_add_up(units: Seq<DeploymentView>, n: int)
    requires
        0 <= n <= units.len(),
    ensures
        those_ended_well(units.take(n)).len() + those_failed(units.take(n)).len()
            + those_pending(units.take(n)).len() == n,
    decreases n,
{
    if n == 0 {
        if units.len() > 0 {
            lemma_groups_step(units, 0);
        } else {
            reveal(Seq::filter);
            assert(units.take(0) =~= Seq::<DeploymentView>::empty());
        }
    } else {
        lemma_groups_add_up(units, n - 1);
        lemma_groups_step(units, n - 1);
    }
}

/// The states of a fleet after a schedule of events, each event for the
/// deployment at its index; an event for an index that the fleet does not
/// have changes nothing.
pub open spec fn fleet_run(units: Seq<DeploymentView>, schedule: Seq<(int, EventView)>) -> Seq<
    DeploymentView,
>
    decreases schedule.len(),
{
    if schedule.len() == 0 {
        units
    } else {
        let i = schedule[0].0;
        let stepped = if 0 <= i < units.len() {
            units.update(i, next(units[i], schedule[0].1).0)
        } else {
            units
        };
        fleet_run(stepped, schedule.drop_first())
    }
}

/// The answers to a schedule of events: for each event the next action of
/// the deployment at its index, or nothing where the fleet has no such
/// deployment.
pub open spec fn fleet_answers(units: Seq<DeploymentView>, schedule: Seq<(int, EventView)>) -> Seq<
    Option<ActionView>,
>
    decreases schedule.len(),
{
    if schedule.len() == 0 {
        Seq::empty()
    } else {
        let i = schedule[0].0;
        if 0 <= i < units.len() {
            let stepped = next(units[i], schedule[0].1);
            seq![Some(stepped.1)] + fleet_answers(
                units.update(i, stepped.0),
                schedule.drop_first(),
            )
        } else {
            seq![None] + fleet_answers(units, schedule.drop_first())
        }
    }
}

/// An answer, its action by its view.
pub open spec fn answer_view(answer: Option<Action>) -> Option<ActionView> {
    match answer {
        Some(action) => Some(action@),
        None => None,
    }
}

/// The answers of a list, each action by its view.
pub open spec fn answer_views(answers: Seq<Option<Action>>) -> Seq<Option<ActionView>> {
    answers.map_values(|a: Option<Action>| answer_view(a))
}

/// The events of a schedule that are for the deployment at `index`, in their
/// order.
pub open spec fn events_for(schedule: Seq<(int, EventView)>, index: int) -> Seq<EventView>
    decreases schedule.len(),
{
    if schedule.len() == 0 {
        Seq::empty()
    } else if schedule[0].0 == index {
        seq![schedule[0].1] + events_for(schedule.drop_first(), index)
    } else {
        events_for(schedule.drop_first(), index)
    }
}

/// The entries of a schedule, each by its index and the view of its event.
pub open spec fn schedule_views(schedule: Seq<(usize, Event)>) -> Seq<(int, EventView)> {
    schedule.map_values(|entry: (usize, Event)| (entry.0 as int, entry.1@))
}

/// Deployments that run side by side. Each has its own state; an event for
/// one changes no other.
pub struct Fleet {
    pub units: Vec<Deployment>,
}

impl View for Fleet {
    type V = Seq<DeploymentView>;

    open spec fn view(&self) -> Seq<DeploymentView> {
        deployment_views(self.units@)
    }
}

impl Fleet {
/// A fleet of these deployments, in this order.
    pub fn new(units: Vec<Deployment>) -> (r: Fleet)
        ensures
            r@ == deployment_views(units@),
    {
        Fleet { units }
    }

/// How many deployments the fleet has.
    pub fn len(&self) -> (n: usize)
        ensures
            n == self@.len(),
    {
        self.units.len()
    }

    /// Hands `event` to the deployment at `index` and gives its next action;
    /// `None`, and nothing changed, where the fleet has no such deployment.
    /// Every other deployment stays as it was.
    pub fn dispatch(&mut self, index: usize, event: Event) -> (r: Option<Action>)
        ensures
            final(self)@.len() == old(self)@.len(),
            forall|j: int|
                0 <= j < old(self)@.len() && j != index ==> final(self)@[j] == old(self)@[j],
            match r {
                Some(action) => index < old(self)@.len() && (final(self)@[index as int], action@)
                    == next(old(self)@[index as int], event@),
                None => index >= old(self)@.len() && final(self)@ == old(self)@,
            },
    {
        if index >= self.units.len() {
            return None;
        }
        let ghost before = self@;
        let action = self.units[index].step(event);
        assert(self@.len() == before.len());
        assert forall|j: int| 0 <= j < before.len() && j != index implies self@[j]
            == before[j] by {
            assert(self.units@[j] == old(self).units@[j]);
        }
        Some(action)
    }

    /// Hands each event of a schedule to the deployment at its index, in the
    /// schedule's order, and gives the action that answered each; `None` for
    /// an index that the fleet does not have.
    pub fn run(&mut self, schedule: &Vec<(usize, Event)>) -> (answers: Vec<Option<Action>>)
        ensures
            final(self)@ == fleet_run(old(self)@, schedule_views(schedule@)),
            answer_views(answers@) == fleet_answers(old(self)@, schedule_views(schedule@)),
            answers@.len() == schedule@.len(),
    {
        let mut answers: Vec<Option<Action>> = Vec::new();
        let ghost all = schedule_views(schedule@);
        let ghost start = self@;
        let mut i: usize = 0;
        assert(all.skip(0) =~= all);
        assert(answer_views(answers@) =~= Seq::<Option<ActionView>>::empty());
        while i < schedule.len()
            invariant
                i <= schedule@.len(),
                all == schedule_views(schedule@),
                answers@.len() == i,
                fleet_run(start, all) == fleet_run(self@, all.skip(i as int)),
                fleet_answers(start, all) == answer_views(answers@) + fleet_answers(
                    self@,
                    all.skip(i as int),
                ),
            decreases schedule@.len() - i,
        {
            let ghost before = self@;
            let ghost done = answer_views(answers@);
            let index = schedule[i].0;
            let event = schedule[i].1.clone();
            let answer = self.dispatch(index, event);
            let ghost answered = answer_view(answer);
            proof {
                let rest = all.skip(i as int);
                assert(rest[0] == (index as int, schedule@[i as int].1@));
                assert(rest.drop_first() =~= all.skip(i as int + 1));
                if index < before.len() {
                    assert(self@ =~= before.update(
                        index as int,
                        next(before[index as int], rest[0].1).0,
                    ));
                }
                assert(fleet_answers(before, rest) == seq![answered] + fleet_answers(
                    self@,
                    all.skip(i as int + 1),
                ));
            }
            answers.push(answer);
            proof {
                assert(answer_views(answers@) =~= done.push(answered));
                assert(done.push(answered) + fleet_answers(self@, all.skip(i as int + 1)) =~= done
                    + (seq![answered] + fleet_answers(self@, all.skip(i as int + 1))));
            }
            i += 1;
        }
        assert(all.skip(i as int) =~= Seq::<(int, EventView)>::empty());
        assert(answer_views(answers@) + Seq::<Option<ActionView>>::empty() =~= answer_views(
            answers@,
        ));
        answers
    }

    /// Whether every deployment has its outcome.
    pub fn all_finished(&self) -> (r: bool)
        ensures
            r == forall|i: int| 0 <= i < self@.len() ==> (#[trigger] self@[i]).phase
                == Phase::Finished,
    {
        let mut i: usize = 0;
        while i < self.units.len()
            invariant
                i <= self.units@.len(),
                forall|k: int| 0 <= k < i ==> (#[trigger] self@[k]).phase == Phase::Finished,
            decreases self.units@.len() - i,
        {
            if !self.units[i].is_finished() {
                assert(self@[i as int].phase != Phase::Finished);
                return false;
            }
            i += 1;
        }
        true
    }

    /// The outcome of each deployment, in the fleet's order; `None` for one
    /// that is still under way.
    pub fn outcomes(&self) -> (r: Vec<Option<Outcome>>)
        ensures
            r@.len() == self@.len(),
            forall|i: int|
                0 <= i < self@.len() ==> match #[trigger] r@[i] {
                    Some(outcome) => self@[i].outcome == Some(outcome@),
                    None => self@[i].outcome.is_none(),
                },
    {
        let mut r: Vec<Option<Outcome>> = Vec::new();
        let mut i: usize = 0;
        while i < self.units.len()
            invariant
                i <= self.units@.len(),
                r@.len() == i,
                forall|k: int|
                    0 <= k < i ==> match #[trigger] r@[k] {
                        Some(outcome) => self@[k].outcome == Some(outcome@),
                        None => self@[k].outcome.is_none(),
                    },
            decreases self.units@.len() - i,
        {
            let outcome = match &self.units[i].outcome {
                Some(outcome) => Some(outcome.clone()),
                None => None,
            };
            assert(self@[i as int].outcome == match self.units@[i as int].outcome {
                Some(o) => Some(o@),
                None => None,
            });
            r.push(outcome);
            i += 1;
        }
        r
    }

    /// How many deployments have ended well, have failed, and are still
    /// under way.
    pub fn tally(&self) -> (r: Tally)
        ensures
            r.succeeded == those_ended_well(self@).len(),
            r.failed == those_failed(self@).len(),
            r.pending == those_pending(self@).len(),
            r.succeeded + r.failed + r.pending == self@.len(),
    {
        let mut r = Tally { succeeded: 0, failed: 0, pending: 0 };
        let mut i: usize = 0;
        proof {
            if self@.len() > 0 {
                lemma_groups_step(self@, 0);
            } else {
                lemma_groups_add_up(self@, 0);
            }
        }
        while i < self.units.len()
            invariant
                i <= self.units@.len(),
                r.succeeded == those_ended_well(self@.take(i as int)).len(),
                r.failed == those_failed(self@.take(i as int)).len(),
                r.pending == those_pending(self@.take(i as int)).len(),
                r.succeeded + r.failed + r.pending == i,
            decreases self.units@.len() - i,
        {
            proof {
                lemma_groups_step(self@, i as int);
                assert(self@[i as int].outcome == match self.units@[i as int].outcome {
                    Some(o) => Some(o@),
                    None => None,
                });
            }
            match &self.units[i].outcome {
                Some(outcome) => {
                    if outcome.is_success() {
                        r.succeeded = r.succeeded + 1;
                    } else {
                        r.failed = r.failed + 1;
                    }
                },
                None => {
                    r.pending = r.pending + 1;
                },
            }
            i += 1;
        }
        assert(self@.take(i as int) =~= self@);
        r
    }
}

} // verus!
