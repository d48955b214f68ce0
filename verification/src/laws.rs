//! What holds of every run of a deployment, proved from the step relation.

use vstd::prelude::*;
use vstd::string::*;
use crate::command::{
    backup_text, existence_probe_text, forced_kill_text, launch_text, lists_nothing,
    liveness_check_text, probe_of, says_gone, unpack_text, Probe,
};
use crate::coordinator::{events_for, fleet_run};
use crate::deploy::{next, run_from};
use crate::error::{DeployErrorView, SessionFault, Stage};
use crate::machine::{
    after_failed_attempt, in_transfer, transfer_path, DeploymentView, Phase,
};
use crate::protocol::{reply_of, ActionView, EventView, ReplyView, FILE_MODE};
use crate::retry::{backoff_before, RetryBudget};
use crate::text::trimmed;
use crate::unit::{OutcomeView, ProcessLifecycleView, UnitKind};

verus! {

/// How often the action `a` occurs among `actions`.
pub open spec fn count_of(actions: Seq<ActionView>, a: ActionView) -> nat
    decreases actions.len(),
{
    if actions.len() == 0 {
        0
    } else {
        (if actions[0] == a {
            1nat
        } else {
            0nat
        }) + count_of(actions.drop_first(), a)
    }
}

/// Whether an event answers a liveness check with "no process is left".
pub open spec fn finds_gone(e: EventView) -> bool {
    match reply_of(e) {
        ReplyView::Output(output) => says_gone(output),
        _ => false,
    }
}

/// Whether an event answers a liveness check with anything else: processes
/// that are still there, a failed command, a failed channel.
pub open spec fn finds_alive(e: EventView) -> bool {
    match reply_of(e) {
        ReplyView::Output(output) => !says_gone(output),
        ReplyView::Failed(_) => true,
        ReplyView::Other => false,
    }
}

/// The events of a row of liveness checks that find the process: every
/// reply, each followed by the end of the pause before the next check.
pub open spec fn found_events(replies: Seq<EventView>) -> Seq<EventView>
    decreases replies.len(),
{
    if replies.len() == 0 {
        Seq::empty()
    } else {
        seq![replies[0], EventView::Waited] + found_events(replies.drop_first())
    }
}

/// The events of a row of liveness checks: the replies of `earlier`, each
/// followed by the end of the pause before the next check, then `last`.
pub open spec fn poll_events(earlier: Seq<EventView>, last: EventView) -> Seq<EventView> {
    found_events(earlier) + seq![last]
}

/// Whether the deployment is past the reading of its artifact.
pub open spec fn has_read(s: DeploymentView) -> bool {
    s.phase != Phase::Created && s.phase != Phase::ReadingLocal
}

/// A run that starts with `e` is the step on `e`, then the run of the rest.
pub proof fn lemma_run_first(s: DeploymentView, e: EventView, rest: Seq<EventView>)
    ensures
        run_from(s, seq![e] + rest) == (
            run_from(next(s, e).0, rest).0,
            seq![next(s, e).1] + run_from(next(s, e).0, rest).1,
        ),
{
    let events = seq![e] + rest;
    assert(events[0] == e);
    assert(events.drop_first() =~= rest);
}

/// A run answers every event with one action.
pub proof fn lemma_run_len(s: DeploymentView, events: Seq<EventView>)
    ensures
        run_from(s, events).1.len() == events.len(),
    decreases events.len(),
{
    if events.len() > 0 {
        lemma_run_len(next(s, events[0]).0, events.drop_first());
    }
}

proof fn lemma_count_first(a: ActionView, rest: Seq<ActionView>, wanted: ActionView)
    ensures
        count_of(seq![a] + rest, wanted) == (if a == wanted {
            1nat
        } else {
            0nat
        }) + count_of(rest, wanted),
{
    let all = seq![a] + rest;
    assert(all[0] == a);
    assert(all.drop_first() =~= rest);
}

/// A run of two rows of events is the run of the first, then the run of
/// the second from where the first ended.
pub proof fn lemma_run_append(s: DeploymentView, first: Seq<EventView>, second: Seq<EventView>)
    ensures
        run_from(s, first + second) == (
            run_from(run_from(s, first).0, second).0,
            run_from(s, first).1 + run_from(run_from(s, first).0, second).1,
        ),
    decreases first.len(),
{
    if first.len() == 0 {
        assert(first + second =~= second);
        assert(Seq::<ActionView>::empty() + run_from(s, second).1 =~= run_from(s, second).1);
    } else {
        let step = next(s, first[0]);
        let rest = first.drop_first();
        assert(first + second =~= seq![first[0]] + (rest + second));
        lemma_run_first(s, first[0], rest + second);
        lemma_run_append(step.0, rest, second);
        let tail = run_from(run_from(step.0, rest).0, second).1;
        assert(seq![step.1] + (run_from(step.0, rest).1 + tail) =~= (seq![step.1] + run_from(
            step.0,
            rest,
        ).1) + tail);
    }
}

proof fn lemma_count_append(first: Seq<ActionView>, second: Seq<ActionView>, wanted: ActionView)
    ensures
        count_of(first + second, wanted) == count_of(first, wanted) + count_of(second, wanted),
    decreases first.len(),
{
    if first.len() == 0 {
        assert(first + second =~= second);
    } else {
        assert((first + second).drop_first() =~= first.drop_first() + second);
        lemma_count_append(first.drop_first(), second, wanted);
    }
}

/// A finished deployment stays as it is: whatever events come, its state
/// and outcome do not change, and every answer is `Stop`.
pub proof fn lemma_finished_is_final(s: DeploymentView, events: Seq<EventView>)
    requires
        s.phase == Phase::Finished,
    ensures
        run_from(s, events).0 == s,
        run_from(s, events).1.len() == events.len(),
        forall|i: int| 0 <= i < events.len() ==> run_from(s, events).1[i] == ActionView::Stop,
    decreases events.len(),
{
    if events.len() > 0 {
        lemma_finished_is_final(s, events.drop_first());
    }
}

/// No step changes what is deployed where: target, unit, Java path,
/// environment and plan stay as they were, and so do the bytes and the size
/// once the artifact was read. The bytes are always as many as the size says.
pub proof fn lemma_step_keeps_the_order(s: DeploymentView, e: EventView)
    ensures
        next(s, e).0.target == s.target,
        next(s, e).0.unit == s.unit,
        next(s, e).0.java_path == s.java_path,
        next(s, e).0.env == s.env,
        next(s, e).0.plan == s.plan,
        has_read(s) ==> has_read(next(s, e).0) && next(s, e).0.size == s.size && next(s, e).0.data
            == s.data,
        s.data.len() == s.size ==> next(s, e).0.data.len() == next(s, e).0.size,
{
}

/// The artifact that was not read in full is never sent: a deployment that
/// learns of a read shorter or longer than the file's size fails with a local
/// error, and asks for nothing after the read itself.
pub proof fn lemma_short_read_stops_before_network(
    s: DeploymentView,
    data: Seq<u8>,
    size: u64,
    rest: Seq<EventView>,
)
    requires
        s.phase == Phase::Created,
        s.unit.kind != UnitKind::InstalledArchive,
        data.len() != size,
    ensures
        ({
            let run = run_from(
                s,
                seq![EventView::Begin] + (seq![EventView::LocalRead { data, size }] + rest),
            );
            &&& run.0.outcome == Some(OutcomeView::Failed(DeployErrorView::LocalIo))
            &&& run.1.len() == rest.len() + 2
            &&& run.1[0] == ActionView::ReadLocal(s.unit.local_path)
            &&& forall|i: int| 1 <= i < run.1.len() ==> run.1[i] == ActionView::Stop
        }),
{
    let reading = next(s, EventView::Begin).0;
    let report = EventView::LocalRead { data, size };
    let failed = next(reading, report).0;
    lemma_run_first(s, EventView::Begin, seq![report] + rest);
    lemma_run_first(reading, report, rest);
    lemma_finished_is_final(failed, rest);
    let run = run_from(s, seq![EventView::Begin] + (seq![report] + rest));
    assert forall|i: int| 1 <= i < run.1.len() implies run.1[i] == ActionView::Stop by {
        if i >= 2 {
            assert(run.1[i] == run_from(failed, rest).1[i - 2]);
        }
    }
}

/// Whenever the copy stream is opened, on the first attempt or a later one,
/// it is for the same remote path, for exactly the bytes that were read, and
/// with the fixed file mode.
pub proof fn lemma_stream_is_opened_alike(s: DeploymentView, events: Seq<EventView>, i: int)
    requires
        has_read(s),
        0 <= i < events.len(),
        run_from(s, events).1[i] is OpenStream,
    ensures
        run_from(s, events).1[i] == (ActionView::OpenStream {
            path: transfer_path(s.unit),
            size: s.size,
            mode: FILE_MODE,
        }),
    decreases events.len(),
{
    let first = next(s, events[0]);
    lemma_step_keeps_the_order(s, events[0]);
    if i > 0 {
        lemma_run_len(first.0, events.drop_first());
        assert(run_from(s, events).1[i] == run_from(first.0, events.drop_first()).1[i - 1]);
        lemma_stream_is_opened_alike(first.0, events.drop_first(), i - 1);
    }
}

/// Once the artifact was read, no run changes its bytes or its size.
pub proof fn lemma_run_keeps_the_bytes(s: DeploymentView, events: Seq<EventView>)
    requires
        has_read(s),
    ensures
        has_read(run_from(s, events).0),
        run_from(s, events).0.data == s.data,
        run_from(s, events).0.size == s.size,
    decreases events.len(),
{
    if events.len() > 0 {
        lemma_step_keeps_the_order(s, events[0]);
        lemma_run_keeps_the_bytes(next(s, events[0]).0, events.drop_first());
    }
}

/// What is sent is what was read: whenever a deployment opens the copy
/// stream, on whatever attempt, the size that it declares is the number of the
/// bytes that it holds for writing, and these are the bytes that the read gave,
/// unchanged to the end of the run.
pub proof fn lemma_stream_is_sized_to_the_bytes(
    s: DeploymentView,
    events: Seq<EventView>,
    i: int,
)
    requires
        s.data.len() == s.size,
        0 <= i < events.len(),
        run_from(s, events).1[i] is OpenStream,
    ensures
        run_from(s, events).1[i] == (ActionView::OpenStream {
            path: transfer_path(s.unit),
            size: run_from(s, events).0.size,
            mode: FILE_MODE,
        }),
        run_from(s, events).0.data.len() == run_from(s, events).0.size,
    decreases events.len(),
{
    if has_read(s) {
        lemma_stream_is_opened_alike(s, events, i);
        lemma_run_keeps_the_bytes(s, events);
    } else {
        let first = next(s, events[0]);
        lemma_step_keeps_the_order(s, events[0]);
        lemma_run_len(first.0, events.drop_first());
        if i > 0 {
            assert(run_from(s, events).1[i] == run_from(first.0, events.drop_first()).1[i - 1]);
            lemma_stream_is_sized_to_the_bytes(first.0, events.drop_first(), i - 1);
        }
    }
}

/// Whether an action reads the artifact or sends it.
pub open spec fn touches_artifact(a: ActionView) -> bool {
    a is ReadLocal || a is OpenStream || a == ActionView::WriteAll || a == ActionView::SendEof
        || a == ActionView::WaitEof || a == ActionView::Close || a == ActionView::WaitClose
}

/// Whether the deployment is of an archive that is on the remote host
/// already, and in none of the phases of reading, transfer and unpacking.
pub open spec fn runs_in_place(s: DeploymentView) -> bool {
    s.unit.kind == UnitKind::InstalledArchive && s.phase != Phase::ReadingLocal && !in_transfer(
        s.phase,
    ) && s.phase != Phase::Unpacking && s.phase != Phase::Pausing(Stage::Transfer)
}

/// An archive that is on the remote host already is neither read nor sent:
/// from its beginning on, no action of its deployment touches an artifact, and
/// the deployment never comes to the transfer.
pub proof fn lemma_installed_archive_is_not_sent(
    s: DeploymentView,
    events: Seq<EventView>,
    i: int,
)
    requires
        runs_in_place(s),
        0 <= i < events.len(),
    ensures
        runs_in_place(run_from(s, events).0),
        !touches_artifact(run_from(s, events).1[i]),
    decreases events.len(),
{
    let first = next(s, events[0]);
    lemma_run_len(first.0, events.drop_first());
    if i > 0 {
        assert(run_from(s, events).1[i] == run_from(first.0, events.drop_first()).1[i - 1]);
        lemma_installed_archive_is_not_sent(first.0, events.drop_first(), i - 1);
    } else if events.len() > 1 {
        lemma_installed_archive_is_not_sent(first.0, events.drop_first(), 0);
    }
}

/// The steps of the copy stream come in one order only: the bytes are
/// written to a stream that was opened, the end of the stream is sent after
/// the bytes, the peer's acknowledgement is awaited after that, the stream is
/// closed after the acknowledgement, and the peer's close is awaited last.
/// Each step is asked for only when the step before it is done.
pub proof fn lemma_stream_steps_in_order(s: DeploymentView, e: EventView)
    ensures
        next(s, e).1 == ActionView::WriteAll ==> s.phase == Phase::Creating && e
            == EventView::StreamReady,
        next(s, e).1 == ActionView::SendEof ==> s.phase == Phase::Writing && e
            == EventView::StreamReady,
        next(s, e).1 == ActionView::WaitEof ==> s.phase == Phase::SendingEof && e
            == EventView::StreamReady,
        next(s, e).1 == ActionView::Close ==> s.phase == Phase::AwaitingEof && e
            == EventView::StreamReady,
        next(s, e).1 == ActionView::WaitClose ==> s.phase == Phase::Closing && e
            == EventView::StreamReady,
        next(s, e).1 is OpenStream ==> s.phase == Phase::Probing || s.phase == Phase::BackingUp,
{
}

/// A file is moved to its backup only when the probe has found it at the
/// place that the artifact goes to, and then before the stream is opened.
pub proof fn lemma_backup_only_of_what_exists(s: DeploymentView, e: EventView)
    requires
        next(s, e).0.phase == Phase::BackingUp,
    ensures
        s.phase == Phase::Probing,
        exists|output: Seq<char>|
            reply_of(e) == ReplyView::Output(output) && probe_of(output) == Probe::Exists,
        next(s, e).1 == ActionView::Run(backup_text(transfer_path(s.unit))),
{
    match reply_of(e) {
        ReplyView::Output(output) => {
            assert(reply_of(e) == ReplyView::Output(output) && probe_of(output) == Probe::Exists);
        },
        _ => {},
    }
}

/// A bundle is unpacked only when its transfer is complete, the peer's
/// close included.
pub proof fn lemma_unpacking_follows_transfer(s: DeploymentView, e: EventView)
    requires
        next(s, e).0.phase == Phase::Unpacking,
    ensures
        s.phase == Phase::AwaitingClose,
        e == EventView::StreamReady,
        s.unit.kind == UnitKind::StaticBundle,
        next(s, e).1 == ActionView::Run(unpack_text(s.unit.remote_path)),
{
}

/// The events of a row of failed attempts at the session: every fault but
/// the last followed by the end of the pause before the next attempt.
pub open spec fn refused_sessions(faults: Seq<SessionFault>) -> Seq<EventView>
    decreases faults.len(),
{
    if faults.len() == 0 {
        Seq::empty()
    } else if faults.len() == 1 {
        seq![EventView::SessionFailed(faults[0])]
    } else {
        seq![EventView::SessionFailed(faults[0]), EventView::Waited] + refused_sessions(
            faults.drop_first(),
        )
    }
}

/// A budget is kept to: when as many attempts at the session have failed as
/// the budget allows, the deployment fails as exhausted, without another
/// attempt. Before that, every failure was followed by a pause and one more
/// attempt.
pub proof fn lemma_session_budget_is_kept(
    s: DeploymentView,
    budget: RetryBudget,
    faults: Seq<SessionFault>,
)
    requires
        s.phase == Phase::Connecting,
        s.plan.session == Some(budget),
        faults.len() >= 1,
        s.failures + faults.len() == budget.max_attempts,
    ensures
        ({
            let run = run_from(s, refused_sessions(faults));
            &&& run.0.phase == Phase::Finished
            &&& run.0.outcome == Some(
                OutcomeView::Failed(DeployErrorView::RetryExhausted(Stage::Session)),
            )
            &&& run.1.len() == 2 * faults.len() - 1
            &&& run.1.last() == ActionView::Stop
            &&& count_of(run.1, ActionView::OpenSession) == faults.len() - 1
            &&& count_of(run.1, ActionView::Wait(budget.delay_secs as u64)) == faults.len() - 1
        }),
    decreases faults.len(),
{
    let wait = ActionView::Wait(budget.delay_secs as u64);
    if faults.len() == 1 {
        let e = EventView::SessionFailed(faults[0]);
        lemma_run_first(s, e, Seq::empty());
        assert(seq![e] + Seq::<EventView>::empty() =~= seq![e]);
        let a = next(s, e).1;
        lemma_count_first(a, Seq::empty(), ActionView::OpenSession);
        lemma_count_first(a, Seq::empty(), wait);
        assert(seq![a] + Seq::<ActionView>::empty() =~= seq![a]);
    } else {
        let e = EventView::SessionFailed(faults[0]);
        let rest = refused_sessions(faults.drop_first());
        let first = next(s, e);
        let second = next(first.0, EventView::Waited);
        assert(seq![e, EventView::Waited] + rest =~= seq![e] + (seq![EventView::Waited] + rest));
        lemma_run_first(s, e, seq![EventView::Waited] + rest);
        lemma_run_first(first.0, EventView::Waited, rest);
        lemma_session_budget_is_kept(second.0, budget, faults.drop_first());
        let tail = run_from(second.0, rest).1;
        lemma_count_first(second.1, tail, ActionView::OpenSession);
        lemma_count_first(first.1, seq![second.1] + tail, ActionView::OpenSession);
        lemma_count_first(second.1, tail, wait);
        lemma_count_first(first.1, seq![second.1] + tail, wait);
        let run = run_from(s, refused_sessions(faults));
        assert(run.1 =~= seq![first.1] + (seq![second.1] + tail));
        assert(run.1.last() == tail.last());
    }
}

/// The first session that opens ends the attempts: the transfer begins, and
/// the failures that went before count for nothing in it.
pub proof fn lemma_opened_session_begins_the_transfer(s: DeploymentView)
    requires
        s.phase == Phase::Connecting,
        s.unit.kind != UnitKind::InstalledArchive,
        s.plan.transfer is Some ==> s.plan.transfer->0.max_attempts > 0,
    ensures
        next(s, EventView::SessionOpened).0.phase == Phase::Probing,
        next(s, EventView::SessionOpened).0.failures == 0,
        next(s, EventView::SessionOpened).1 == ActionView::Run(
            existence_probe_text(transfer_path(s.unit)),
        ),
{
}

/// A session is opened only for an artifact that was read in full, or for an
/// archive that is on the remote host already, or after the pause that
/// follows a failed attempt at the session.
pub proof fn lemma_session_follows_full_read(s: DeploymentView, e: EventView)
    requires
        next(s, e).0.phase == Phase::Connecting,
    ensures
        (s.phase == Phase::ReadingLocal && (exists|data: Seq<u8>|
            e == (EventView::LocalRead { data, size: data.len() as u64 }) && data.len()
                <= u64::MAX)) || (s.phase == Phase::Created && e == EventView::Begin && s.unit.kind
            == UnitKind::InstalledArchive) || (s.phase == Phase::Pausing(Stage::Session) && e
            == EventView::Waited),
{
    if s.phase == Phase::ReadingLocal {
        match e {
            EventView::LocalRead { data, size } => {
                assert(e == (EventView::LocalRead { data, size: data.len() as u64 }) && data.len()
                    <= u64::MAX);
            },
            _ => {},
        }
    }
}

/// The old process is looked for only when the transfer is complete, the
/// peer's close included, or when the session is open for an archive that is
/// on the remote host already, or after the pause that follows a failed
/// attempt at stopping it.
pub proof fn lemma_termination_follows_transfer(s: DeploymentView, e: EventView)
    requires
        next(s, e).0.phase == Phase::Discovering,
    ensures
        (s.phase == Phase::AwaitingClose && e == EventView::StreamReady && s.unit.kind
            != UnitKind::StaticBundle) || (s.phase == Phase::Connecting && e
            == EventView::SessionOpened && s.unit.kind == UnitKind::InstalledArchive) || (s.phase
            == Phase::Pausing(Stage::Termination) && e == EventView::Waited),
{
}

/// The archive is launched only when the old process is known to be out of
/// the way: the query listed none, or a check found it gone, before the
/// forced signal or after it.
pub proof fn lemma_launch_follows_termination(s: DeploymentView, e: EventView)
    requires
        next(s, e).0.phase == Phase::Launching,
    ensures
        (s.phase == Phase::Discovering && (exists|output: Seq<char>|
            reply_of(e) == ReplyView::Output(output) && lists_nothing(output))) || (s.phase
            == Phase::Polling && finds_gone(e)) || (s.phase == Phase::FinalCheck && finds_gone(e)),
{
    if s.phase == Phase::Discovering {
        match reply_of(e) {
            ReplyView::Output(output) => {
                assert(reply_of(e) == ReplyView::Output(output) && lists_nothing(output));
            },
            _ => {},
        }
    }
}

/// A kill that is not verified is no kill: unless the check after the forced
/// signal finds the processes gone, be it that it finds them or that it cannot
/// be made, nothing is launched. The attempt has failed, and what is known of
/// the process stays as it was.
pub proof fn lemma_unverified_kill_fails_the_attempt(s: DeploymentView, e: EventView)
    requires
        s.phase == Phase::FinalCheck,
        !finds_gone(e),
    ensures
        next(s, e).0.phase == Phase::Finished || next(s, e).0.phase == Phase::Pausing(
            Stage::Termination,
        ),
        next(s, e).0.process == s.process,
        next(s, e).1 == ActionView::Stop || next(s, e).1 is Wait,
        finds_alive(e) && !(reply_of(e) is Failed) ==> next(s, e) == after_failed_attempt(
            s,
            Stage::Termination,
            DeployErrorView::ProcessTermination,
        ),
{
}

/// The first signal goes by the environment: processes of `prod` get the
/// signal that they may catch, processes of every other environment the one
/// that they cannot.
pub proof fn lemma_kill_policy(s: DeploymentView, status: i32, output: Seq<char>)
    requires
        s.phase == Phase::Discovering,
        status == 0,
        !lists_nothing(output),
    ensures
        s.env == "prod"@ ==> next(s, EventView::CommandExited { status, output }).1
            == ActionView::Run("kill "@ + trimmed(output)),
        s.env != "prod"@ ==> next(s, EventView::CommandExited { status, output }).1
            == ActionView::Run("kill -9 "@ + trimmed(output)),
{
}

/// The forced signal is a command of its own: it is neither a liveness check
/// nor a launch.
proof fn lemma_forced_kill_is_distinct(
    pids: Seq<char>,
    java: Seq<char>,
    jar: Seq<char>,
    env: Seq<char>,
)
    ensures
        forced_kill_text(pids) != liveness_check_text(pids),
        forced_kill_text(pids) != launch_text(java, jar, env),
{
    reveal_strlit("kill -9 ");
    reveal_strlit("ps -p ");
    reveal_strlit("nohup ");
    assert(forced_kill_text(pids)[0] == 'k');
    assert(liveness_check_text(pids)[0] == 'p');
    assert(launch_text(java, jar, env)[0] == 'n');
}

/// Checks that find the processes, fewer than the policy allows, change
/// nothing but their count: after each of them and the pause that follows it
/// the deployment waits for the next check as it waited for the first, and the
/// forced signal was not sent.
pub proof fn lemma_checks_that_find_go_on(s: DeploymentView, replies: Seq<EventView>)
    requires
        s.phase == Phase::Polling,
        s.checks + replies.len() < s.plan.poll.max_checks,
        forall|i: int| 0 <= i < replies.len() ==> finds_alive(#[trigger] replies[i]),
    ensures
        ({
            let run = run_from(s, found_events(replies));
            &&& run.0 == (DeploymentView { checks: (s.checks + replies.len()) as u32, ..s })
            &&& run.1.len() == 2 * replies.len()
            &&& count_of(run.1, ActionView::Run(forced_kill_text(s.pids))) == 0
        }),
    decreases replies.len(),
{
    let forced = ActionView::Run(forced_kill_text(s.pids));
    lemma_forced_kill_is_distinct(s.pids, s.java_path, s.unit.remote_path, s.env);
    if replies.len() > 0 {
        let rest = found_events(replies.drop_first());
        let first = next(s, replies[0]);
        let second = next(first.0, EventView::Waited);
        assert(finds_alive(replies[0]));
        assert(seq![replies[0], EventView::Waited] + rest =~= seq![replies[0]] + (
        seq![EventView::Waited] + rest));
        lemma_run_first(s, replies[0], seq![EventView::Waited] + rest);
        lemma_run_first(first.0, EventView::Waited, rest);
        assert forall|i: int| 0 <= i < replies.drop_first().len() implies finds_alive(
            #[trigger] replies.drop_first()[i],
        ) by {
            assert(replies.drop_first()[i] == replies[i + 1]);
        }
        lemma_checks_that_find_go_on(second.0, replies.drop_first());
        let tail = run_from(second.0, rest).1;
        lemma_count_first(second.1, tail, forced);
        lemma_count_first(first.1, seq![second.1] + tail, forced);
        assert(run_from(s, found_events(replies)).1 =~= seq![first.1] + (seq![second.1] + tail));
    }
}

/// A check that finds the processes gone before the checks run out ends the
/// polling without the forced signal: after any number of checks that found
/// them, within the limit, the first that does not leads to the launch.
pub proof fn lemma_gone_before_limit_skips_escalation(
    s: DeploymentView,
    earlier: Seq<EventView>,
    last: EventView,
)
    requires
        s.phase == Phase::Polling,
        s.checks + earlier.len() < s.plan.poll.max_checks,
        forall|i: int| 0 <= i < earlier.len() ==> finds_alive(#[trigger] earlier[i]),
        finds_gone(last),
    ensures
        ({
            let run = run_from(s, poll_events(earlier, last));
            &&& run.0.phase == Phase::Launching
            &&& run.0.process == Some(ProcessLifecycleView::Terminated)
            &&& run.1.len() == 2 * earlier.len() + 1
            &&& run.1.last() == ActionView::Run(launch_text(s.java_path, s.unit.remote_path, s.env))
            &&& count_of(run.1, ActionView::Run(forced_kill_text(s.pids))) == 0
        }),
{
    lemma_forced_kill_is_distinct(s.pids, s.java_path, s.unit.remote_path, s.env);
    lemma_checks_that_find_go_on(s, earlier);
    lemma_last_check(s, earlier, last, ActionView::Run(forced_kill_text(s.pids)));
}

/// Processes that every check finds are forced exactly once: when the last
/// check that the policy allows has found them too, the forced signal is sent,
/// and it was not sent before.
pub proof fn lemma_exhausted_checks_escalate_once(
    s: DeploymentView,
    earlier: Seq<EventView>,
    last: EventView,
)
    requires
        s.phase == Phase::Polling,
        s.checks + earlier.len() + 1 == s.plan.poll.max_checks,
        forall|i: int| 0 <= i < earlier.len() ==> finds_alive(#[trigger] earlier[i]),
        finds_alive(last),
    ensures
        ({
            let run = run_from(s, poll_events(earlier, last));
            &&& run.0.phase == Phase::Escalating
            &&& run.1.len() == 2 * earlier.len() + 1
            &&& run.1.last() == ActionView::Run(forced_kill_text(s.pids))
            &&& count_of(run.1, ActionView::Run(forced_kill_text(s.pids))) == 1
        }),
{
    lemma_forced_kill_is_distinct(s.pids, s.java_path, s.unit.remote_path, s.env);
    lemma_checks_that_find_go_on(s, earlier);
    lemma_last_check(s, earlier, last, ActionView::Run(forced_kill_text(s.pids)));
}

/// A row of checks is the checks that found the processes, then the step on
/// the last reply.
proof fn lemma_last_check(
    s: DeploymentView,
    earlier: Seq<EventView>,
    last: EventView,
    wanted: ActionView,
)
    ensures
        ({
            let before = run_from(s, found_events(earlier));
            let run = run_from(s, poll_events(earlier, last));
            &&& run.0 == next(before.0, last).0
            &&& run.1 == before.1.push(next(before.0, last).1)
            &&& count_of(run.1, wanted) == count_of(before.1, wanted) + (if next(
                before.0,
                last,
            ).1 == wanted {
                1nat
            } else {
                0nat
            })
        }),
{
    let before = run_from(s, found_events(earlier));
    let step = next(before.0, last);
    lemma_run_append(s, found_events(earlier), seq![last]);
    lemma_run_first(before.0, last, Seq::empty());
    assert(seq![last] + Seq::<EventView>::empty() =~= seq![last]);
    assert(seq![step.1] + Seq::<ActionView>::empty() =~= seq![step.1]);
    assert(before.1 + seq![step.1] =~= before.1.push(step.1));
    lemma_count_append(before.1, seq![step.1], wanted);
    lemma_count_first(step.1, Seq::empty(), wanted);
}

/// The checks begin when the pause after the signal is over, none of them
/// counted yet; a policy that allows no check sends the forced signal at once.
pub proof fn lemma_first_check_follows_the_pause(s: DeploymentView)
    requires
        s.phase == Phase::Settling,
    ensures
        s.plan.poll.max_checks > 0 ==> {
            &&& next(s, EventView::Waited).0.phase == Phase::Polling
            &&& next(s, EventView::Waited).0.checks == 0
            &&& next(s, EventView::Waited).0.pids == s.pids
            &&& next(s, EventView::Waited).1 == ActionView::Run(liveness_check_text(s.pids))
        },
        s.plan.poll.max_checks == 0 ==> {
            &&& next(s, EventView::Waited).0.phase == Phase::Escalating
            &&& next(s, EventView::Waited).1 == ActionView::Run(forced_kill_text(s.pids))
        },
{
}

/// The pause before a later check grows with the number of the check: the
/// check that `n` found processes went before comes after `n + 1` units.
pub proof fn lemma_backoff_grows(s: DeploymentView, e: EventView)
    requires
        s.phase == Phase::Polling,
        finds_alive(e),
        s.checks + 1 < s.plan.poll.max_checks,
    ensures
        next(s, e).1 == ActionView::Wait(
            (s.plan.poll.backoff_secs * (s.checks + 2)) as u64,
        ),
        next(s, e).0.checks == s.checks + 1,
        next(s, e).0.phase == Phase::BackingOff,
{
    assert(backoff_before(s.plan.poll, (s.checks + 1) as u32) == (s.plan.poll.backoff_secs * (
    s.checks + 2)) as u64);
}

/// A launch that leaves no process fails the deployment for good: the
/// outcome is a start error, and nothing more is asked of the driver.
pub proof fn lemma_empty_table_after_launch_ends_the_unit(
    s: DeploymentView,
    output: Seq<char>,
    rest: Seq<EventView>,
)
    requires
        s.phase == Phase::Confirming,
        lists_nothing(output),
    ensures
        ({
            let run = run_from(
                s,
                seq![EventView::CommandExited { status: 0, output }] + rest,
            );
            &&& run.0.phase == Phase::Finished
            &&& run.0.outcome == Some(OutcomeView::Failed(DeployErrorView::ProcessStart))
            &&& run.0.process == Some(ProcessLifecycleView::StartFailed)
            &&& run.1.len() == rest.len() + 1
            &&& forall|i: int| 0 <= i < run.1.len() ==> run.1[i] == ActionView::Stop
        }),
{
    let reply = EventView::CommandExited { status: 0, output };
    lemma_run_first(s, reply, rest);
    lemma_finished_is_final(next(s, reply).0, rest);
    let run = run_from(s, seq![reply] + rest);
    assert forall|i: int| 0 <= i < run.1.len() implies run.1[i] == ActionView::Stop by {
        if i >= 1 {
            assert(run.1[i] == run_from(next(s, reply).0, rest).1[i - 1]);
        }
    }
}

/// A launch that leaves a process ends the deployment well, under the process
/// ids that the query after the launch returned.
pub proof fn lemma_listed_process_after_launch_is_the_signature(
    s: DeploymentView,
    output: Seq<char>,
)
    requires
        s.phase == Phase::Confirming,
        !lists_nothing(output),
    ensures
        next(s, EventView::CommandExited { status: 0, output }).0.outcome == Some(
            OutcomeView::Started(trimmed(output)),
        ),
        next(s, EventView::CommandExited { status: 0, output }).0.phase == Phase::Finished,
{
}

/// Each deployment of a fleet ends as it would alone: its state after any
/// schedule is its state after its own events, whatever the other
/// deployments met and in whatever order the events were mixed.
pub proof fn lemma_units_run_apart(
    units: Seq<DeploymentView>,
    schedule: Seq<(int, EventView)>,
    index: int,
)
    requires
        0 <= index < units.len(),
    ensures
        fleet_run(units, schedule).len() == units.len(),
        fleet_run(units, schedule)[index] == run_from(
            units[index],
            events_for(schedule, index),
        ).0,
    decreases schedule.len(),
{
    if schedule.len() > 0 {
        let i = schedule[0].0;
        let stepped = if 0 <= i < units.len() {
            units.update(i, next(units[i], schedule[0].1).0)
        } else {
            units
        };
        lemma_units_run_apart(stepped, schedule.drop_first(), index);
        if i == index {
            lemma_run_first(units[index], schedule[0].1, events_for(schedule.drop_first(), index));
        }
    }
}

} // verus!
