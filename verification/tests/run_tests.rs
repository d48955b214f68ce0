use deploy_tool::error::{DeployError, SessionFault, Stage};
use deploy_tool::machine::Phase;
use deploy_tool::protocol::{Action, Event};
use deploy_tool::retry::Plan;
use deploy_tool::run::run_jar;
use deploy_tool::unit::{Outcome, ProcessLifecycleState, UnitKind};

fn exited(status: i32, output: &str) -> Event {
    Event::CommandExited { status, output: output.to_string() }
}

fn run(line: &str) -> Action {
    Action::Run(line.to_string())
}

const QUERY: &str = "ps -ef | grep /opt/app/admin.jar | grep -v grep | awk '{print $2}'";
const START: &str =
    "nohup /usr/bin/java -jar /opt/app/admin.jar --spring.profiles.active=test > /dev/null 2>&1 &";

#[test]
fn restart_is_a_deployment_with_nothing_to_send() {
    let d = run_jar("h:22", "u", "p", "/opt/app/admin.jar", "/usr/bin/java", "test");
    assert_eq!(d.phase, Phase::Created);
    assert_eq!(d.target.server, "h:22");
    assert_eq!(d.target.username, "u");
    assert_eq!(d.target.password, "p");
    assert_eq!(d.unit.kind, UnitKind::InstalledArchive);
    assert_eq!(d.unit.remote_path, "/opt/app/admin.jar");
    assert_eq!(d.unit.local_path, "");
    assert_eq!(d.java_path, "/usr/bin/java");
    assert_eq!(d.env, "test");
    assert_eq!(d.plan, Plan::retrying());
}

#[test]
fn restart_stops_the_old_process_checks_and_starts() {
    let mut d = run_jar("h:22", "u", "p", "/opt/app/admin.jar", "/usr/bin/java", "test");
    let actions = d.run(&vec![
        Event::Begin,
        Event::SessionOpened,
        exited(0, "77\n"),
        exited(0, ""),
        Event::Waited,
        exited(0, "1\n"),
        exited(0, ""),
        Event::Waited,
        exited(0, " 555\n"),
        Event::Waited,
    ]);
    assert_eq!(
        actions,
        vec![
            Action::OpenSession,
            run(QUERY),
            run("kill -9 77"),
            Action::Wait(1),
            run("ps -p 77 > /dev/null 2>&1; echo $?"),
            run(START),
            Action::Wait(2),
            run(QUERY),
            Action::Stop,
            Action::Stop,
        ]
    );
    assert!(d.is_finished());
    assert_eq!(d.process, Some(ProcessLifecycleState::Started));
    assert_eq!(d.outcome, Some(Outcome::Started("555".to_string())));
}

#[test]
fn restart_with_nothing_running_starts_at_once() {
    let mut d = run_jar("h:22", "u", "p", "/opt/app/admin.jar", "/usr/bin/java", "test");
    d.run(&vec![Event::Begin, Event::SessionOpened]);
    assert_eq!(d.step(exited(0, "")), run(START));
    assert_eq!(d.process, Some(ProcessLifecycleState::Absent));
}

#[test]
fn restart_never_reads_or_sends() {
    let mut seed: u64 = 7;
    for _ in 0..200 {
        let mut d = run_jar("h:22", "u", "p", "/opt/app/admin.jar", "/usr/bin/java", "test");
        let mut event = Event::Begin;
        while !d.is_finished() {
            let action = d.step(event);
            assert!(
                matches!(action, Action::OpenSession | Action::Run(_) | Action::Wait(_) | Action::Stop),
                "{:?}",
                action
            );
            seed = seed.wrapping_mul(6364136223846793005).wrapping_add(1442695040888963407);
            event = match (seed >> 33) % 8 {
                0 => Event::SessionOpened,
                1 => Event::SessionFailed(SessionFault::Connect),
                2 => exited(0, "1\n"),
                3 => exited(0, "42\n"),
                4 => exited(0, ""),
                5 => Event::ChannelFailed,
                6 => Event::StreamReady,
                _ => Event::Waited,
            };
        }
    }
}

#[test]
fn restart_fails_when_no_process_shows() {
    let mut d = run_jar("h:22", "u", "p", "/opt/app/admin.jar", "/usr/bin/java", "test");
    d.run(&vec![Event::Begin, Event::SessionOpened, exited(0, ""), exited(0, ""), Event::Waited]);
    assert_eq!(d.step(exited(0, "\n")), Action::Stop);
    assert_eq!(d.outcome, Some(Outcome::Failed(DeployError::ProcessStart)));
    assert_eq!(d.report(), Some("程序启动失败: /opt/app/admin.jar".to_string()));
}

#[test]
fn restart_attempts_the_session_again() {
    let mut d = run_jar("h:22", "u", "p", "/opt/app/admin.jar", "/usr/bin/java", "test");
    d.step(Event::Begin);
    assert_eq!(d.step(Event::SessionFailed(SessionFault::Handshake)), Action::Wait(2));
    assert_eq!(d.step(Event::Waited), Action::OpenSession);
    assert_eq!(d.step(Event::SessionFailed(SessionFault::Handshake)), Action::Wait(2));
    assert_eq!(d.step(Event::Waited), Action::OpenSession);
    assert_eq!(d.step(Event::SessionFailed(SessionFault::Handshake)), Action::Stop);
    assert_eq!(d.outcome, Some(Outcome::Failed(DeployError::RetryExhausted(Stage::Session))));
}

#[test]
fn restart_takes_a_failed_command_for_a_failure() {
    let mut d = run_jar("h:22", "u", "p", "/opt/app/admin.jar", "/usr/bin/java", "test");
    d.run(&vec![Event::Begin, Event::SessionOpened, exited(0, "")]);
    assert_eq!(d.step(exited(127, "nohup: not found")), Action::Stop);
    assert_eq!(
        d.outcome,
        Some(Outcome::Failed(DeployError::RemoteCommand {
            status: 127,
            output: "nohup: not found".to_string()
        }))
    );
}
