use deploy_tool::deploy::{upload_and_run_jar, upload_file};
use deploy_tool::error::{DeployError, SessionFault, Stage};
use deploy_tool::machine::{Deployment, Phase};
use deploy_tool::protocol::{Action, Event};
use deploy_tool::unit::{Outcome, ProcessLifecycleState};

fn ok(output: &str) -> Event {
    Event::CommandExited { status: 0, output: output.to_string() }
}

fn run(line: &str) -> Action {
    Action::Run(line.to_string())
}

fn admin_to_dev() -> Deployment {
    upload_and_run_jar(
        "192.168.31.60:22",
        "root",
        "secret",
        "./admin/target/admin.jar",
        "/opt/app/admin.jar",
        "/usr/bin/java",
        "dev",
    )
}

const QUERY: &str = "ps -ef | grep /opt/app/admin.jar | grep -v grep | awk '{print $2}'";
const PROBE: &str = "test -e /opt/app/admin.jar && echo 'exists' || echo 'not exists'";
const START: &str =
    "nohup /usr/bin/java -jar /opt/app/admin.jar --spring.profiles.active=dev > /dev/null 2>&1 &";

/// Drives a fresh deployment up to the process query of the termination stage.
fn transferred() -> Deployment {
    let mut d = admin_to_dev();
    let events = vec![
        Event::Begin,
        Event::LocalRead { data: vec![7; 10], size: 10 },
        Event::SessionOpened,
        ok("not exists\n"),
        Event::StreamReady,
        Event::StreamReady,
        Event::StreamReady,
        Event::StreamReady,
        Event::StreamReady,
        Event::StreamReady,
    ];
    let actions = d.run(&events);
    assert_eq!(actions.last(), Some(&run(QUERY)));
    assert_eq!(d.phase, Phase::Discovering);
    d
}

#[test]
fn end_to_end_fresh_archive_is_uploaded_and_started() {
    let mut d = admin_to_dev();
    assert_eq!(d.step(Event::Begin), Action::ReadLocal("./admin/target/admin.jar".to_string()));
    assert_eq!(d.step(Event::LocalRead { data: vec![7; 2048], size: 2048 }), Action::OpenSession);
    assert_eq!(d.step(Event::SessionOpened), run(PROBE));
    // nothing is there: no backup, the stream is opened at once
    assert_eq!(
        d.step(ok("not exists\n")),
        Action::OpenStream { path: "/opt/app/admin.jar".to_string(), size: 2048, mode: 0o644 }
    );
    assert_eq!(d.step(Event::StreamReady), Action::WriteAll);
    assert_eq!(d.step(Event::StreamReady), Action::SendEof);
    assert_eq!(d.step(Event::StreamReady), Action::WaitEof);
    assert_eq!(d.step(Event::StreamReady), Action::Close);
    assert_eq!(d.step(Event::StreamReady), Action::WaitClose);
    assert_eq!(d.step(Event::StreamReady), run(QUERY));
    // no process runs: nothing is killed, the archive is started
    assert_eq!(d.step(ok("")), run(START));
    assert_eq!(d.process, Some(ProcessLifecycleState::Absent));
    assert_eq!(d.step(ok("")), Action::Wait(2));
    assert_eq!(d.process, Some(ProcessLifecycleState::Starting));
    assert_eq!(d.step(Event::Waited), run(QUERY));
    assert_eq!(d.step(ok("4242\n")), Action::Stop);
    assert!(d.is_finished());
    assert_eq!(d.process, Some(ProcessLifecycleState::Started));
    assert_eq!(d.outcome, Some(Outcome::Started("4242".to_string())));
}

#[test]
fn existing_remote_file_is_moved_to_its_backup_before_the_copy() {
    let mut d = admin_to_dev();
    d.run(&vec![Event::Begin, Event::LocalRead { data: vec![7; 5], size: 5 }, Event::SessionOpened]);
    assert_eq!(d.step(ok("exists\n")), run("mv /opt/app/admin.jar /opt/app/admin.jar.bak"));
    assert_eq!(
        d.step(ok("")),
        Action::OpenStream { path: "/opt/app/admin.jar".to_string(), size: 5, mode: 0o644 }
    );
}

#[test]
fn truncated_read_fails_before_any_network_action() {
    let mut d = admin_to_dev();
    let actions = d.run(&vec![
        Event::Begin,
        Event::LocalRead { data: vec![7; 2047], size: 2048 },
        Event::SessionOpened,
        Event::Waited,
    ]);
    assert_eq!(
        actions,
        vec![
            Action::ReadLocal("./admin/target/admin.jar".to_string()),
            Action::Stop,
            Action::Stop,
            Action::Stop
        ]
    );
    assert_eq!(d.outcome, Some(Outcome::Failed(DeployError::LocalIo)));
}

#[test]
fn unreadable_file_is_a_local_error() {
    let mut d = admin_to_dev();
    d.step(Event::Begin);
    assert_eq!(d.step(Event::LocalFailed), Action::Stop);
    assert_eq!(d.outcome, Some(Outcome::Failed(DeployError::LocalIo)));
}

#[test]
fn session_is_retried_within_its_budget() {
    let mut d = admin_to_dev();
    d.run(&vec![Event::Begin, Event::LocalRead { data: vec![7; 1], size: 1 }]);
    assert_eq!(d.step(Event::SessionFailed(SessionFault::Connect)), Action::Wait(2));
    assert_eq!(d.step(Event::Waited), Action::OpenSession);
    assert_eq!(d.step(Event::SessionFailed(SessionFault::Handshake)), Action::Wait(2));
    assert_eq!(d.step(Event::Waited), Action::OpenSession);
    assert_eq!(d.step(Event::SessionFailed(SessionFault::Auth)), Action::Stop);
    assert_eq!(d.outcome, Some(Outcome::Failed(DeployError::RetryExhausted(Stage::Session))));
}

#[test]
fn transfer_retry_starts_over_with_the_same_path_and_size() {
    let mut d = admin_to_dev();
    d.run(&vec![
        Event::Begin,
        Event::LocalRead { data: vec![7; 77], size: 77 },
        Event::SessionOpened,
        ok("not exists"),
        Event::StreamReady,
    ]);
    // the write fails midway
    assert_eq!(d.step(Event::StreamFailed), Action::Wait(2));
    assert_eq!(d.step(Event::Waited), run(PROBE));
    assert_eq!(
        d.step(ok("not exists")),
        Action::OpenStream { path: "/opt/app/admin.jar".to_string(), size: 77, mode: 0o644 }
    );
    assert_eq!(d.step(Event::StreamReady), Action::WriteAll);
}

#[test]
fn production_processes_are_asked_to_stop() {
    let mut d = upload_and_run_jar("h:22", "u", "p", "a.jar", "/opt/app/admin.jar", "java", "prod");
    d.run(&vec![
        Event::Begin,
        Event::LocalRead { data: vec![7; 1], size: 1 },
        Event::SessionOpened,
        ok("not exists"),
        Event::StreamReady,
        Event::StreamReady,
        Event::StreamReady,
        Event::StreamReady,
        Event::StreamReady,
        Event::StreamReady,
    ]);
    assert_eq!(d.step(ok("311\n")), run("kill 311"));
    assert_eq!(d.process, Some(ProcessLifecycleState::Running("311".to_string())));
}

#[test]
fn other_environments_are_killed_at_once() {
    for env in ["dev", "test", "staging", "PROD", "prod ", ""] {
        let mut d =
            upload_and_run_jar("h:22", "u", "p", "a.jar", "/opt/app/admin.jar", "java", env);
        d.run(&vec![
            Event::Begin,
            Event::LocalRead { data: vec![7; 1], size: 1 },
            Event::SessionOpened,
            ok("not exists"),
            Event::StreamReady,
            Event::StreamReady,
            Event::StreamReady,
            Event::StreamReady,
            Event::StreamReady,
            Event::StreamReady,
        ]);
        assert_eq!(d.step(ok("311\n")), run("kill -9 311"), "for {:?}", env);
    }
}

#[test]
fn process_gone_at_the_second_check_needs_no_forced_signal() {
    let mut d = transferred();
    let actions = d.run(&vec![
        ok("311\n312\n"),
        ok(""),
        Event::Waited,
        ok("0\n"),
        Event::Waited,
        ok("1\n"),
    ]);
    let check = "ps -p 311,312 > /dev/null 2>&1; echo $?";
    assert_eq!(
        actions,
        vec![
            run("kill -9 311\n312"),
            Action::Wait(1),
            run(check),
            Action::Wait(20),
            run(check),
            run(START),
        ]
    );
    assert_eq!(d.process, Some(ProcessLifecycleState::Terminated));
    assert_eq!(d.phase, Phase::Launching);
}

#[test]
fn process_that_outlives_every_check_is_forced_exactly_once() {
    let mut d = upload_and_run_jar("h:22", "u", "p", "a.jar", "/opt/app/admin.jar", "/usr/bin/java", "prod");
    d.run(&vec![
        Event::Begin,
        Event::LocalRead { data: vec![7; 1], size: 1 },
        Event::SessionOpened,
        ok("not exists"),
        Event::StreamReady,
        Event::StreamReady,
        Event::StreamReady,
        Event::StreamReady,
        Event::StreamReady,
        Event::StreamReady,
    ]);
    let actions = d.run(&vec![
        ok("311\n"),
        ok(""),
        Event::Waited,
        ok("0\n"),
        Event::Waited,
        ok("0\n"),
        Event::Waited,
        Event::ChannelFailed,
        ok(""),
        ok("1\n"),
    ]);
    let check = "ps -p 311 > /dev/null 2>&1; echo $?";
    assert_eq!(
        actions,
        vec![
            run("kill 311"),
            Action::Wait(1),
            run(check),
            Action::Wait(20),
            run(check),
            Action::Wait(30),
            run(check),
            run("kill -9 311"),
            run(check),
            run("nohup /usr/bin/java -jar /opt/app/admin.jar --spring.profiles.active=prod > /dev/null 2>&1 &"),
        ]
    );
    let forced = actions.iter().filter(|a| **a == run("kill -9 311")).count();
    assert_eq!(forced, 1);
}

#[test]
fn process_that_survives_the_forced_signal_fails_the_attempt() {
    let mut d = transferred();
    d.plan.termination = None;
    d.run(&vec![
        ok("9\n"),
        ok(""),
        Event::Waited,
        ok("0"),
        Event::Waited,
        ok("0"),
        Event::Waited,
        ok("0"),
        ok(""),
    ]);
    assert_eq!(d.phase, Phase::FinalCheck);
    assert_eq!(d.step(ok("0\n")), Action::Stop);
    assert_eq!(d.outcome, Some(Outcome::Failed(DeployError::ProcessTermination)));
}

#[test]
fn termination_is_attempted_again_from_the_query() {
    let mut d = transferred();
    assert_eq!(d.step(Event::ChannelFailed), Action::Wait(2));
    assert_eq!(d.step(Event::Waited), run(QUERY));
    assert_eq!(
        d.step(Event::CommandExited { status: 1, output: "boom".to_string() }),
        Action::Wait(2)
    );
    assert_eq!(d.step(Event::Waited), run(QUERY));
    assert_eq!(d.step(Event::ChannelFailed), Action::Stop);
    assert_eq!(d.outcome, Some(Outcome::Failed(DeployError::RetryExhausted(Stage::Termination))));
}

#[test]
fn empty_process_table_after_launch_is_a_start_error() {
    let mut d = transferred();
    d.run(&vec![ok(""), ok(""), Event::Waited]);
    assert_eq!(d.phase, Phase::Confirming);
    assert_eq!(d.step(ok(" \n")), Action::Stop);
    assert_eq!(d.outcome, Some(Outcome::Failed(DeployError::ProcessStart)));
    assert_eq!(d.process, Some(ProcessLifecycleState::StartFailed));
    // nothing runs for the unit after that
    assert_eq!(d.step(Event::Waited), Action::Stop);
    assert_eq!(d.step(ok("4242")), Action::Stop);
    assert_eq!(d.outcome, Some(Outcome::Failed(DeployError::ProcessStart)));
}

#[test]
fn failed_launch_command_fails_the_deployment_with_its_status() {
    let mut d = transferred();
    d.step(ok(""));
    assert_eq!(
        d.step(Event::CommandExited { status: 127, output: "not found".to_string() }),
        Action::Stop
    );
    assert_eq!(
        d.outcome,
        Some(Outcome::Failed(DeployError::RemoteCommand {
            status: 127,
            output: "not found".to_string()
        }))
    );
}

#[test]
fn event_that_answers_nothing_fails_the_deployment() {
    let mut d = admin_to_dev();
    assert_eq!(d.step(Event::Waited), Action::Stop);
    assert_eq!(d.outcome, Some(Outcome::Failed(DeployError::OutOfOrder)));
    let mut d = transferred();
    assert_eq!(d.step(Event::StreamReady), Action::Stop);
    assert_eq!(d.outcome, Some(Outcome::Failed(DeployError::OutOfOrder)));
}

#[test]
fn bundle_is_uploaded_beside_its_directory_and_unpacked() {
    let mut d = upload_file("h:22", "u", "p", "./web/dist.zip", "/opt/app/dist");
    let actions = d.run(&vec![
        Event::Begin,
        Event::LocalRead { data: vec![7; 900], size: 900 },
        Event::SessionOpened,
        ok("not exists"),
        Event::StreamReady,
        Event::StreamReady,
        Event::StreamReady,
        Event::StreamReady,
        Event::StreamReady,
        Event::StreamReady,
        ok("inflating"),
    ]);
    assert_eq!(
        actions,
        vec![
            Action::ReadLocal("./web/dist.zip".to_string()),
            Action::OpenSession,
            run("test -e /opt/app/dist.zip && echo 'exists' || echo 'not exists'"),
            Action::OpenStream { path: "/opt/app/dist.zip".to_string(), size: 900, mode: 0o644 },
            Action::WriteAll,
            Action::SendEof,
            Action::WaitEof,
            Action::Close,
            Action::WaitClose,
            run("rm -rf /opt/app/dist && mkdir -p /opt/app/dist && cd /opt/app/dist && /usr/bin/unzip -o /opt/app/dist.zip"),
            Action::Stop,
        ]
    );
    assert_eq!(d.outcome, Some(Outcome::Unpacked));
}

#[test]
fn bundle_session_and_transfer_are_attempted_again() {
    let mut d = upload_file("h:22", "u", "p", "./web/dist.zip", "/opt/app/dist");
    let zip_probe = "test -e /opt/app/dist.zip && echo 'exists' || echo 'not exists'";
    d.run(&vec![Event::Begin, Event::LocalRead { data: vec![7; 900], size: 900 }]);
    // the first session fails, the second opens
    assert_eq!(d.step(Event::SessionFailed(SessionFault::Auth)), Action::Wait(2));
    assert_eq!(d.step(Event::Waited), Action::OpenSession);
    assert_eq!(d.step(Event::SessionOpened), run(zip_probe));
    // the first transfer fails at the write, the second goes through
    assert_eq!(
        d.step(ok("not exists")),
        Action::OpenStream { path: "/opt/app/dist.zip".to_string(), size: 900, mode: 0o644 }
    );
    assert_eq!(d.step(Event::StreamReady), Action::WriteAll);
    assert_eq!(d.step(Event::StreamFailed), Action::Wait(2));
    // the session is not opened again: the transfer starts over
    assert_eq!(d.step(Event::Waited), run(zip_probe));
    let actions = d.run(&vec![
        ok("not exists"),
        Event::StreamReady,
        Event::StreamReady,
        Event::StreamReady,
        Event::StreamReady,
        Event::StreamReady,
        Event::StreamReady,
        ok("inflating"),
    ]);
    assert_eq!(actions.last(), Some(&Action::Stop));
    assert_eq!(d.outcome, Some(Outcome::Unpacked));
}

#[test]
fn bundle_gives_up_when_the_budget_is_spent() {
    let mut d = upload_file("h:22", "u", "p", "./web/dist.zip", "/opt/app/dist");
    d.run(&vec![
        Event::Begin,
        Event::LocalRead { data: vec![7; 900], size: 900 },
        Event::SessionFailed(SessionFault::Connect),
        Event::Waited,
        Event::SessionFailed(SessionFault::Connect),
        Event::Waited,
    ]);
    assert_eq!(d.step(Event::SessionFailed(SessionFault::Connect)), Action::Stop);
    assert_eq!(d.outcome, Some(Outcome::Failed(DeployError::RetryExhausted(Stage::Session))));

    let mut d = upload_file("h:22", "u", "p", "./web/dist.zip", "/opt/app/dist");
    d.run(&vec![
        Event::Begin,
        Event::LocalRead { data: vec![7; 900], size: 900 },
        Event::SessionOpened,
        Event::ChannelFailed,
        Event::Waited,
        Event::ChannelFailed,
        Event::Waited,
    ]);
    assert_eq!(d.step(Event::ChannelFailed), Action::Stop);
    assert_eq!(d.outcome, Some(Outcome::Failed(DeployError::RetryExhausted(Stage::Transfer))));
}

#[test]
fn session_fault_without_a_budget_is_the_outcome() {
    for (fault, error) in [
        (SessionFault::Connect, DeployError::Connect),
        (SessionFault::Handshake, DeployError::Handshake),
        (SessionFault::Auth, DeployError::Auth),
    ] {
        let mut d = upload_file("h:22", "u", "p", "./web/dist.zip", "/opt/app/dist");
        d.plan.session = None;
        d.run(&vec![Event::Begin, Event::LocalRead { data: vec![7; 1], size: 1 }]);
        assert_eq!(d.step(Event::SessionFailed(fault)), Action::Stop);
        assert_eq!(d.outcome, Some(Outcome::Failed(error)));
    }
}

#[test]
fn failed_unpacking_fails_the_bundle() {
    let to_unpacking = vec![
        Event::Begin,
        Event::LocalRead { data: vec![7; 900], size: 900 },
        Event::SessionOpened,
        ok("not exists"),
        Event::StreamReady,
        Event::StreamReady,
        Event::StreamReady,
        Event::StreamReady,
        Event::StreamReady,
        Event::StreamReady,
    ];
    let mut d = upload_file("h:22", "u", "p", "./web/dist.zip", "/opt/app/dist");
    d.run(&to_unpacking);
    assert_eq!(d.phase, Phase::Unpacking);
    assert_eq!(
        d.step(Event::CommandExited { status: 9, output: "unzip: cannot find".to_string() }),
        Action::Stop
    );
    assert_eq!(
        d.outcome,
        Some(Outcome::Failed(DeployError::RemoteCommand {
            status: 9,
            output: "unzip: cannot find".to_string()
        }))
    );

    let mut d = upload_file("h:22", "u", "p", "./web/dist.zip", "/opt/app/dist");
    d.run(&to_unpacking);
    assert_eq!(d.step(Event::ChannelFailed), Action::Stop);
    assert_eq!(d.outcome, Some(Outcome::Failed(DeployError::Channel)));
}

#[test]
fn budget_without_attempts_is_exhausted_at_once() {
    let mut d = admin_to_dev();
    d.plan.session = Some(deploy_tool::retry::RetryBudget::new(0, 2));
    d.step(Event::Begin);
    assert_eq!(d.step(Event::LocalRead { data: vec![7; 1], size: 1 }), Action::Stop);
    assert_eq!(d.outcome, Some(Outcome::Failed(DeployError::RetryExhausted(Stage::Session))));

    let mut d = admin_to_dev();
    d.plan.transfer = Some(deploy_tool::retry::RetryBudget::new(0, 2));
    d.run(&vec![Event::Begin, Event::LocalRead { data: vec![7; 1], size: 1 }]);
    assert_eq!(d.step(Event::SessionOpened), Action::Stop);
    assert_eq!(d.outcome, Some(Outcome::Failed(DeployError::RetryExhausted(Stage::Transfer))));
}

#[test]
fn policy_without_checks_forces_after_the_pause() {
    let mut d = transferred();
    d.plan.poll.max_checks = 0;
    let actions = d.run(&vec![ok("8\n"), ok(""), Event::Waited, ok(""), ok("1")]);
    assert_eq!(
        actions,
        vec![
            run("kill -9 8"),
            Action::Wait(1),
            run("kill -9 8"),
            run("ps -p 8 > /dev/null 2>&1; echo $?"),
            run(START),
        ]
    );
}

#[test]
fn final_check_that_cannot_be_made_fails_the_attempt() {
    let mut d = transferred();
    d.plan.poll.max_checks = 1;
    d.run(&vec![ok("8\n"), ok(""), Event::Waited, ok("0"), ok("")]);
    assert_eq!(d.phase, Phase::FinalCheck);
    // the kill is not verified: nothing is launched, the stage is attempted again
    assert_eq!(d.step(Event::ChannelFailed), Action::Wait(2));
    assert_eq!(d.phase, Phase::Pausing(Stage::Termination));
    assert_eq!(d.process, Some(ProcessLifecycleState::Terminating));
    assert_eq!(d.step(Event::Waited), run(QUERY));

    let mut d = transferred();
    d.plan.poll.max_checks = 1;
    d.plan.termination = None;
    d.run(&vec![ok("8\n"), ok(""), Event::Waited, ok("0"), ok("")]);
    assert_eq!(
        d.step(Event::CommandExited { status: 255, output: "lost".to_string() }),
        Action::Stop
    );
    assert_eq!(
        d.outcome,
        Some(Outcome::Failed(DeployError::RemoteCommand {
            status: 255,
            output: "lost".to_string()
        }))
    );
    assert_eq!(d.process, Some(ProcessLifecycleState::Terminating));
}

#[test]
fn stage_steps_do_nothing_outside_their_stage() {
    // a deployment that has not begun is not started by the step of the start
    let mut d = admin_to_dev();
    assert_eq!(d.launch_step(ok("4242")), Action::Stop);
    assert_eq!(d.outcome, Some(Outcome::Failed(DeployError::OutOfOrder)));
    let mut d = admin_to_dev();
    assert_eq!(d.termination_step(ok("1")), Action::Stop);
    assert_eq!(d.outcome, Some(Outcome::Failed(DeployError::OutOfOrder)));
    let mut d = admin_to_dev();
    assert_eq!(d.unpack_step(ok("")), Action::Stop);
    assert_eq!(d.outcome, Some(Outcome::Failed(DeployError::OutOfOrder)));
    let mut d = admin_to_dev();
    assert_eq!(d.transfer_step(Event::StreamReady), Action::Stop);
    assert_eq!(d.outcome, Some(Outcome::Failed(DeployError::OutOfOrder)));
    // a finished deployment keeps its outcome
    let mut d = admin_to_dev();
    d.run(&vec![Event::Begin, Event::LocalFailed]);
    for _ in 0..2 {
        assert_eq!(d.launch_step(ok("4242")), Action::Stop);
        assert_eq!(d.termination_step(ok("1")), Action::Stop);
        assert_eq!(d.unpack_step(ok("")), Action::Stop);
        assert_eq!(d.transfer_step(Event::StreamReady), Action::Stop);
        assert_eq!(d.outcome, Some(Outcome::Failed(DeployError::LocalIo)));
    }
}

#[test]
fn report_names_what_the_deployment_knows_of_its_failure() {
    // the processes that would not go
    let mut d = transferred();
    d.plan.termination = None;
    d.run(&vec![
        ok("9\n10\n"),
        ok(""),
        Event::Waited,
        ok("0"),
        Event::Waited,
        ok("0"),
        Event::Waited,
        ok("0"),
        ok(""),
    ]);
    assert_eq!(d.report(), None);
    d.step(ok("0"));
    assert_eq!(d.report(), Some("最终进程检查失败，进程可能仍在运行: 9\n10".to_string()));

    // the archive that did not start
    let mut d = transferred();
    d.run(&vec![ok(""), ok(""), Event::Waited, ok("")]);
    assert_eq!(d.report(), Some("程序启动失败: /opt/app/admin.jar".to_string()));

    // the attempts that were made
    let mut d = transferred();
    d.run(&vec![
        Event::ChannelFailed,
        Event::Waited,
        Event::ChannelFailed,
        Event::Waited,
        Event::ChannelFailed,
    ]);
    assert_eq!(d.report(), Some("进程杀死失败，已达到最大重试次数(3次)".to_string()));

    let mut d = admin_to_dev();
    d.plan.session = Some(deploy_tool::retry::RetryBudget::new(12, 0));
    d.step(Event::Begin);
    d.step(Event::LocalRead { data: vec![7; 1], size: 1 });
    while !d.is_finished() {
        d.step(Event::SessionFailed(SessionFault::Connect));
        d.step(Event::Waited);
    }
    assert_eq!(d.report(), Some("创建SSH会话失败，已达到最大重试次数(12次)".to_string()));

    // other causes, and success
    let mut d = admin_to_dev();
    d.run(&vec![Event::Begin, Event::LocalFailed]);
    assert_eq!(d.report(), Some("读取本地文件失败或文件读取不完整".to_string()));
    let mut d = transferred();
    d.run(&vec![ok(""), ok(""), Event::Waited, ok("4242\n")]);
    assert_eq!(d.report(), Some("程序已在后台成功启动,进程id 4242".to_string()));
    assert_eq!(d.cause(&DeployError::ProcessStart), "程序启动失败: /opt/app/admin.jar");
}

#[test]
fn failed_first_signal_fails_the_attempt() {
    let mut d = transferred();
    d.step(ok("8\n"));
    assert_eq!(
        d.step(Event::CommandExited { status: 1, output: "no such process".to_string() }),
        Action::Wait(2)
    );
    assert_eq!(d.phase, Phase::Pausing(Stage::Termination));
    assert_eq!(d.failures, 1);
}

#[test]
fn failures_of_one_stage_do_not_count_in_the_next() {
    let mut d = admin_to_dev();
    d.run(&vec![
        Event::Begin,
        Event::LocalRead { data: vec![7; 1], size: 1 },
        Event::SessionFailed(SessionFault::Connect),
        Event::Waited,
        Event::SessionFailed(SessionFault::Connect),
        Event::Waited,
    ]);
    assert_eq!(d.failures, 2);
    assert_eq!(d.step(Event::SessionOpened), run(PROBE));
    assert_eq!(d.failures, 0);
    // the transfer has its own three attempts
    assert_eq!(d.step(Event::ChannelFailed), Action::Wait(2));
    assert_eq!(d.step(Event::Waited), run(PROBE));
    assert_eq!(d.step(Event::ChannelFailed), Action::Wait(2));
    assert_eq!(d.step(Event::Waited), run(PROBE));
    assert_eq!(d.step(Event::ChannelFailed), Action::Stop);
    assert_eq!(d.outcome, Some(Outcome::Failed(DeployError::RetryExhausted(Stage::Transfer))));
}

#[test]
fn probe_result_is_kept_for_the_report() {
    let mut d = admin_to_dev();
    d.run(&vec![Event::Begin, Event::LocalRead { data: vec![7; 1], size: 1 }, Event::SessionOpened]);
    assert_eq!(d.probe, None);
    d.step(ok("not exists\n"));
    assert_eq!(d.probe, Some(deploy_tool::command::Probe::Missing));
    assert_eq!(d.phase, Phase::Creating);
}

#[test]
fn deployment_holds_the_bytes_that_were_read() {
    let bytes: Vec<u8> = (0..=255).collect();
    let mut d = admin_to_dev();
    d.step(Event::Begin);
    assert_eq!(d.step(Event::LocalRead { data: bytes.clone(), size: 256 }), Action::OpenSession);
    assert_eq!(d.data, bytes);
    assert_eq!(d.size, 256);
    // through a failed write and the attempt that follows it
    d.run(&vec![
        Event::SessionOpened,
        ok("not exists"),
        Event::StreamReady,
        Event::StreamFailed,
        Event::Waited,
    ]);
    assert_eq!(
        d.step(ok("not exists")),
        Action::OpenStream { path: "/opt/app/admin.jar".to_string(), size: 256, mode: 0o644 }
    );
    assert_eq!(d.step(Event::StreamReady), Action::WriteAll);
    assert_eq!(d.data, bytes);

    // bytes that are not as many as the size says are not kept
    let mut d = admin_to_dev();
    d.step(Event::Begin);
    assert_eq!(d.step(Event::LocalRead { data: bytes.clone(), size: 257 }), Action::Stop);
    assert!(d.data.is_empty());
    assert_eq!(d.outcome, Some(Outcome::Failed(DeployError::LocalIo)));
}
