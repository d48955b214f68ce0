use deploy_tool::deploy::{upload_and_run_jar, upload_file};
use deploy_tool::error::{SessionFault, Stage};
use deploy_tool::machine::Phase;
use deploy_tool::protocol::Event;
use deploy_tool::retry::{Plan, PollPolicy, RetryBudget};
use deploy_tool::run::run_jar;

fn event(kind: u64) -> Event {
    match kind % 12 {
        0 => Event::Begin,
        1 => Event::LocalRead { data: vec![7; 9], size: 9 },
        2 => Event::SessionOpened,
        3 => Event::SessionFailed(SessionFault::Connect),
        4 => Event::CommandExited { status: 0, output: "exists\n".to_string() },
        5 => Event::CommandExited { status: 0, output: "1\n".to_string() },
        6 => Event::CommandExited { status: 0, output: "0\n".to_string() },
        7 => Event::CommandExited { status: 0, output: String::new() },
        8 => Event::CommandExited { status: 1, output: "failed".to_string() },
        9 => Event::ChannelFailed,
        10 => Event::StreamReady,
        _ => Event::Waited,
    }
}

/// The event that keeps a deployment going for as long as any can.
fn stubborn(phase: Phase) -> Event {
    match phase {
        Phase::Created => Event::Begin,
        Phase::ReadingLocal => Event::LocalRead { data: vec![7; 9], size: 9 },
        Phase::Connecting => Event::SessionFailed(SessionFault::Connect),
        Phase::Pausing(_) | Phase::Settling | Phase::BackingOff | Phase::Warming => Event::Waited,
        Phase::Probing => Event::CommandExited { status: 0, output: "exists".to_string() },
        Phase::BackingUp => Event::CommandExited { status: 0, output: String::new() },
        Phase::Creating
        | Phase::Writing
        | Phase::SendingEof
        | Phase::AwaitingEof
        | Phase::Closing => Event::StreamReady,
        Phase::AwaitingClose => Event::StreamFailed,
        Phase::Discovering => Event::CommandExited { status: 0, output: "7\n".to_string() },
        Phase::Signalling | Phase::Escalating => {
            Event::CommandExited { status: 0, output: String::new() }
        }
        Phase::Polling | Phase::FinalCheck => {
            Event::CommandExited { status: 0, output: "0\n".to_string() }
        }
        _ => Event::CommandExited { status: 0, output: "7\n".to_string() },
    }
}

#[test]
fn standard_archive_deployment_takes_at_most_71_events() {
    let d = upload_and_run_jar("h:22", "u", "p", "a.jar", "/opt/a.jar", "java", "dev");
    // 2 to read, 3 x 2 for the session, 3 x 9 for the transfer,
    // 3 x 11 to stop the old process, 3 to start the new one
    assert_eq!(d.steps_left(), 2 + 6 + 27 + 33 + 3);
}

#[test]
fn standard_bundle_deployment_takes_at_most_36_events() {
    let d = upload_file("h:22", "u", "p", "d.zip", "/opt/d");
    // 2 to read, 3 x 2 for the session, 3 x 9 for the transfer, 1 to unpack
    assert_eq!(d.steps_left(), 2 + 6 + 27 + 1);
}

#[test]
fn standard_restart_takes_at_most_43_events() {
    let d = run_jar("h:22", "u", "p", "/opt/a.jar", "java", "dev");
    // 1 to begin, 3 x 2 for the session, 3 x 11 to stop the old process,
    // 3 to start the new one
    assert_eq!(d.steps_left(), 1 + 6 + 33 + 3);
}

#[test]
fn finished_deployment_has_no_steps_left() {
    let mut d = upload_file("h:22", "u", "p", "d.zip", "/opt/d");
    d.step(Event::Waited);
    assert!(d.is_finished());
    assert_eq!(d.steps_left(), 0);
}

#[test]
fn every_event_brings_the_end_nearer() {
    let mut seed: u64 = 42;
    for round in 0..300 {
        let mut d = if round % 3 == 0 {
            upload_file("h:22", "u", "p", "d.zip", "/opt/d")
        } else if round % 3 == 1 {
            run_jar("h:22", "u", "p", "/opt/a.jar", "java", "dev")
        } else {
            upload_and_run_jar("h:22", "u", "p", "a.jar", "/opt/a.jar", "java", "dev")
        };
        let bound = d.steps_left();
        let mut taken: u128 = 0;
        while !d.is_finished() {
            let before = d.steps_left();
            seed = seed.wrapping_mul(6364136223846793005).wrapping_add(1442695040888963407);
            // mostly the event that the phase waits for, now and then any event
            let next = if (seed >> 33) % 4 == 0 { event(seed >> 40) } else { stubborn(d.phase) };
            d.step(next);
            taken += 1;
            assert!(d.is_finished() || d.steps_left() < before);
        }
        assert!(taken <= bound);
    }
}

#[test]
fn stubborn_failures_use_the_bound_of_the_last_stage_in_full() {
    let mut d = upload_and_run_jar("h:22", "u", "p", "a.jar", "/opt/a.jar", "java", "dev");
    // bring the deployment to the stage that stops the old process
    for e in [
        Event::Begin,
        Event::LocalRead { data: vec![7; 9], size: 9 },
        Event::SessionOpened,
        Event::CommandExited { status: 0, output: "exists".to_string() },
        Event::CommandExited { status: 0, output: String::new() },
        Event::StreamReady,
        Event::StreamReady,
        Event::StreamReady,
        Event::StreamReady,
        Event::StreamReady,
        Event::StreamReady,
    ] {
        d.step(e);
    }
    assert_eq!(d.phase, Phase::Discovering);
    let bound = d.steps_left();
    assert_eq!(bound, 3 * 11 - 1 + 3);
    let mut taken: u128 = 0;
    while !d.is_finished() {
        d.step(stubborn(d.phase));
        taken += 1;
    }
    // every attempt ran to its last check; nothing was launched
    assert_eq!(taken, bound - 3);
}

#[test]
fn bound_holds_for_the_widest_plan() {
    let wide = RetryBudget::new(u32::MAX, u32::MAX);
    let plan = Plan {
        session: Some(wide),
        transfer: Some(wide),
        termination: Some(wide),
        poll: PollPolicy { max_checks: u32::MAX, settle_secs: u32::MAX, backoff_secs: u32::MAX },
        warmup_secs: u32::MAX,
    };
    let mut d = upload_and_run_jar("h:22", "u", "p", "a.jar", "/opt/a.jar", "java", "dev");
    d.plan = plan;
    let max = u32::MAX as u128;
    assert_eq!(d.steps_left(), 2 + max * 2 + max * 9 + max * (2 * max + 5) + 3);
    assert_eq!(plan.attempt_length(Stage::Termination), 2 * (u32::MAX as u64) + 4);
    let mut unchecked = plan;
    unchecked.poll.max_checks = 0;
    assert_eq!(unchecked.attempt_length(Stage::Termination), 5);
    assert_eq!(plan.stage_cost(Stage::Session), max * 2);
    assert_eq!(plan.retries_cost(Stage::Transfer, 0), (max - 1) * 9);
    assert_eq!(plan.retries_cost(Stage::Transfer, u32::MAX), 0);
}
