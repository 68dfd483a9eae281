use tunnel_sidecar::health::HealthState;
use tunnel_sidecar::supervisor::{
    action_of, initial_state, outcome_of, step, Action, Event, LiveState, RunOutcome,
    SupervisorState,
};

fn monitor_start() -> SupervisorState {
    SupervisorState::MonitorCheckingSignal { failures: 0 }
}

/// Feed one full monitoring iteration that observes an unhealthy probe.
fn unhealthy_iteration(s: SupervisorState, status: u16) -> Vec<SupervisorState> {
    let mut states = Vec::new();
    let mut cur = s;
    for e in [
        Event::FlagRead(false),
        Event::Polled(LiveState::Alive),
        Event::Probed(HealthState::Unhealthy(status)),
        Event::Acked,
    ] {
        cur = step(cur, e);
        states.push(cur);
    }
    states
}

#[test]
fn five_unhealthy_probes_never_kill() {
    let mut cur = monitor_start();
    for n in 1..=5u8 {
        for s in unhealthy_iteration(cur, 500) {
            assert_ne!(action_of(s), Action::KillAgent);
            cur = s;
        }
        assert_eq!(cur, SupervisorState::MonitorCheckingSignal { failures: n });
    }
}

#[test]
fn sixth_unhealthy_probe_kills_and_restarts() {
    let mut cur = monitor_start();
    for _ in 0..5 {
        for s in unhealthy_iteration(cur, 503) {
            cur = s;
        }
    }
    assert_eq!(cur, SupervisorState::MonitorCheckingSignal { failures: 5 });
    cur = step(cur, Event::FlagRead(false));
    cur = step(cur, Event::Polled(LiveState::Alive));
    cur = step(cur, Event::Probed(HealthState::Unhealthy(503)));
    assert_eq!(cur, SupervisorState::KillingForRestart);
    assert_eq!(action_of(cur), Action::KillAgent);
    cur = step(cur, Event::Acked);
    assert_eq!(cur, SupervisorState::Restarting);
}

#[test]
fn healthy_probe_resets_counter() {
    let s = SupervisorState::MonitorProbing { failures: 5 };
    assert_eq!(
        step(s, Event::Probed(HealthState::Healthy)),
        SupervisorState::MonitorSleeping { failures: 0 }
    );
    let s = SupervisorState::MonitorProbing { failures: 1 };
    assert_eq!(
        step(s, Event::Probed(HealthState::Healthy)),
        SupervisorState::MonitorSleeping { failures: 0 }
    );
}

#[test]
fn exit_during_monitoring_restarts_without_counting() {
    for code in [0, 1, -9] {
        let s = SupervisorState::MonitorPolling { failures: 3 };
        let next = step(s, Event::Polled(LiveState::Exited(code)));
        assert_eq!(next, SupervisorState::Restarting);
        let relaunched = step(next, Event::FlagRead(false));
        assert_eq!(relaunched, SupervisorState::Launching { doa: 0 });
    }
}

#[test]
fn six_warmup_deaths_abort_without_monitoring() {
    let mut cur = initial_state();
    for _ in 0..6 {
        cur = step(cur, Event::LaunchAttempted(true));
        assert!(!matches!(
            cur,
            SupervisorState::MonitorCheckingSignal { .. }
                | SupervisorState::MonitorPolling { .. }
                | SupervisorState::MonitorProbing { .. }
                | SupervisorState::MonitorSleeping { .. }
        ));
        cur = step(cur, Event::Polled(LiveState::Exited(1)));
        assert!(!matches!(
            cur,
            SupervisorState::MonitorCheckingSignal { .. }
                | SupervisorState::MonitorPolling { .. }
                | SupervisorState::MonitorProbing { .. }
                | SupervisorState::MonitorSleeping { .. }
        ));
    }
    assert_eq!(cur, SupervisorState::Aborted);
    assert_eq!(outcome_of(cur), Some(RunOutcome::LaunchRetriesExhausted));
}

#[test]
fn five_warmup_deaths_still_relaunch() {
    let mut cur = initial_state();
    for n in 1..=5u8 {
        cur = step(cur, Event::LaunchAttempted(true));
        cur = step(cur, Event::Polled(LiveState::Exited(2)));
        assert_eq!(cur, SupervisorState::Launching { doa: n });
    }
}

#[test]
fn warmup_survivor_enters_monitoring_fresh() {
    let mut cur = SupervisorState::Launching { doa: 4 };
    cur = step(cur, Event::LaunchAttempted(true));
    assert_eq!(cur, SupervisorState::Warmup { doa: 4 });
    cur = step(cur, Event::Polled(LiveState::Alive));
    assert_eq!(cur, SupervisorState::MonitorCheckingSignal { failures: 0 });
}

#[test]
fn shutdown_signal_terminates_gracefully_first() {
    let s = SupervisorState::MonitorCheckingSignal { failures: 2 };
    let signaling = step(s, Event::FlagRead(true));
    assert_eq!(signaling, SupervisorState::TerminateSignaling);
    assert_eq!(action_of(signaling), Action::SendTermSignal);
    let waiting = step(signaling, Event::Acked);
    assert_eq!(waiting, SupervisorState::TerminateWaiting { remaining: 10 });
}

#[test]
fn exit_within_wait_budget_avoids_kill() {
    let mut cur = step(SupervisorState::TerminateSignaling, Event::Acked);
    for _ in 0..9 {
        cur = step(cur, Event::Polled(LiveState::Alive));
        assert_ne!(action_of(cur), Action::KillAgent);
    }
    cur = step(cur, Event::Polled(LiveState::Exited(0)));
    assert_eq!(cur, SupervisorState::ShuttingDown);
    assert_eq!(outcome_of(cur), Some(RunOutcome::CleanShutdown));
}

#[test]
fn alive_past_wait_budget_is_killed() {
    let mut cur = step(SupervisorState::TerminateSignaling, Event::Acked);
    for _ in 0..10 {
        cur = step(cur, Event::Polled(LiveState::Alive));
    }
    assert_eq!(cur, SupervisorState::TerminateKilling);
    assert_eq!(action_of(cur), Action::KillAgent);
    cur = step(cur, Event::Acked);
    assert_eq!(cur, SupervisorState::ShuttingDown);
}

#[test]
fn spawn_failure_is_fatal() {
    let cur = step(initial_state(), Event::LaunchAttempted(false));
    assert_eq!(cur, SupervisorState::SpawnFailed);
    assert_eq!(action_of(cur), Action::Stop);
    assert_eq!(outcome_of(cur), Some(RunOutcome::SpawnError));
}

#[test]
fn restart_honours_shutdown_flag() {
    assert_eq!(
        step(SupervisorState::Restarting, Event::FlagRead(true)),
        SupervisorState::ShuttingDown
    );
    assert_eq!(
        step(SupervisorState::Restarting, Event::FlagRead(false)),
        SupervisorState::Launching { doa: 0 }
    );
}

#[test]
fn initial_state_is_fresh_launch() {
    assert_eq!(initial_state(), SupervisorState::Launching { doa: 0 });
    assert_eq!(action_of(initial_state()), Action::SpawnAgent);
    assert_eq!(outcome_of(initial_state()), None);
}
