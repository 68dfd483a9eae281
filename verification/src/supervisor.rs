//! The supervision state machine.
//!
//! The machine decides everything the supervision loop does; the driver
//! around the library only performs the [`Action`] the current state asks
//! for and feeds the observed outcome back as an [`Event`].  One outer
//! round is launch, warmup, monitor; monitoring leaves toward a restart,
//! a graceful termination, or a fatal abort.

use vstd::prelude::*;
use crate::health::HealthState;

verus! {

/// Liveness of the supervised agent, as reported by a non-blocking poll.
/// `Exited` carries the exit code.
#[derive(Clone, Copy, Debug, PartialEq, Eq, Structural)]
pub enum LiveState {
    Alive,
    Exited(i32),
}

/// Consecutive failures tolerated before escalation, for both the
/// dead-on-arrival budget and the runtime health budget.
pub const MAX_RETRIES: u8 = 5;

/// Time units slept after a launch before the first liveness poll.
pub const GRACE_PERIOD: u64 = 5;

/// Time units slept between monitoring iterations.
pub const PROBE_INTERVAL: u64 = 2;

/// Liveness polls granted to a gracefully terminating agent, one per time
/// unit, before it is killed forcefully.
pub const TERM_WAIT_BUDGET: u8 = 10;

/// Local port on which the agent exposes its metrics endpoint.
pub const METRICS_PORT: u16 = 9981;

/// What the driver observed while performing the requested action.
#[derive(Clone, Copy, Debug, PartialEq, Eq, Structural)]
pub enum Event {
    /// A spawn was attempted; `true` when the agent process started.
    LaunchAttempted(bool),
    /// The shutdown flag was read.
    FlagRead(bool),
    /// The agent was polled for liveness.
    Polled(LiveState),
    /// The metrics endpoint was probed.
    Probed(HealthState),
    /// The requested side effect (a sleep, a signal, a kill) completed.
    Acked,
}

/// The side effect the driver must perform next.  Each action names the
/// event it reports back.
#[derive(Clone, Copy, Debug, PartialEq, Eq, Structural)]
pub enum Action {
    /// Start the agent process; report `LaunchAttempted`.
    SpawnAgent,
    /// Sleep `GRACE_PERIOD` time units, then poll liveness; report `Polled`.
    SleepGraceThenPoll,
    /// Read the shutdown flag; report `FlagRead`.
    ReadShutdownFlag,
    /// Poll the agent for liveness without blocking; report `Polled`.
    PollAgent,
    /// Probe the metrics endpoint; report `Probed`.
    ProbeHealth,
    /// Sleep `PROBE_INTERVAL` time units; report `Acked`.
    SleepInterval,
    /// Send the graceful termination signal; report `Acked`.
    SendTermSignal,
    /// Sleep one time unit, then poll liveness; report `Polled`.
    SleepUnitThenPoll,
    /// Kill the agent forcefully; report `Acked`.
    KillAgent,
    /// Terminal state: perform nothing and leave the loop.
    Stop,
}

/// States of the supervision machine.  Monitoring and termination are
/// split by the observation they are waiting for, so that every state
/// requests exactly one action.
#[derive(Clone, Copy, Debug, PartialEq, Eq, Structural)]
pub enum SupervisorState {
    /// About to spawn the agent.  `doa` counts consecutive launches that
    /// died during warmup.
    Launching { doa: u8 },
    /// Agent spawned; waiting out the grace period before the first poll.
    Warmup { doa: u8 },
    /// Monitoring, about to read the shutdown flag.  `failures` counts
    /// consecutive unhealthy probes.
    MonitorCheckingSignal { failures: u8 },
    /// Monitoring, about to poll the agent for liveness.
    MonitorPolling { failures: u8 },
    /// Monitoring, about to probe the metrics endpoint.
    MonitorProbing { failures: u8 },
    /// Monitoring, sleeping until the next iteration.
    MonitorSleeping { failures: u8 },
    /// Health budget exhausted: killing the agent before a restart.
    KillingForRestart,
    /// Agent gone; relaunch unless shutdown was requested meanwhile.
    Restarting,
    /// Shutdown requested: about to send the graceful termination signal.
    TerminateSignaling,
    /// Waiting for the terminating agent to exit; `remaining` polls left.
    TerminateWaiting { remaining: u8 },
    /// Termination deadline passed: killing the agent forcefully.
    TerminateKilling,
    /// Terminal: shutdown completed after the cooperative signal.
    ShuttingDown,
    /// Terminal: the agent could not stay alive through warmup.
    Aborted,
    /// Terminal: the agent binary could not be started at all.
    SpawnFailed,
}

/// Final outcome of a supervision run.
#[derive(Clone, Copy, Debug, PartialEq, Eq, Structural)]
pub enum RunOutcome {
    /// The run ended through the cooperative shutdown signal.
    CleanShutdown,
    /// Consecutive dead-on-arrival launches exhausted the retry budget.
    LaunchRetriesExhausted,
    /// The agent process could not be spawned.
    SpawnError,
}

/// The transition relation of the machine.  An event that the state is
/// not waiting for leaves the state unchanged; the driver never produces
/// one, since it always performs the requested action.
pub open spec fn spec_step(s: SupervisorState, e: Event) -> SupervisorState {
    match (s, e) {
        (SupervisorState::Launching { doa }, Event::LaunchAttempted(ok)) => {
            if ok {
                SupervisorState::Warmup { doa }
            } else {
                SupervisorState::SpawnFailed
            }
        },
        (SupervisorState::Warmup { doa }, Event::Polled(l)) => {
            match l {
                LiveState::Alive => SupervisorState::MonitorCheckingSignal { failures: 0 },
                LiveState::Exited(_) => {
                    if doa < MAX_RETRIES {
                        SupervisorState::Launching { doa: (doa + 1) as u8 }
                    } else {
                        SupervisorState::Aborted
                    }
                },
            }
        },
        (SupervisorState::MonitorCheckingSignal { failures }, Event::FlagRead(raised)) => {
            if raised {
                SupervisorState::TerminateSignaling
            } else {
                SupervisorState::MonitorPolling { failures }
            }
        },
        (SupervisorState::MonitorPolling { failures }, Event::Polled(l)) => {
            match l {
                LiveState::Alive => SupervisorState::MonitorProbing { failures },
                LiveState::Exited(_) => SupervisorState::Restarting,
            }
        },
        (SupervisorState::MonitorProbing { failures }, Event::Probed(h)) => {
            match h {
                HealthState::Healthy => SupervisorState::MonitorSleeping { failures: 0 },
                HealthState::Unhealthy(_) => {
                    if failures < MAX_RETRIES {
                        SupervisorState::MonitorSleeping { failures: (failures + 1) as u8 }
                    } else {
                        SupervisorState::KillingForRestart
                    }
                },
            }
        },
        (SupervisorState::MonitorSleeping { failures }, Event::Acked) => {
            SupervisorState::MonitorCheckingSignal { failures }
        },
        (SupervisorState::KillingForRestart, Event::Acked) => SupervisorState::Restarting,
        (SupervisorState::Restarting, Event::FlagRead(raised)) => {
            if raised {
                SupervisorState::ShuttingDown
            } else {
                SupervisorState::Launching { doa: 0 }
            }
        },
        (SupervisorState::TerminateSignaling, Event::Acked) => {
            SupervisorState::TerminateWaiting { remaining: TERM_WAIT_BUDGET }
        },
        (SupervisorState::TerminateWaiting { remaining }, Event::Polled(l)) => {
            match l {
                LiveState::Exited(_) => SupervisorState::ShuttingDown,
                LiveState::Alive => {
                    if remaining > 1 {
                        SupervisorState::TerminateWaiting { remaining: (remaining - 1) as u8 }
                    } else {
                        SupervisorState::TerminateKilling
                    }
                },
            }
        },
        (SupervisorState::TerminateKilling, Event::Acked) => SupervisorState::ShuttingDown,
        _ => s,
    }
}

/// The action each state requests of the driver.
pub open spec fn spec_action(s: SupervisorState) -> Action {
    match s {
        SupervisorState::Launching { .. } => Action::SpawnAgent,
        SupervisorState::Warmup { .. } => Action::SleepGraceThenPoll,
        SupervisorState::MonitorCheckingSignal { .. } => Action::ReadShutdownFlag,
        SupervisorState::MonitorPolling { .. } => Action::PollAgent,
        SupervisorState::MonitorProbing { .. } => Action::ProbeHealth,
        SupervisorState::MonitorSleeping { .. } => Action::SleepInterval,
        SupervisorState::KillingForRestart => Action::KillAgent,
        SupervisorState::Restarting => Action::ReadShutdownFlag,
        SupervisorState::TerminateSignaling => Action::SendTermSignal,
        SupervisorState::TerminateWaiting { .. } => Action::SleepUnitThenPoll,
        SupervisorState::TerminateKilling => Action::KillAgent,
        SupervisorState::ShuttingDown => Action::Stop,
        SupervisorState::Aborted => Action::Stop,
        SupervisorState::SpawnFailed => Action::Stop,
    }
}

/// Whether the machine is in one of the monitoring phases.
pub open spec fn is_monitoring(s: SupervisorState) -> bool {
    ||| s is MonitorCheckingSignal
    ||| s is MonitorPolling
    ||| s is MonitorProbing
    ||| s is MonitorSleeping
}

/// Terminal outcome of a state, if it is terminal.
pub open spec fn spec_outcome(s: SupervisorState) -> Option<RunOutcome> {
    match s {
        SupervisorState::ShuttingDown => Some(RunOutcome::CleanShutdown),
        SupervisorState::Aborted => Some(RunOutcome::LaunchRetriesExhausted),
        SupervisorState::SpawnFailed => Some(RunOutcome::SpawnError),
        _ => None,
    }
}

/// Every reachable state keeps its counters inside their budgets.
pub open spec fn state_inv(s: SupervisorState) -> bool {
    match s {
        SupervisorState::Launching { doa } => doa <= MAX_RETRIES,
        SupervisorState::Warmup { doa } => doa <= MAX_RETRIES,
        SupervisorState::MonitorCheckingSignal { failures } => failures <= MAX_RETRIES,
        SupervisorState::MonitorPolling { failures } => failures <= MAX_RETRIES,
        SupervisorState::MonitorProbing { failures } => failures <= MAX_RETRIES,
        SupervisorState::MonitorSleeping { failures } => failures <= MAX_RETRIES,
        SupervisorState::TerminateWaiting { remaining } => 1 <= remaining <= TERM_WAIT_BUDGET,
        _ => true,
    }
}

/// The state a fresh supervision run starts in.
pub fn initial_state() -> (s: SupervisorState)
    ensures
        s == (SupervisorState::Launching { doa: 0u8 }),
        state_inv(s),
{
    SupervisorState::Launching { doa: 0 }
}

/// Advance the machine by one observed event.
pub fn step(s: SupervisorState, e: Event) -> (next: SupervisorState)
    ensures
        next == spec_step(s, e),
{
    match (s, e) {
        (SupervisorState::Launching { doa }, Event::LaunchAttempted(ok)) => {
            if ok {
                SupervisorState::Warmup { doa }
            } else {
                SupervisorState::SpawnFailed
            }
        },
        (SupervisorState::Warmup { doa }, Event::Polled(l)) => {
            match l {
                LiveState::Alive => SupervisorState::MonitorCheckingSignal { failures: 0 },
                LiveState::Exited(_) => {
                    if doa < MAX_RETRIES {
                        SupervisorState::Launching { doa: doa + 1 }
                    } else {
                        SupervisorState::Aborted
                    }
                },
            }
        },
        (SupervisorState::MonitorCheckingSignal { failures }, Event::FlagRead(raised)) => {
            if raised {
                SupervisorState::TerminateSignaling
            } else {
                SupervisorState::MonitorPolling { failures }
            }
        },
        (SupervisorState::MonitorPolling { failures }, Event::Polled(l)) => {
            match l {
                LiveState::Alive => SupervisorState::MonitorProbing { failures },
                LiveState::Exited(_) => SupervisorState::Restarting,
            }
        },
        (SupervisorState::MonitorProbing { failures }, Event::Probed(h)) => {
            match h {
                HealthState::Healthy => SupervisorState::MonitorSleeping { failures: 0 },
                HealthState::Unhealthy(_) => {
                    if failures < MAX_RETRIES {
                        SupervisorState::MonitorSleeping { failures: failures + 1 }
                    } else {
                        SupervisorState::KillingForRestart
                    }
                },
            }
        },
        (SupervisorState::MonitorSleeping { failures }, Event::Acked) => {
            SupervisorState::MonitorCheckingSignal { failures }
        },
        (SupervisorState::KillingForRestart, Event::Acked) => SupervisorState::Restarting,
        (SupervisorState::Restarting, Event::FlagRead(raised)) => {
            if raised {
                SupervisorState::ShuttingDown
            } else {
                SupervisorState::Launching { doa: 0 }
            }
        },
        (SupervisorState::TerminateSignaling, Event::Acked) => {
            SupervisorState::TerminateWaiting { remaining: TERM_WAIT_BUDGET }
        },
        (SupervisorState::TerminateWaiting { remaining }, Event::Polled(l)) => {
            match l {
                LiveState::Exited(_) => SupervisorState::ShuttingDown,
                LiveState::Alive => {
                    if remaining > 1 {
                        SupervisorState::TerminateWaiting { remaining: remaining - 1 }
                    } else {
                        SupervisorState::TerminateKilling
                    }
                },
            }
        },
        (SupervisorState::TerminateKilling, Event::Acked) => SupervisorState::ShuttingDown,
        (other, _) => other,
    }
}

/// The action the driver must perform in state `s`.
pub fn action_of(s: SupervisorState) -> (a: Action)
    ensures
        a == spec_action(s),
{
    match s {
        SupervisorState::Launching { .. } => Action::SpawnAgent,
        SupervisorState::Warmup { .. } => Action::SleepGraceThenPoll,
        SupervisorState::MonitorCheckingSignal { .. } => Action::ReadShutdownFlag,
        SupervisorState::MonitorPolling { .. } => Action::PollAgent,
        SupervisorState::MonitorProbing { .. } => Action::ProbeHealth,
        SupervisorState::MonitorSleeping { .. } => Action::SleepInterval,
        SupervisorState::KillingForRestart => Action::KillAgent,
        SupervisorState::Restarting => Action::ReadShutdownFlag,
        SupervisorState::TerminateSignaling => Action::SendTermSignal,
        SupervisorState::TerminateWaiting { .. } => Action::SleepUnitThenPoll,
        SupervisorState::TerminateKilling => Action::KillAgent,
        SupervisorState::ShuttingDown => Action::Stop,
        SupervisorState::Aborted => Action::Stop,
        SupervisorState::SpawnFailed => Action::Stop,
    }
}

/// Terminal outcome of the run, once the machine has stopped.
pub fn outcome_of(s: SupervisorState) -> (r: Option<RunOutcome>)
    ensures
        r == spec_outcome(s),
{
    match s {
        SupervisorState::ShuttingDown => Some(RunOutcome::CleanShutdown),
        SupervisorState::Aborted => Some(RunOutcome::LaunchRetriesExhausted),
        SupervisorState::SpawnFailed => Some(RunOutcome::SpawnError),
        _ => None,
    }
}

/// One step keeps the counters inside their budgets.
pub proof fn lemma_step_preserves_inv(s: SupervisorState, e: Event)
    requires
        state_inv(s),
    ensures
        state_inv(spec_step(s, e)),
{
}

/// The state after feeding the events of `evs`, in order.
pub open spec fn run_from(s: SupervisorState, evs: Seq<Event>) -> SupervisorState
    decreases evs.len(),
{
    if evs.len() == 0 {
        s
    } else {
        run_from(spec_step(s, evs[0]), evs.drop_first())
    }
}

/// The states visited while feeding `evs`: one per event, in order.
pub open spec fn trace_from(s: SupervisorState, evs: Seq<Event>) -> Seq<SupervisorState>
    decreases evs.len(),
{
    if evs.len() == 0 {
        Seq::empty()
    } else {
        seq![spec_step(s, evs[0])] + trace_from(spec_step(s, evs[0]), evs.drop_first())
    }
}

/// No state of the trace asks the driver for a forceful kill.
pub open spec fn no_kill(tr: Seq<SupervisorState>) -> bool {
    forall|i: int| 0 <= i < tr.len() ==> spec_action(tr[i]) != Action::KillAgent
}

/// No state of the trace is a monitoring phase.
pub open spec fn never_monitoring(tr: Seq<SupervisorState>) -> bool {
    forall|i: int| 0 <= i < tr.len() ==> !is_monitoring(tr[i])
}

/// Feeding `a + b` is feeding `a`, then feeding `b` from where that led.
pub proof fn lemma_run_from_concat(s: SupervisorState, a: Seq<Event>, b: Seq<Event>)
    ensures
        run_from(s, a + b) == run_from(run_from(s, a), b),
        trace_from(s, a + b) == trace_from(s, a) + trace_from(run_from(s, a), b),
    decreases a.len(),
{
    if a.len() == 0 {
        assert(a + b =~= b);
        assert(trace_from(s, a) + trace_from(run_from(s, a), b) =~= trace_from(s, b));
    } else {
        assert((a + b)[0] == a[0]);
        assert((a + b).drop_first() =~= a.drop_first() + b);
        lemma_run_from_concat(spec_step(s, a[0]), a.drop_first(), b);
        assert(trace_from(s, a + b) =~= trace_from(s, a) + trace_from(run_from(s, a), b));
    }
}

/// The trace has one state per event, and ends where the run ends.
pub proof fn lemma_trace_from_len(s: SupervisorState, evs: Seq<Event>)
    ensures
        trace_from(s, evs).len() == evs.len(),
        evs.len() > 0 ==> trace_from(s, evs).last() == run_from(s, evs),
    decreases evs.len(),
{
    if evs.len() > 0 {
        lemma_trace_from_len(spec_step(s, evs[0]), evs.drop_first());
    }
}

/// Feeding four events, unfolded.
proof fn lemma_run4(s: SupervisorState, e0: Event, e1: Event, e2: Event, e3: Event)
    ensures
        run_from(s, seq![e0, e1, e2, e3]) == spec_step(
            spec_step(spec_step(spec_step(s, e0), e1), e2),
            e3,
        ),
        trace_from(s, seq![e0, e1, e2, e3]) == seq![
            spec_step(s, e0),
            spec_step(spec_step(s, e0), e1),
            spec_step(spec_step(spec_step(s, e0), e1), e2),
            spec_step(spec_step(spec_step(spec_step(s, e0), e1), e2), e3),
        ],
{
    reveal_with_fuel(run_from, 5);
    reveal_with_fuel(trace_from, 5);
    let evs = seq![e0, e1, e2, e3];
    assert(evs.drop_first() =~= seq![e1, e2, e3]);
    assert(seq![e1, e2, e3].drop_first() =~= seq![e2, e3]);
    assert(seq![e2, e3].drop_first() =~= seq![e3]);
    assert(seq![e3].drop_first() =~= Seq::<Event>::empty());
    assert(trace_from(s, evs) =~= seq![
        spec_step(s, e0),
        spec_step(spec_step(s, e0), e1),
        spec_step(spec_step(spec_step(s, e0), e1), e2),
        spec_step(spec_step(spec_step(spec_step(s, e0), e1), e2), e3),
    ]);
}

/// Feeding two events, unfolded.
proof fn lemma_run2(s: SupervisorState, e0: Event, e1: Event)
    ensures
        run_from(s, seq![e0, e1]) == spec_step(spec_step(s, e0), e1),
        trace_from(s, seq![e0, e1]) == seq![spec_step(s, e0), spec_step(spec_step(s, e0), e1)],
{
    reveal_with_fuel(run_from, 3);
    reveal_with_fuel(trace_from, 3);
    let evs = seq![e0, e1];
    assert(evs.drop_first() =~= seq![e1]);
    assert(seq![e1].drop_first() =~= Seq::<Event>::empty());
    assert(trace_from(s, evs) =~= seq![spec_step(s, e0), spec_step(spec_step(s, e0), e1)]);
}

/// One monitoring iteration in which the agent is alive but its probe
/// comes back unhealthy: flag read, liveness poll, probe, sleep.
pub open spec fn monitor_cycle(st: u16) -> Seq<Event> {
    seq![
        Event::FlagRead(false),
        Event::Polled(LiveState::Alive),
        Event::Probed(HealthState::Unhealthy(st)),
        Event::Acked,
    ]
}

/// Consecutive unhealthy monitoring iterations, one per listed status.
pub open spec fn unhealthy_run(sts: Seq<u16>) -> Seq<Event>
    decreases sts.len(),
{
    if sts.len() == 0 {
        Seq::empty()
    } else {
        monitor_cycle(sts[0]) + unhealthy_run(sts.drop_first())
    }
}

/// `unhealthy_run` distributes over concatenation.
proof fn lemma_unhealthy_run_app(a: Seq<u16>, b: Seq<u16>)
    ensures
        unhealthy_run(a + b) == unhealthy_run(a) + unhealthy_run(b),
    decreases a.len(),
{
    if a.len() == 0 {
        assert(a + b =~= b);
        assert(unhealthy_run(a) + unhealthy_run(b) =~= unhealthy_run(b));
    } else {
        assert((a + b)[0] == a[0]);
        assert((a + b).drop_first() =~= a.drop_first() + b);
        lemma_unhealthy_run_app(a.drop_first(), b);
        assert(monitor_cycle(a[0]) + (unhealthy_run(a.drop_first()) + unhealthy_run(b)) =~= (
        monitor_cycle(a[0]) + unhealthy_run(a.drop_first())) + unhealthy_run(b));
    }
}

/// An unhealthy run holds four events per iteration.
proof fn lemma_unhealthy_run_len(sts: Seq<u16>)
    ensures
        unhealthy_run(sts).len() == 4 * sts.len(),
    decreases sts.len(),
{
    if sts.len() > 0 {
        lemma_unhealthy_run_len(sts.drop_first());
    }
}

/// One unhealthy iteration inside the budget: the failure counter grows
/// by one, the agent stays alive, and no kill is requested.
proof fn lemma_unhealthy_cycle_tolerated(f: u8, st: u16)
    requires
        f < MAX_RETRIES,
    ensures
        run_from((SupervisorState::MonitorCheckingSignal { failures: f }), monitor_cycle(st)) == (
        SupervisorState::MonitorCheckingSignal { failures: (f + 1) as u8 }),
        no_kill(
            trace_from((SupervisorState::MonitorCheckingSignal { failures: f }), monitor_cycle(st)),
        ),
{
    let s0 = SupervisorState::MonitorCheckingSignal { failures: f };
    lemma_run4(
        s0,
        Event::FlagRead(false),
        Event::Polled(LiveState::Alive),
        Event::Probed(HealthState::Unhealthy(st)),
        Event::Acked,
    );
}

/// Up to `MAX_RETRIES` consecutive unhealthy probes are tolerated: the
/// run stays in monitoring, the counter only grows, and the agent is
/// never killed along the way.
pub proof fn lemma_health_failures_tolerated(f: u8, sts: Seq<u16>)
    requires
        f + sts.len() <= MAX_RETRIES,
    ensures
        run_from((SupervisorState::MonitorCheckingSignal { failures: f }), unhealthy_run(sts)) == (
        SupervisorState::MonitorCheckingSignal { failures: (f + sts.len()) as u8 }),
        no_kill(
            trace_from((SupervisorState::MonitorCheckingSignal { failures: f }), unhealthy_run(sts)),
        ),
    decreases sts.len(),
{
    let s0 = SupervisorState::MonitorCheckingSignal { failures: f };
    if sts.len() > 0 {
        let c = monitor_cycle(sts[0]);
        let rest = unhealthy_run(sts.drop_first());
        lemma_unhealthy_cycle_tolerated(f, sts[0]);
        lemma_run_from_concat(s0, c, rest);
        lemma_health_failures_tolerated((f + 1) as u8, sts.drop_first());
    }
}

/// The sixth consecutive unhealthy probe kills the agent and triggers a
/// restart: the run from a fresh monitoring session through six
/// unhealthy iterations passes through exactly one kill request, right
/// after the sixth probe, and ends headed for a relaunch.
pub proof fn lemma_sixth_unhealthy_kills(sts: Seq<u16>)
    requires
        sts.len() == MAX_RETRIES + 1,
    ensures
        run_from((SupervisorState::MonitorCheckingSignal { failures: 0 }), unhealthy_run(sts))
            == SupervisorState::Restarting,
        trace_from((SupervisorState::MonitorCheckingSignal { failures: 0 }), unhealthy_run(sts)).len()
            == 24,
        trace_from((SupervisorState::MonitorCheckingSignal { failures: 0 }), unhealthy_run(sts))[22]
            == SupervisorState::KillingForRestart,
        no_kill(
            trace_from(
                (SupervisorState::MonitorCheckingSignal { failures: 0 }),
                unhealthy_run(sts),
            ).take(22),
        ),
{
    reveal_with_fuel(unhealthy_run, 3);
    let s0 = SupervisorState::MonitorCheckingSignal { failures: 0 };
    let head = sts.take(MAX_RETRIES as int);
    let last = sts.skip(MAX_RETRIES as int);
    assert(sts =~= head + last);
    lemma_unhealthy_run_app(head, last);
    lemma_health_failures_tolerated(0, head);
    lemma_unhealthy_run_len(head);
    lemma_unhealthy_run_len(last);
    let s5 = SupervisorState::MonitorCheckingSignal { failures: MAX_RETRIES };
    assert(last[0] == sts[MAX_RETRIES as int]);
    assert(last.drop_first() =~= Seq::<u16>::empty());
    assert(unhealthy_run(last) =~= monitor_cycle(sts[MAX_RETRIES as int]));
    lemma_run4(
        s5,
        Event::FlagRead(false),
        Event::Polled(LiveState::Alive),
        Event::Probed(HealthState::Unhealthy(sts[MAX_RETRIES as int])),
        Event::Acked,
    );
    lemma_run_from_concat(s0, unhealthy_run(head), unhealthy_run(last));
    lemma_trace_from_len(s0, unhealthy_run(head));
    let tr = trace_from(s0, unhealthy_run(sts));
    assert(tr[22] == trace_from(s5, unhealthy_run(last))[2]);
    assert forall|i: int| 0 <= i < 22 implies spec_action(tr.take(22)[i]) != Action::KillAgent by {
        if i < 20 {
            assert(tr[i] == trace_from(s0, unhealthy_run(head))[i]);
        } else {
            assert(tr[i] == trace_from(s5, unhealthy_run(last))[i - 20]);
        }
    }
}

/// A whole run from a state inside the budgets stays inside the budgets.
pub proof fn lemma_run_preserves_inv(s: SupervisorState, evs: Seq<Event>)
    requires
        state_inv(s),
    ensures
        state_inv(run_from(s, evs)),
    decreases evs.len(),
{
    if evs.len() > 0 {
        lemma_step_preserves_inv(s, evs[0]);
        lemma_run_preserves_inv(spec_step(s, evs[0]), evs.drop_first());
    }
}

/// A launch that survives warmup enters monitoring with a fresh failure
/// counter, whatever the dead-on-arrival count had grown to.
pub proof fn lemma_warmup_survivor_fresh_monitor(d: u8)
    ensures
        spec_step((SupervisorState::Warmup { doa: d }), Event::Polled(LiveState::Alive)) == (
        SupervisorState::MonitorCheckingSignal { failures: 0 }),
{
}

/// A single healthy probe resets the consecutive-failure count to zero,
/// whatever it was before.
pub proof fn lemma_healthy_probe_resets(f: u8)
    ensures
        spec_step(
            (SupervisorState::MonitorProbing { failures: f }),
            Event::Probed(HealthState::Healthy),
        ) == (SupervisorState::MonitorSleeping { failures: 0 }),
{
}

/// An agent that exits on its own during monitoring sends the machine to
/// `Restarting` in one step, for any exit code and any failure count.
/// The relaunch that follows starts with a dead-on-arrival count of
/// zero, so the exit is not held against the launch budget.
pub proof fn lemma_monitor_exit_restarts(f: u8, code: i32)
    ensures
        spec_step(
            (SupervisorState::MonitorPolling { failures: f }),
            Event::Polled(LiveState::Exited(code)),
        ) == SupervisorState::Restarting,
        spec_step(SupervisorState::Restarting, Event::FlagRead(false)) == (
        SupervisorState::Launching { doa: 0 }),
{
}

/// One launch attempt that dies during warmup: the spawn succeeds, the
/// warmup poll finds the process already exited.
pub open spec fn doa_cycle(code: i32) -> Seq<Event> {
    seq![Event::LaunchAttempted(true), Event::Polled(LiveState::Exited(code))]
}

/// Consecutive dead-on-arrival launch attempts, one per listed exit code.
pub open spec fn doa_run(codes: Seq<i32>) -> Seq<Event>
    decreases codes.len(),
{
    if codes.len() == 0 {
        Seq::empty()
    } else {
        doa_cycle(codes[0]) + doa_run(codes.drop_first())
    }
}

/// `doa_run` distributes over concatenation.
proof fn lemma_doa_run_app(a: Seq<i32>, b: Seq<i32>)
    ensures
        doa_run(a + b) == doa_run(a) + doa_run(b),
    decreases a.len(),
{
    if a.len() == 0 {
        assert(a + b =~= b);
        assert(doa_run(a) + doa_run(b) =~= doa_run(b));
    } else {
        assert((a + b)[0] == a[0]);
        assert((a + b).drop_first() =~= a.drop_first() + b);
        lemma_doa_run_app(a.drop_first(), b);
        assert(doa_cycle(a[0]) + (doa_run(a.drop_first()) + doa_run(b)) =~= (doa_cycle(a[0])
            + doa_run(a.drop_first())) + doa_run(b));
    }
}

/// A dead-on-arrival run holds two events per attempt.
proof fn lemma_doa_run_len(codes: Seq<i32>)
    ensures
        doa_run(codes).len() == 2 * codes.len(),
    decreases codes.len(),
{
    if codes.len() > 0 {
        lemma_doa_run_len(codes.drop_first());
    }
}

/// Dead-on-arrival launches inside the budget only raise the counter and
/// relaunch at once; monitoring is never entered.
pub proof fn lemma_warmup_deaths_tolerated(d: u8, codes: Seq<i32>)
    requires
        d + codes.len() <= MAX_RETRIES,
    ensures
        run_from((SupervisorState::Launching { doa: d }), doa_run(codes)) == (
        SupervisorState::Launching { doa: (d + codes.len()) as u8 }),
        never_monitoring(trace_from((SupervisorState::Launching { doa: d }), doa_run(codes))),
    decreases codes.len(),
{
    let s0 = SupervisorState::Launching { doa: d };
    if codes.len() > 0 {
        lemma_run2(s0, Event::LaunchAttempted(true), Event::Polled(LiveState::Exited(codes[0])));
        lemma_run_from_concat(s0, doa_cycle(codes[0]), doa_run(codes.drop_first()));
        lemma_warmup_deaths_tolerated((d + 1) as u8, codes.drop_first());
    }
}

/// The sixth consecutive launch that dies during warmup aborts the whole
/// run, and monitoring is never entered along the way.
pub proof fn lemma_sixth_warmup_death_aborts(codes: Seq<i32>)
    requires
        codes.len() == MAX_RETRIES + 1,
    ensures
        run_from((SupervisorState::Launching { doa: 0 }), doa_run(codes))
            == SupervisorState::Aborted,
        never_monitoring(trace_from((SupervisorState::Launching { doa: 0 }), doa_run(codes))),
{
    reveal_with_fuel(doa_run, 3);
    let s0 = SupervisorState::Launching { doa: 0 };
    let head = codes.take(MAX_RETRIES as int);
    let last = codes.skip(MAX_RETRIES as int);
    assert(codes =~= head + last);
    lemma_doa_run_app(head, last);
    lemma_warmup_deaths_tolerated(0, head);
    lemma_doa_run_len(head);
    let s5 = SupervisorState::Launching { doa: MAX_RETRIES };
    assert(last[0] == codes[MAX_RETRIES as int]);
    assert(last.drop_first() =~= Seq::<i32>::empty());
    assert(doa_run(last) =~= doa_cycle(codes[MAX_RETRIES as int]));
    lemma_run2(s5, Event::LaunchAttempted(true), Event::Polled(
        LiveState::Exited(codes[MAX_RETRIES as int]),
    ));
    lemma_run_from_concat(s0, doa_run(head), doa_run(last));
    lemma_trace_from_len(s0, doa_run(head));
    let tr = trace_from(s0, doa_run(codes));
    assert forall|i: int| 0 <= i < tr.len() implies !is_monitoring(tr[i]) by {
        if i < 10 {
            assert(tr[i] == trace_from(s0, doa_run(head))[i]);
        } else {
            assert(tr[i] == trace_from(s5, doa_run(last))[i - 10]);
        }
    }
}

/// Consecutive liveness polls that find the agent still alive.
pub open spec fn alive_polls(n: nat) -> Seq<Event>
    decreases n,
{
    if n == 0 {
        Seq::empty()
    } else {
        seq![Event::Polled(LiveState::Alive)] + alive_polls((n - 1) as nat)
    }
}

/// A shutdown flag observed during monitoring leads to the graceful
/// signal first: the next state asks for the termination signal, not a
/// kill, and the wait over the full budget begins.
pub proof fn lemma_shutdown_graceful_first(f: u8)
    ensures
        spec_step((SupervisorState::MonitorCheckingSignal { failures: f }), Event::FlagRead(true))
            == SupervisorState::TerminateSignaling,
        spec_action(SupervisorState::TerminateSignaling) == Action::SendTermSignal,
        spec_step(SupervisorState::TerminateSignaling, Event::Acked) == (
        SupervisorState::TerminateWaiting { remaining: TERM_WAIT_BUDGET }),
{
}

/// An agent that exits within the wait budget after the graceful signal
/// is never killed forcefully: the run reaches shutdown with no kill
/// request anywhere in its trace.
pub proof fn lemma_graceful_exit_no_kill(r: u8, k: nat, code: i32)
    requires
        1 <= r <= TERM_WAIT_BUDGET,
        k < r,
    ensures
        run_from(
            (SupervisorState::TerminateWaiting { remaining: r }),
            alive_polls(k) + seq![Event::Polled(LiveState::Exited(code))],
        ) == SupervisorState::ShuttingDown,
        no_kill(
            trace_from(
                (SupervisorState::TerminateWaiting { remaining: r }),
                alive_polls(k) + seq![Event::Polled(LiveState::Exited(code))],
            ),
        ),
    decreases k,
{
    reveal_with_fuel(run_from, 2);
    reveal_with_fuel(trace_from, 2);
    let s0 = SupervisorState::TerminateWaiting { remaining: r };
    let evs = alive_polls(k) + seq![Event::Polled(LiveState::Exited(code))];
    if k == 0 {
        assert(evs =~= seq![Event::Polled(LiveState::Exited(code))]);
        assert(evs.drop_first() =~= Seq::<Event>::empty());
    } else {
        let s1 = SupervisorState::TerminateWaiting { remaining: (r - 1) as u8 };
        assert(evs[0] == Event::Polled(LiveState::Alive));
        assert(evs.drop_first() =~= alive_polls((k - 1) as nat) + seq![
            Event::Polled(LiveState::Exited(code)),
        ]);
        lemma_graceful_exit_no_kill((r - 1) as u8, (k - 1) as nat, code);
    }
}

/// An agent still alive after the full budget of wait polls is killed
/// forcefully, and the run then shuts down.
pub proof fn lemma_graceful_timeout_kills(r: u8)
    requires
        1 <= r <= TERM_WAIT_BUDGET,
    ensures
        run_from((SupervisorState::TerminateWaiting { remaining: r }), alive_polls(r as nat))
            == SupervisorState::TerminateKilling,
        spec_action(SupervisorState::TerminateKilling) == Action::KillAgent,
        spec_step(SupervisorState::TerminateKilling, Event::Acked)
            == SupervisorState::ShuttingDown,
    decreases r,
{
    reveal_with_fuel(run_from, 2);
    let s0 = SupervisorState::TerminateWaiting { remaining: r };
    let evs = alive_polls(r as nat);
    assert(evs[0] == Event::Polled(LiveState::Alive));
    assert(evs.drop_first() =~= alive_polls((r - 1) as nat));
    if r == 1 {
        assert(alive_polls(0) =~= Seq::<Event>::empty());
    } else {
        lemma_graceful_timeout_kills((r - 1) as u8);
    }
}

} // verus!
