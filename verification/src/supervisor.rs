//! The process supervisor: the single slot that holds the handle of the
//! running backend, and the steps of a shutdown.
//!
//! The slot is generic in the handle, so that the caller can keep an
//! operating-system process in it. The caller guards the supervisor with
//! its lock and holds that lock for one call at a time: every operation
//! here returns at once, and the waiting of a shutdown happens between
//! calls, with the handle already out of the slot.

use vstd::prelude::*;

verus! {

/// Holds at most one process handle.
pub struct Supervisor<H> {
    slot: Option<H>,
}

/// What a call of `stop` asks of its caller.
pub enum StopPlan<H> {
    /// No process was held: there is nothing to do.
    Nothing,
    /// This process was held and is no longer: terminate it.
    Terminate(H),
}

impl<H> Supervisor<H> {
    /// The handle in the slot, if there is one.
    pub closed spec fn process(&self) -> Option<H> {
        self.slot
    }

    pub open spec fn running(&self) -> bool {
        self.process() is Some
    }

    /// A supervisor that holds no process.
    pub fn new() -> (supervisor: Self)
        ensures
            supervisor.process() is None,
    {
        Supervisor { slot: None }
    }

    /// Whether a process is held.
    pub fn is_running(&self) -> (yes: bool)
        ensures
            yes == self.running(),
    {
        self.slot.is_some()
    }

    /// Puts the handle of a freshly spawned process into the slot. A
    /// handle that was there before leaves the slot and goes to the
    /// caller, so that no second process stays behind unnoticed.
    pub fn install(&mut self, handle: H) -> (displaced: Option<H>)
        ensures
            final(self).process() == Some(handle),
            displaced == old(self).process(),
    {
        let displaced = self.slot.take();
        self.slot = Some(handle);
        displaced
    }

    /// Takes the handle out of the slot for termination. The slot is
    /// empty afterwards, whatever it held: a second call, or a call when
    /// no process was ever started, finds nothing and asks for nothing.
    pub fn stop(&mut self) -> (plan: StopPlan<H>)
        ensures
            final(self).process() is None,
            plan == spec_stop_plan(old(self).process()),
    {
        match self.slot.take() {
            Some(handle) => StopPlan::Terminate(handle),
            None => StopPlan::Nothing,
        }
    }
}

/// What `stop` asks for, from what the slot held.
pub open spec fn spec_stop_plan<H>(held: Option<H>) -> StopPlan<H> {
    match held {
        Some(handle) => StopPlan::Terminate(handle),
        None => StopPlan::Nothing,
    }
}

/// The slot after `stop`: always empty.
pub open spec fn spec_slot_after_stop<H>(held: Option<H>) -> Option<H> {
    None
}

/// Stopping twice in a row: whatever the slot held, the second `stop`
/// finds it empty, asks for nothing and leaves it empty.
pub proof fn lemma_second_stop_is_idle<H>(held: Option<H>)
    ensures
        spec_stop_plan(spec_slot_after_stop(held)) == StopPlan::<H>::Nothing,
        spec_slot_after_stop(spec_slot_after_stop(held)) == spec_slot_after_stop(held),
        (spec_stop_plan(held) is Terminate) == (held is Some),
{
}

/// Stopping when no process was ever started asks for nothing.
pub proof fn lemma_stop_without_process_is_idle<H>()
    ensures
        spec_stop_plan(None::<H>) == StopPlan::<H>::Nothing,
        spec_slot_after_stop(None::<H>) == None::<H>,
{
}

/// How long a shutdown waits for the process to exit, and how often it
/// looks. Times are in milliseconds.
#[derive(Clone, Copy, Debug, PartialEq, Eq, Structural)]
pub struct ShutdownConfig {
    /// The longest the shutdown pauses in all.
    pub grace_ms: u32,
    /// The pause between two looks at the process.
    pub poll_ms: u32,
}

impl ShutdownConfig {
    pub open spec fn well_formed(self) -> bool {
        self.poll_ms >= 1
    }

    /// Two seconds of grace, a look every fifty milliseconds.
    pub fn standard() -> (config: ShutdownConfig)
        ensures
            config == (ShutdownConfig { grace_ms: 2000, poll_ms: 50 }),
            config.well_formed(),
    {
        ShutdownConfig { grace_ms: 2000, poll_ms: 50 }
    }
}

/// How a shutdown ended.
#[derive(Clone, Copy, Debug, PartialEq, Eq, Structural)]
pub enum StopReport {
    /// The process was seen to have exited.
    Exited,
    /// The grace period ran out; the process is left to the system.
    GaveUp,
    /// The termination signal could not be sent. This is reported and
    /// goes no further.
    KillFailed,
}

/// Where the shutdown of one process stands.
#[derive(Clone, Copy, Debug, PartialEq, Eq, Structural)]
pub enum StopState {
    /// The termination signal has been asked for.
    Signalling,
    /// The signal is out; `waited_ms` have been spent pausing.
    Waiting { waited_ms: u32 },
    /// The shutdown is over.
    Done(StopReport),
}

/// What the caller reports to the shutdown.
#[derive(Clone, Copy, Debug, PartialEq, Eq, Structural)]
pub enum StopEvent {
    SignalSent,
    SignalFailed,
    Exited,
    StillRunning,
}

/// What the shutdown asks of its caller.
#[derive(Clone, Copy, Debug, PartialEq, Eq, Structural)]
pub enum StopAction {
    /// Send the termination signal and report how that went.
    SendSignal,
    /// Look whether the process has exited, without blocking.
    CheckExit,
    /// Pause for this long, then look whether the process has exited.
    PauseThenCheck { ms: u32 },
    /// The shutdown is over; this is how it ended.
    Finish(StopReport),
    /// Nothing is left to do.
    Halt,
}

#[derive(Clone, Copy, Debug, PartialEq, Eq, Structural)]
pub struct StopTransition {
    pub state: StopState,
    pub action: StopAction,
}

impl StopState {
    pub open spec fn done(self) -> bool {
        self is Done
    }

    /// A waiting shutdown has paused no longer than the grace period.
    pub open spec fn within(self, config: ShutdownConfig) -> bool {
        self matches StopState::Waiting { waited_ms } ==> waited_ms <= config.grace_ms
    }

    /// The time spent pausing so far.
    pub open spec fn waited(self) -> nat {
        match self {
            StopState::Waiting { waited_ms } => waited_ms as nat,
            _ => 0,
        }
    }

    /// The shutdown of a process that `stop` has just handed out: the
    /// signal is to be sent, once.
    pub fn begin() -> (first: StopTransition)
        ensures
            first == (StopTransition { state: StopState::Signalling, action: StopAction::SendSignal }),
    {
        StopTransition { state: StopState::Signalling, action: StopAction::SendSignal }
    }
}

/// The transition function of a shutdown.
///
/// A signal that could not be sent ends it at once. A process seen to
/// have exited ends it. A process still running costs one more pause
/// while the grace period has room for it, and ends the shutdown as
/// given up when it has not. No transition asks for the signal again.
pub open spec fn spec_stop_step(
    config: ShutdownConfig,
    state: StopState,
    event: StopEvent,
) -> StopTransition {
    match state {
        StopState::Signalling => match event {
            StopEvent::SignalFailed => StopTransition {
                state: StopState::Done(StopReport::KillFailed),
                action: StopAction::Finish(StopReport::KillFailed),
            },
            StopEvent::Exited => StopTransition {
                state: StopState::Done(StopReport::Exited),
                action: StopAction::Finish(StopReport::Exited),
            },
            _ => StopTransition {
                state: StopState::Waiting { waited_ms: 0 },
                action: StopAction::CheckExit,
            },
        },
        StopState::Waiting { waited_ms } => match event {
            StopEvent::Exited => StopTransition {
                state: StopState::Done(StopReport::Exited),
                action: StopAction::Finish(StopReport::Exited),
            },
            StopEvent::StillRunning => if waited_ms + config.poll_ms <= config.grace_ms {
                StopTransition {
                    state: StopState::Waiting { waited_ms: (waited_ms + config.poll_ms) as u32 },
                    action: StopAction::PauseThenCheck { ms: config.poll_ms },
                }
            } else {
                StopTransition {
                    state: StopState::Done(StopReport::GaveUp),
                    action: StopAction::Finish(StopReport::GaveUp),
                }
            },
            _ => StopTransition { state, action: StopAction::CheckExit },
        },
        StopState::Done(_) => StopTransition { state, action: StopAction::Halt },
    }
}

/// Moves a shutdown by one event.
pub fn stop_step(config: &ShutdownConfig, state: StopState, event: StopEvent) -> (next:
    StopTransition)
    ensures
        next == spec_stop_step(*config, state, event),
        !(next.action is SendSignal),
        state.within(*config) ==> next.state.within(*config),
{
    match state {
        StopState::Signalling => match event {
            StopEvent::SignalFailed => StopTransition {
                state: StopState::Done(StopReport::KillFailed),
                action: StopAction::Finish(StopReport::KillFailed),
            },
            StopEvent::Exited => StopTransition {
                state: StopState::Done(StopReport::Exited),
                action: StopAction::Finish(StopReport::Exited),
            },
            _ => StopTransition {
                state: StopState::Waiting { waited_ms: 0 },
                action: StopAction::CheckExit,
            },
        },
        StopState::Waiting { waited_ms } => match event {
            StopEvent::Exited => StopTransition {
                state: StopState::Done(StopReport::Exited),
                action: StopAction::Finish(StopReport::Exited),
            },
            StopEvent::StillRunning => {
                if config.poll_ms <= config.grace_ms && waited_ms <= config.grace_ms
                    - config.poll_ms {
                    StopTransition {
                        state: StopState::Waiting { waited_ms: waited_ms + config.poll_ms },
                        action: StopAction::PauseThenCheck { ms: config.poll_ms },
                    }
                } else {
                    StopTransition {
                        state: StopState::Done(StopReport::GaveUp),
                        action: StopAction::Finish(StopReport::GaveUp),
                    }
                }
            },
            _ => StopTransition { state, action: StopAction::CheckExit },
        },
        StopState::Done(_) => StopTransition { state, action: StopAction::Halt },
    }
}

/// The state of a shutdown after a run of events.
pub open spec fn stop_state_after(
    config: ShutdownConfig,
    state: StopState,
    events: Seq<StopEvent>,
) -> StopState
    decreases events.len(),
{
    if events.len() == 0 {
        state
    } else {
        spec_stop_step(config, stop_state_after(config, state, events.drop_last()), events.last()).state
    }
}

/// The time a run of events makes a shutdown pause.
pub open spec fn stop_paused_ms(
    config: ShutdownConfig,
    state: StopState,
    events: Seq<StopEvent>,
) -> nat
    decreases events.len(),
{
    if events.len() == 0 {
        0
    } else {
        let before = stop_state_after(config, state, events.drop_last());
        stop_paused_ms(config, state, events.drop_last()) + match spec_stop_step(
            config,
            before,
            events.last(),
        ).action {
            StopAction::PauseThenCheck { ms } => ms as nat,
            _ => 0nat,
        }
    }
}

/// How often a run of events makes a shutdown report its end.
pub open spec fn stop_finishes(
    config: ShutdownConfig,
    state: StopState,
    events: Seq<StopEvent>,
) -> nat
    decreases events.len(),
{
    if events.len() == 0 {
        0
    } else {
        let before = stop_state_after(config, state, events.drop_last());
        stop_finishes(config, state, events.drop_last()) + if spec_stop_step(
            config,
            before,
            events.last(),
        ).action is Finish {
            1nat
        } else {
            0nat
        }
    }
}

/// The wait of a shutdown is bounded: whatever is reported to it, the
/// pauses it asks for add up to no more than what is left of the grace
/// period, and it reports its end at most once.
pub proof fn lemma_shutdown_is_bounded(
    config: ShutdownConfig,
    state: StopState,
    events: Seq<StopEvent>,
)
    requires
        state.within(config),
    ensures
        stop_state_after(config, state, events).within(config),
        state.waited() + stop_paused_ms(config, state, events) <= config.grace_ms,
        !stop_state_after(config, state, events).done() ==> stop_state_after(
            config,
            state,
            events,
        ).waited() == state.waited() + stop_paused_ms(config, state, events),
        stop_finishes(config, state, events) <= 1,
        state.done() ==> stop_finishes(config, state, events) == 0 && stop_state_after(
            config,
            state,
            events,
        ) == state,
        !state.done() ==> (stop_finishes(config, state, events) == 1 <==> stop_state_after(
            config,
            state,
            events,
        ).done()),
    decreases events.len(),
{
    if events.len() > 0 {
        lemma_shutdown_is_bounded(config, state, events.drop_last());
    }
}

/// A shutdown cannot be kept waiting: once the signal is out, a process
/// that is reported as still running more often than the grace period
/// holds pauses ends the shutdown.
pub proof fn lemma_shutdown_ends(config: ShutdownConfig, waited_ms: u32, looks: nat)
    requires
        config.well_formed(),
        waited_ms <= config.grace_ms,
        waited_ms + looks * config.poll_ms > config.grace_ms,
    ensures
        stop_state_after(
            config,
            StopState::Waiting { waited_ms },
            Seq::new(looks, |i: int| StopEvent::StillRunning),
        ) == StopState::Done(StopReport::GaveUp),
    decreases looks,
{
    let events = Seq::new(looks, |i: int| StopEvent::StillRunning);
    let start = StopState::Waiting { waited_ms };
    assert(0 * config.poll_ms == 0) by (nonlinear_arith);
    if looks > 0 {
        let shorter = Seq::new((looks - 1) as nat, |i: int| StopEvent::StillRunning);
        assert(events.drop_last() =~= shorter);
        assert(events.last() == StopEvent::StillRunning);
        assert(looks * config.poll_ms == (looks - 1) * config.poll_ms + config.poll_ms)
            by (nonlinear_arith);
        if waited_ms + (looks - 1) * config.poll_ms > config.grace_ms {
            lemma_shutdown_ends(config, waited_ms, (looks - 1) as nat);
        } else {
            lemma_still_running_counts(config, waited_ms, (looks - 1) as nat);
        }
    }
}

proof fn lemma_still_running_counts(config: ShutdownConfig, waited_ms: u32, looks: nat)
    requires
        waited_ms + looks * config.poll_ms <= config.grace_ms,
    ensures
        stop_state_after(
            config,
            StopState::Waiting { waited_ms },
            Seq::new(looks, |i: int| StopEvent::StillRunning),
        ) == (StopState::Waiting { waited_ms: (waited_ms + looks * config.poll_ms) as u32 }),
    decreases looks,
{
    let events = Seq::new(looks, |i: int| StopEvent::StillRunning);
    assert(0 * config.poll_ms == 0) by (nonlinear_arith);
    if looks > 0 {
        let shorter = Seq::new((looks - 1) as nat, |i: int| StopEvent::StillRunning);
        assert(events.drop_last() =~= shorter);
        assert(events.last() == StopEvent::StillRunning);
        assert(looks * config.poll_ms == (looks - 1) * config.poll_ms + config.poll_ms)
            by (nonlinear_arith);
        assert((looks - 1) * config.poll_ms >= 0) by (nonlinear_arith)
            requires
                looks >= 1,
                config.poll_ms >= 0,
        ;
        lemma_still_running_counts(config, waited_ms, (looks - 1) as nat);
    }
}

} // verus!
