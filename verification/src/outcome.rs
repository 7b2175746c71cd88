//! Readiness outcomes and the bus that carries them to the parent
//! application.

use vstd::prelude::*;
use vstd::string::StringExecFns;

verus! {

/// The three kinds of outcome, one event name each.
#[derive(Clone, Copy, Debug, PartialEq, Eq, Structural)]
pub enum OutcomeKind {
    Ready,
    Error,
    Terminated,
}

/// What the parent application is told about the supervised process.
#[derive(Clone, Debug, PartialEq, Eq)]
pub enum ReadinessOutcome {
    /// The backend answered a health probe as healthy.
    Ready,
    /// Startup failed or the probe budget ran out; the text says which.
    Error(String),
    /// The process ended on its own, with the exit code and the signal
    /// as far as they are known.
    Terminated { code: Option<i32>, signal: Option<i32> },
}

/// A readiness outcome with its message as a sequence of characters.
pub enum OutcomeView {
    Ready,
    Error(Seq<char>),
    Terminated { code: Option<i32>, signal: Option<i32> },
}

impl View for ReadinessOutcome {
    type V = OutcomeView;

    open spec fn view(&self) -> OutcomeView {
        match *self {
            ReadinessOutcome::Ready => OutcomeView::Ready,
            ReadinessOutcome::Error(message) => OutcomeView::Error(message@),
            ReadinessOutcome::Terminated { code, signal } => OutcomeView::Terminated {
                code,
                signal,
            },
        }
    }
}

impl OutcomeView {
    pub open spec fn kind(self) -> OutcomeKind {
        match self {
            OutcomeView::Ready => OutcomeKind::Ready,
            OutcomeView::Error(_) => OutcomeKind::Error,
            OutcomeView::Terminated { .. } => OutcomeKind::Terminated,
        }
    }
}

impl OutcomeKind {
    /// Ready and Error settle the question of readiness; Terminated does
    /// not.
    pub open spec fn settles(self) -> bool {
        self == OutcomeKind::Ready || self == OutcomeKind::Error
    }

    pub open spec fn spec_event_name(self) -> Seq<char> {
        match self {
            OutcomeKind::Ready => "backend-ready"@,
            OutcomeKind::Error => "backend-error"@,
            OutcomeKind::Terminated => "backend-terminated"@,
        }
    }

    /// The name under which outcomes of this kind are emitted.
    pub fn event_name(self) -> (name: &'static str)
        ensures
            name@ == self.spec_event_name(),
    {
        match self {
            OutcomeKind::Ready => "backend-ready",
            OutcomeKind::Error => "backend-error",
            OutcomeKind::Terminated => "backend-terminated",
        }
    }
}

impl ReadinessOutcome {
    pub fn kind(&self) -> (kind: OutcomeKind)
        ensures
            kind == self@.kind(),
    {
        match self {
            ReadinessOutcome::Ready => OutcomeKind::Ready,
            ReadinessOutcome::Error(_) => OutcomeKind::Error,
            ReadinessOutcome::Terminated { .. } => OutcomeKind::Terminated,
        }
    }

    /// The message that goes out with an Error outcome; the other kinds
    /// carry none.
    pub fn message(&self) -> (message: Option<String>)
        ensures
            match self@ {
                OutcomeView::Error(text) => message matches Some(m) && m@ == text,
                _ => message is None,
            },
    {
        match self {
            ReadinessOutcome::Error(text) => Some(text.clone()),
            _ => None,
        }
    }
}

/// What became of one emission.
#[derive(Clone, Copy, Debug, PartialEq, Eq, Structural)]
pub enum Delivery {
    /// A subscriber of that kind was listening and got the outcome.
    Delivered,
    /// Nobody was listening: the outcome is gone, it is not kept.
    Dropped,
    /// The bus had already carried an outcome that rules this one out.
    Suppressed,
}

/// The bus between the supervisor and the parent application. It holds no
/// queue: who listens, and what has already gone out, is all its state.
#[derive(Clone, Copy, Debug, PartialEq, Eq, Structural)]
pub struct ReadinessBus {
    pub ready_listener: bool,
    pub error_listener: bool,
    pub terminated_listener: bool,
    /// A Ready or an Error has gone out.
    pub settled: bool,
    /// A Terminated has gone out.
    pub terminated: bool,
}

impl ReadinessBus {
    pub open spec fn listening(self, kind: OutcomeKind) -> bool {
        match kind {
            OutcomeKind::Ready => self.ready_listener,
            OutcomeKind::Error => self.error_listener,
            OutcomeKind::Terminated => self.terminated_listener,
        }
    }

    /// Whether an outcome of this kind is kept back.
    pub open spec fn suppresses(self, kind: OutcomeKind) -> bool {
        self.terminated || (kind.settles() && self.settled)
    }

    /// The bus after an outcome of this kind was emitted on it.
    pub open spec fn after_emit(self, kind: OutcomeKind) -> ReadinessBus {
        if self.suppresses(kind) {
            self
        } else if kind.settles() {
            ReadinessBus { settled: true, ..self }
        } else {
            ReadinessBus { terminated: true, ..self }
        }
    }

    /// What happens to an outcome of this kind emitted on the bus.
    pub open spec fn delivery_of(self, kind: OutcomeKind) -> Delivery {
        if self.suppresses(kind) {
            Delivery::Suppressed
        } else if self.listening(kind) {
            Delivery::Delivered
        } else {
            Delivery::Dropped
        }
    }

    /// A bus on which nobody listens and nothing has gone out.
    pub fn new() -> (bus: ReadinessBus)
        ensures
            bus == (ReadinessBus {
                ready_listener: false,
                error_listener: false,
                terminated_listener: false,
                settled: false,
                terminated: false,
            }),
    {
        ReadinessBus {
            ready_listener: false,
            error_listener: false,
            terminated_listener: false,
            settled: false,
            terminated: false,
        }
    }

    /// Registers the listener for one kind. Subscribing again changes
    /// nothing, and what has gone out before stays gone.
    pub fn subscribe(&mut self, kind: OutcomeKind)
        ensures
            final(self).listening(kind),
            forall|other: OutcomeKind|
                other != kind ==> final(self).listening(other) == old(self).listening(other),
            final(self).settled == old(self).settled,
            final(self).terminated == old(self).terminated,
    {
        match kind {
            OutcomeKind::Ready => {
                self.ready_listener = true;
            },
            OutcomeKind::Error => {
                self.error_listener = true;
            },
            OutcomeKind::Terminated => {
                self.terminated_listener = true;
            },
        }
    }

    pub fn is_listening(&self, kind: OutcomeKind) -> (yes: bool)
        ensures
            yes == self.listening(kind),
    {
        match kind {
            OutcomeKind::Ready => self.ready_listener,
            OutcomeKind::Error => self.error_listener,
            OutcomeKind::Terminated => self.terminated_listener,
        }
    }

    /// Emits an outcome and forgets it. The caller hands the outcome to
    /// the listener exactly when the answer is `Delivered`.
    pub fn emit(&mut self, outcome: &ReadinessOutcome) -> (delivery: Delivery)
        ensures
            delivery == old(self).delivery_of(outcome@.kind()),
            *final(self) == old(self).after_emit(outcome@.kind()),
    {
        let kind = outcome.kind();
        let settles = match kind {
            OutcomeKind::Terminated => false,
            _ => true,
        };
        if self.terminated || (settles && self.settled) {
            return Delivery::Suppressed;
        }
        if settles {
            self.settled = true;
        } else {
            self.terminated = true;
        }
        if self.is_listening(kind) {
            Delivery::Delivered
        } else {
            Delivery::Dropped
        }
    }
}

/// What a run of emissions leaves of the bus.
pub open spec fn bus_after(bus: ReadinessBus, kinds: Seq<OutcomeKind>) -> ReadinessBus
    decreases kinds.len(),
{
    if kinds.len() == 0 {
        bus
    } else {
        bus_after(bus, kinds.drop_last()).after_emit(kinds.last())
    }
}

/// How many Ready and Error outcomes of a run of emissions the bus lets
/// through, delivered or dropped.
pub open spec fn settling_passed(bus: ReadinessBus, kinds: Seq<OutcomeKind>) -> nat
    decreases kinds.len(),
{
    if kinds.len() == 0 {
        0
    } else {
        let before = bus_after(bus, kinds.drop_last());
        let passed = kinds.last().settles() && !before.suppresses(kinds.last());
        settling_passed(bus, kinds.drop_last()) + if passed {
            1nat
        } else {
            0nat
        }
    }
}

/// Of any run of emissions the bus lets at most one Ready or Error
/// through, and none once one has gone out before the run.
pub proof fn lemma_bus_settles_once(bus: ReadinessBus, kinds: Seq<OutcomeKind>)
    ensures
        settling_passed(bus, kinds) <= 1,
        bus.settled ==> settling_passed(bus, kinds) == 0,
        settling_passed(bus, kinds) == 1 ==> bus_after(bus, kinds).settled,
        bus_after(bus, kinds).settled == (bus.settled || settling_passed(bus, kinds) == 1),
        bus.terminated ==> bus_after(bus, kinds) == bus,
    decreases kinds.len(),
{
    if kinds.len() > 0 {
        lemma_bus_settles_once(bus, kinds.drop_last());
    }
}

/// Once a Terminated has gone out, every later outcome is suppressed and
/// the bus no longer changes.
pub proof fn lemma_bus_silent_after_termination(bus: ReadinessBus, kind: OutcomeKind)
    requires
        bus.terminated,
    ensures
        bus.delivery_of(kind) == Delivery::Suppressed,
        bus.after_emit(kind) == bus,
{
}

/// Emitting never touches the subscriptions, and the bus keeps nothing
/// back for later: whatever became of an outcome, an outcome of the same
/// kind right after it is suppressed, not delivered in its place.
pub proof fn lemma_bus_keeps_no_queue(bus: ReadinessBus, kind: OutcomeKind)
    ensures
        forall|k: OutcomeKind| bus.after_emit(kind).listening(k) == bus.listening(k),
        bus.after_emit(kind).delivery_of(kind) == Delivery::Suppressed,
{
}

} // verus!
