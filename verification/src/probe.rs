//! The health prober: how one reply of the health endpoint is read, and
//! the state machine that turns replies into a single readiness outcome.
//!
//! The prober does no I/O. Its driver wakes it, sends the request it asks
//! for, hands the reply back, sleeps when told to, and emits what it is
//! given to emit.

use vstd::prelude::*;
use vstd::string::StringExecFns;
use crate::outcome::{OutcomeView, ReadinessOutcome};
use crate::text::{decimal, decimal_text};

verus! {

/// The pair that bounds the time to failure, with the timeout of a single
/// request. All times are in milliseconds.
#[derive(Clone, Copy, Debug, PartialEq, Eq, Structural)]
pub struct ProbeConfig {
    /// The pause after a probe that did not find the backend healthy.
    pub interval_ms: u32,
    /// How long one request may take.
    pub request_timeout_ms: u32,
    /// How many probes are made before the prober gives up.
    pub max_attempts: u32,
}

impl ProbeConfig {
    /// At least one attempt, and a request timeout that is positive and
    /// below the poll interval.
    pub open spec fn well_formed(self) -> bool {
        &&& self.max_attempts >= 1
        &&& self.request_timeout_ms >= 1
        &&& self.request_timeout_ms < self.interval_ms
    }

    /// The time spent between probes when every attempt fails.
    pub open spec fn spec_budget_ms(self) -> nat {
        (self.max_attempts * self.interval_ms) as nat
    }

    /// The longest a run can take up to its Error outcome: every request
    /// runs into its timeout and every pause is taken.
    pub open spec fn spec_worst_case_ms(self) -> nat {
        (self.max_attempts * (self.interval_ms + self.request_timeout_ms)) as nat
    }

    /// Half a second between probes, 300 probes: 150 seconds.
    pub fn standard() -> (config: ProbeConfig)
        ensures
            config == (ProbeConfig { interval_ms: 500, request_timeout_ms: 250, max_attempts: 300 }),
            config.well_formed(),
    {
        ProbeConfig { interval_ms: 500, request_timeout_ms: 250, max_attempts: 300 }
    }

    /// Half a second between probes, 60 probes: 30 seconds.
    pub fn quick() -> (config: ProbeConfig)
        ensures
            config == (ProbeConfig { interval_ms: 500, request_timeout_ms: 250, max_attempts: 60 }),
            config.well_formed(),
    {
        ProbeConfig { interval_ms: 500, request_timeout_ms: 250, max_attempts: 60 }
    }

    /// A configuration from its three numbers, or `None` when they are not
    /// well formed.
    pub fn new(interval_ms: u32, request_timeout_ms: u32, max_attempts: u32) -> (config: Option<
        ProbeConfig,
    >)
        ensures
            config == if (ProbeConfig {
                interval_ms,
                request_timeout_ms,
                max_attempts,
            }).well_formed() {
                Some(ProbeConfig { interval_ms, request_timeout_ms, max_attempts })
            } else {
                None
            },
    {
        if max_attempts >= 1 && request_timeout_ms >= 1 && request_timeout_ms < interval_ms {
            Some(ProbeConfig { interval_ms, request_timeout_ms, max_attempts })
        } else {
            None
        }
    }

    pub fn is_well_formed(&self) -> (ok: bool)
        ensures
            ok == self.well_formed(),
    {
        self.max_attempts >= 1 && self.request_timeout_ms >= 1 && self.request_timeout_ms
            < self.interval_ms
    }

    pub fn budget_ms(&self) -> (ms: u64)
        ensures
            ms == self.spec_budget_ms(),
    {
        let attempts: u64 = self.max_attempts as u64;
        let interval: u64 = self.interval_ms as u64;
        assert(attempts * interval <= 0xffff_ffff * 0xffff_ffff) by (nonlinear_arith)
            requires
                attempts <= 0xffff_ffff,
                interval <= 0xffff_ffff,
        ;
        attempts * interval
    }

    pub fn worst_case_ms(&self) -> (ms: u128)
        ensures
            ms == self.spec_worst_case_ms(),
    {
        let attempts: u128 = self.max_attempts as u128;
        let each: u128 = self.interval_ms as u128 + self.request_timeout_ms as u128;
        assert(attempts * each <= 0xffff_ffff * 0x1_ffff_fffe) by (nonlinear_arith)
            requires
                attempts <= 0xffff_ffff,
                each <= 0x1_ffff_fffe,
        ;
        attempts * each
    }

    pub open spec fn spec_timeout_message(self) -> Seq<char> {
        "Backend did not become healthy within "@ + decimal_text(self.spec_budget_ms() / 1000)
            + "s"@
    }

    /// The text of the Error outcome when the attempts run out. It names
    /// the budget in whole seconds.
    pub fn timeout_message(&self) -> (message: String)
        ensures
            message@ == self.spec_timeout_message(),
    {
        let mut message = String::from_str("Backend did not become healthy within ");
        let seconds = decimal(self.budget_ms() / 1000);
        message.append(seconds.as_str());
        message.append("s");
        message
    }
}

/// The host the backend is told to listen on, and the prober asks.
pub fn backend_host() -> (host: &'static str)
    ensures
        host@ == "127.0.0.1"@,
{
    "127.0.0.1"
}

/// The port the backend is told to listen on, and the prober asks.
pub fn backend_port() -> (port: &'static str)
    ensures
        port@ == "8000"@,
{
    "8000"
}

/// The address of the health endpoint.
pub fn health_url() -> (url: String)
    ensures
        url@ == "http://127.0.0.1:8000/api/v1/health"@,
{
    let mut url = String::from_str("http://");
    url.append(backend_host());
    url.append(":");
    url.append(backend_port());
    url.append("/api/v1/health");
    proof {
        reveal_strlit("http://");
        reveal_strlit("127.0.0.1");
        reveal_strlit(":");
        reveal_strlit("8000");
        reveal_strlit("/api/v1/health");
        reveal_strlit("http://127.0.0.1:8000/api/v1/health");
        assert(url@ =~= "http://127.0.0.1:8000/api/v1/health"@);
    }
    url
}

/// What came back from one request to the health endpoint.
#[derive(Clone, Debug, PartialEq, Eq)]
pub enum ProbeReply {
    /// No HTTP response: the connection failed or the request timed out.
    NoResponse { reason: String },
    /// An HTTP response with its status code, and the `status` field of
    /// its JSON body where the body could be read as such.
    Response { code: u16, status: Option<String> },
}

/// A reply with its texts as sequences of characters.
pub enum ProbeReplyView {
    NoResponse { reason: Seq<char> },
    Response { code: u16, status: Option<Seq<char>> },
}

impl View for ProbeReply {
    type V = ProbeReplyView;

    open spec fn view(&self) -> ProbeReplyView {
        match *self {
            ProbeReply::NoResponse { reason } => ProbeReplyView::NoResponse { reason: reason@ },
            ProbeReply::Response { code, status } => ProbeReplyView::Response {
                code,
                status: match status {
                    Some(text) => Some(text@),
                    None => None,
                },
            },
        }
    }
}

/// The result of one probe.
#[derive(Clone, Debug, PartialEq, Eq)]
pub enum HealthStatus {
    Healthy,
    /// The backend answered, but not as healthy.
    Unhealthy(String),
    /// The backend did not answer.
    Unreachable(String),
}

/// A probe result with its reason as a sequence of characters.
pub enum HealthStatusView {
    Healthy,
    Unhealthy(Seq<char>),
    Unreachable(Seq<char>),
}

impl View for HealthStatus {
    type V = HealthStatusView;

    open spec fn view(&self) -> HealthStatusView {
        match *self {
            HealthStatus::Healthy => HealthStatusView::Healthy,
            HealthStatus::Unhealthy(reason) => HealthStatusView::Unhealthy(reason@),
            HealthStatus::Unreachable(reason) => HealthStatusView::Unreachable(reason@),
        }
    }
}

/// The success class of HTTP status codes.
pub open spec fn success_code(code: u16) -> bool {
    200 <= code <= 299
}

/// `reqwest::StatusCode::from_u16` followed by `StatusCode::is_success`.
/// The first accepts the numbers 100 to 999 as status codes and refuses
/// all others; the second is true exactly for the codes 200 to 299.
#[verifier::external_body]
fn status_class(code: u16) -> (success: Option<bool>)
    ensures
        success == if 100 <= code <= 999 {
            Some(success_code(code))
        } else {
            None::<bool>
        },
{
    match reqwest::StatusCode::from_u16(code) {
        Ok(status) => Some(status.is_success()),
        Err(_) => None,
    }
}

/// Whether a number is a status code of the success class. A number that
/// is no status code at all is no success.
pub fn is_success_code(code: u16) -> (ok: bool)
    ensures
        ok == success_code(code),
{
    match status_class(code) {
        Some(success) => success,
        None => false,
    }
}

/// How a reply is read.
pub open spec fn spec_classify(reply: ProbeReplyView) -> HealthStatusView {
    match reply {
        ProbeReplyView::NoResponse { reason } => HealthStatusView::Unreachable(reason),
        ProbeReplyView::Response { code, status } => if !success_code(code) {
            HealthStatusView::Unhealthy("HTTP "@ + decimal_text(code as nat))
        } else {
            match status {
                None => HealthStatusView::Unhealthy("unreadable body"@),
                Some(text) => if text == "healthy"@ {
                    HealthStatusView::Healthy
                } else {
                    HealthStatusView::Unhealthy("status "@ + text)
                },
            }
        },
    }
}

/// Reads one reply: healthy only for a success code together with a body
/// whose status is the word `healthy`.
pub fn classify(reply: &ProbeReply) -> (status: HealthStatus)
    ensures
        status@ == spec_classify(reply@),
{
    match reply {
        ProbeReply::NoResponse { reason } => HealthStatus::Unreachable(reason.clone()),
        ProbeReply::Response { code, status } => {
            if !is_success_code(*code) {
                let mut reason = String::from_str("HTTP ");
                let number = decimal(*code as u64);
                reason.append(number.as_str());
                HealthStatus::Unhealthy(reason)
            } else {
                match status {
                    None => HealthStatus::Unhealthy(String::from_str("unreadable body")),
                    Some(text) => {
                        let healthy = String::from_str("healthy");
                        if *text == healthy {
                            HealthStatus::Healthy
                        } else {
                            let mut reason = String::from_str("status ");
                            reason.append(text.as_str());
                            HealthStatus::Unhealthy(reason)
                        }
                    },
                }
            }
        },
    }
}

/// Whether a reply counts as healthy.
pub open spec fn is_healthy(reply: ProbeReply) -> bool {
    spec_classify(reply@) is Healthy
}

pub open spec fn spec_reachable(reply: ProbeReplyView) -> bool {
    reply matches ProbeReplyView::Response { code, .. } && success_code(code)
}

/// The answer to "is the backend reachable right now": it sent a response
/// with a success code. A request that failed is a plain `false`.
pub fn reachable(reply: &ProbeReply) -> (yes: bool)
    ensures
        yes == spec_reachable(reply@),
{
    match reply {
        ProbeReply::NoResponse { .. } => false,
        ProbeReply::Response { code, .. } => is_success_code(*code),
    }
}

/// Where the prober stands.
#[derive(Clone, Copy, Debug, PartialEq, Eq, Structural)]
pub enum ProbeState {
    /// Still asking; `attempt` probes have failed so far.
    Polling { attempt: u32 },
    /// The backend was found healthy. Terminal.
    Ready,
    /// The attempts ran out. Terminal.
    Failed,
}

impl ProbeState {
    pub open spec fn terminal(self) -> bool {
        self is Ready || self is Failed
    }

    /// A polling state counts no more failures than the budget allows.
    pub open spec fn within(self, config: ProbeConfig) -> bool {
        self matches ProbeState::Polling { attempt } ==> attempt <= config.max_attempts
    }

    pub fn initial() -> (state: ProbeState)
        ensures
            state == (ProbeState::Polling { attempt: 0 }),
    {
        ProbeState::Polling { attempt: 0 }
    }

    pub fn is_terminal(&self) -> (yes: bool)
        ensures
            yes == self.terminal(),
    {
        match self {
            ProbeState::Polling { .. } => false,
            _ => true,
        }
    }
}

/// What the driver reports to the prober.
#[derive(Clone, Debug, PartialEq, Eq)]
pub enum ProbeEvent {
    /// The prober was started, or a pause it asked for is over.
    Wake,
    /// The request it asked for was made; this is how its reply reads.
    Result(HealthStatus),
}

/// What the prober asks of its driver.
#[derive(Clone, Copy, Debug, PartialEq, Eq, Structural)]
pub enum ProbeAction {
    /// Send one request, giving it at most this long, and report the
    /// result.
    Probe { timeout_ms: u32 },
    /// Pause for this long, then wake the prober.
    Sleep { ms: u32 },
    /// Emit the Ready outcome and stop.
    EmitReady,
    /// Emit the Error outcome with the timeout message and stop.
    EmitTimeout,
    /// Nothing is left to do.
    Halt,
}

impl ProbeAction {
    pub open spec fn emits(self) -> bool {
        self is EmitReady || self is EmitTimeout
    }

    /// The outcome that an emitting action stands for.
    pub fn outcome(&self, config: &ProbeConfig) -> (outcome: Option<ReadinessOutcome>)
        ensures
            match *self {
                ProbeAction::EmitReady => outcome matches Some(o) && o@ == OutcomeView::Ready,
                ProbeAction::EmitTimeout => outcome matches Some(o) && o@ == OutcomeView::Error(
                    config.spec_timeout_message(),
                ),
                _ => outcome is None,
            },
    {
        match self {
            ProbeAction::EmitReady => Some(ReadinessOutcome::Ready),
            ProbeAction::EmitTimeout => Some(ReadinessOutcome::Error(config.timeout_message())),
            _ => None,
        }
    }
}

/// One step of the prober: the state it moves to and what it asks for.
#[derive(Clone, Copy, Debug, PartialEq, Eq, Structural)]
pub struct ProbeTransition {
    pub state: ProbeState,
    pub action: ProbeAction,
}

/// The transition function.
///
/// While polling within the budget, a wake-up asks for a probe, a healthy
/// result ends in Ready, and any other result counts one more failure and
/// asks for a pause. Once the failures have reached the budget, whatever
/// comes next ends in Failed. A terminal state stays as it is.
pub open spec fn spec_step(
    config: ProbeConfig,
    state: ProbeState,
    event: ProbeEvent,
) -> ProbeTransition {
    match state {
        ProbeState::Polling { attempt } => if attempt >= config.max_attempts {
            ProbeTransition { state: ProbeState::Failed, action: ProbeAction::EmitTimeout }
        } else {
            match event {
                ProbeEvent::Wake => ProbeTransition {
                    state,
                    action: ProbeAction::Probe { timeout_ms: config.request_timeout_ms },
                },
                ProbeEvent::Result(status) => if status is Healthy {
                    ProbeTransition { state: ProbeState::Ready, action: ProbeAction::EmitReady }
                } else {
                    ProbeTransition {
                        state: ProbeState::Polling { attempt: (attempt + 1) as u32 },
                        action: ProbeAction::Sleep { ms: config.interval_ms },
                    }
                },
            }
        },
        _ => ProbeTransition { state, action: ProbeAction::Halt },
    }
}

/// Moves the prober by one event.
pub fn step(config: &ProbeConfig, state: ProbeState, event: &ProbeEvent) -> (next: ProbeTransition)
    ensures
        next == spec_step(*config, state, *event),
        state.within(*config) ==> next.state.within(*config),
        state is Polling && !(event matches ProbeEvent::Result(status) && status is Healthy)
            ==> !(next.state is Ready) && !(next.action is EmitReady),
{
    match state {
        ProbeState::Polling { attempt } => {
            if attempt >= config.max_attempts {
                ProbeTransition { state: ProbeState::Failed, action: ProbeAction::EmitTimeout }
            } else {
                match event {
                    ProbeEvent::Wake => ProbeTransition {
                        state,
                        action: ProbeAction::Probe { timeout_ms: config.request_timeout_ms },
                    },
                    ProbeEvent::Result(HealthStatus::Healthy) => ProbeTransition {
                        state: ProbeState::Ready,
                        action: ProbeAction::EmitReady,
                    },
                    ProbeEvent::Result(_) => ProbeTransition {
                        state: ProbeState::Polling { attempt: attempt + 1 },
                        action: ProbeAction::Sleep { ms: config.interval_ms },
                    },
                }
            }
        },
        _ => ProbeTransition { state, action: ProbeAction::Halt },
    }
}

/// A reply that does not read as healthy leaves a prober that is within
/// its budget polling, with one more failure counted, and asks for a
/// pause: nothing is emitted, and least of all Ready.
pub proof fn lemma_unhealthy_reply_keeps_polling(
    config: ProbeConfig,
    attempt: u32,
    reply: ProbeReply,
    status: HealthStatus,
)
    requires
        attempt < config.max_attempts,
        status@ == spec_classify(reply@),
        !is_healthy(reply),
    ensures
        spec_step(config, ProbeState::Polling { attempt }, ProbeEvent::Result(status)) == (
        ProbeTransition {
            state: ProbeState::Polling { attempt: (attempt + 1) as u32 },
            action: ProbeAction::Sleep { ms: config.interval_ms },
        }),
{
}

/// A reply is healthy only with a success code and a body whose status is
/// exactly `healthy`: a missing or unreadable body, any other status text
/// and any other code are not.
pub proof fn lemma_healthy_exactly(reply: ProbeReply)
    ensures
        is_healthy(reply) <==> (reply matches ProbeReply::Response { code, status: Some(text) }
            && success_code(code) && text@ == "healthy"@),
{
}

/// The state after a run of events.
pub open spec fn state_after(
    config: ProbeConfig,
    state: ProbeState,
    events: Seq<ProbeEvent>,
) -> ProbeState
    decreases events.len(),
{
    if events.len() == 0 {
        state
    } else {
        spec_step(config, state_after(config, state, events.drop_last()), events.last()).state
    }
}

/// How many outcomes a run of events makes the prober emit.
pub open spec fn emissions(config: ProbeConfig, state: ProbeState, events: Seq<ProbeEvent>) -> nat
    decreases events.len(),
{
    if events.len() == 0 {
        0
    } else {
        let before = state_after(config, state, events.drop_last());
        emissions(config, state, events.drop_last()) + if spec_step(
            config,
            before,
            events.last(),
        ).action.emits() {
            1nat
        } else {
            0nat
        }
    }
}

/// Whatever the driver reports and however often, the prober emits at
/// most one outcome. It has emitted one exactly when the run took it from
/// polling to a terminal state, and from a terminal state it emits
/// nothing more.
pub proof fn lemma_one_outcome_at_most(
    config: ProbeConfig,
    state: ProbeState,
    events: Seq<ProbeEvent>,
)
    ensures
        emissions(config, state, events) <= 1,
        state.terminal() ==> emissions(config, state, events) == 0 && state_after(
            config,
            state,
            events,
        ) == state,
        !state.terminal() ==> (emissions(config, state, events) == 1 <==> state_after(
            config,
            state,
            events,
        ).terminal()),
    decreases events.len(),
{
    if events.len() > 0 {
        lemma_one_outcome_at_most(config, state, events.drop_last());
    }
}

/// The record of a prober driven against a script of replies.
#[derive(Clone, Debug, PartialEq, Eq)]
pub struct ProbeRun {
    /// Where the prober stood when the run ended.
    pub state: ProbeState,
    /// The outcomes it emitted, in order.
    pub emitted: Vec<ReadinessOutcome>,
    /// How many requests were made.
    pub attempts: u32,
    /// The sum of the pauses taken.
    pub slept_ms: u64,
}

/// The record of a run as mathematical values.
pub struct ProbeRunView {
    pub state: ProbeState,
    pub emitted: Seq<OutcomeView>,
    pub attempts: nat,
    pub slept_ms: nat,
}

impl View for ProbeRun {
    type V = ProbeRunView;

    open spec fn view(&self) -> ProbeRunView {
        ProbeRunView {
            state: self.state,
            emitted: self.emitted@.map_values(|o: ReadinessOutcome| o@),
            attempts: self.attempts as nat,
            slept_ms: self.slept_ms as nat,
        }
    }
}

impl ProbeRunView {
    /// The longest the run can have taken: every request used up its
    /// timeout.
    pub open spec fn longest_ms(self, config: ProbeConfig) -> nat {
        (self.attempts * config.request_timeout_ms + self.slept_ms) as nat
    }
}

/// The index of the first healthy reply at or after `from` and before
/// `limit`, or `limit` when there is none.
pub open spec fn failures_from(replies: Seq<ProbeReply>, from: int, limit: int) -> int
    decreases limit - from,
{
    if from >= limit || is_healthy(replies[from]) {
        from
    } else {
        failures_from(replies, from + 1, limit)
    }
}

/// How many replies of a script a prober with this budget can come to
/// ask for.
pub open spec fn replies_in_reach(config: ProbeConfig, replies: Seq<ProbeReply>) -> int {
    if replies.len() < config.max_attempts {
        replies.len() as int
    } else {
        config.max_attempts as int
    }
}

/// What a run against a script comes to.
///
/// The prober asks for replies one by one, pausing after each failure. At
/// the first healthy reply within its budget it is Ready and has emitted
/// Ready. Where the budget runs out first it is Failed and has emitted the
/// timeout Error. Where the script runs out first it is still polling and
/// has emitted nothing.
pub open spec fn spec_run(config: ProbeConfig, replies: Seq<ProbeReply>) -> ProbeRunView {
    let limit = replies_in_reach(config, replies);
    let failed = failures_from(replies, 0, limit);
    let slept_ms = (failed * config.interval_ms) as nat;
    if failed < limit {
        ProbeRunView {
            state: ProbeState::Ready,
            emitted: seq![OutcomeView::Ready],
            attempts: (failed + 1) as nat,
            slept_ms,
        }
    } else if limit == config.max_attempts {
        ProbeRunView {
            state: ProbeState::Failed,
            emitted: seq![OutcomeView::Error(config.spec_timeout_message())],
            attempts: failed as nat,
            slept_ms,
        }
    } else {
        ProbeRunView {
            state: ProbeState::Polling { attempt: failed as u32 },
            emitted: Seq::empty(),
            attempts: failed as nat,
            slept_ms,
        }
    }
}

/// Drives a fresh prober against a script: each request it asks for is
/// answered by the next reply, each pause is taken at once, and the run
/// ends when the prober halts or the script has no reply left.
pub fn run_script(config: &ProbeConfig, replies: &Vec<ProbeReply>) -> (run: ProbeRun)
    ensures
        run@ == spec_run(*config, replies@),
{
    let mut state = ProbeState::initial();
    let mut emitted: Vec<ReadinessOutcome> = Vec::new();
    let mut attempts: u32 = 0;
    let mut slept_ms: u64 = 0;
    let mut next: usize = 0;
    let ghost limit = replies_in_reach(*config, replies@);
    loop
        invariant_except_break
            next <= replies.len(),
            next <= config.max_attempts,
            state == (ProbeState::Polling { attempt: next as u32 }),
            failures_from(replies@, 0, limit) == failures_from(replies@, next as int, limit),
            emitted@.len() == 0,
            attempts == next,
            slept_ms == next * config.interval_ms,
        invariant
            limit == replies_in_reach(*config, replies@),
        ensures
            (ProbeRun { state, emitted, attempts, slept_ms })@ == spec_run(*config, replies@),
        decreases replies.len() - next,
    {
        let woke = step(config, state, &ProbeEvent::Wake);
        match woke.action {
            ProbeAction::Probe { .. } => {
                if next >= replies.len() {
                    assert((ProbeRun { state, emitted, attempts, slept_ms })@.emitted =~= Seq::empty());
                    break ;
                }
                let status = classify(&replies[next]);
                let told = step(config, woke.state, &ProbeEvent::Result(status));
                state = told.state;
                attempts = attempts + 1;
                match told.action {
                    ProbeAction::Sleep { ms } => {
                        assert((next + 1) * config.interval_ms <= 0xffff_ffff * 0xffff_ffff
                            && (next + 1) * config.interval_ms == next * config.interval_ms
                            + config.interval_ms) by (nonlinear_arith)
                            requires
                                next + 1 <= 0xffff_ffff,
                                config.interval_ms <= 0xffff_ffff,
                        ;
                        slept_ms = slept_ms + ms as u64;
                        next = next + 1;
                    },
                    _ => {
                        emitted.push(ReadinessOutcome::Ready);
                        assert((ProbeRun { state, emitted, attempts, slept_ms })@.emitted
                            =~= seq![OutcomeView::Ready]);
                        break ;
                    },
                }
            },
            _ => {
                state = woke.state;
                emitted.push(ReadinessOutcome::Error(config.timeout_message()));
                assert((ProbeRun { state, emitted, attempts, slept_ms })@.emitted
                    =~= seq![OutcomeView::Error(config.spec_timeout_message())]);
                break ;
            },
        }
    }
    ProbeRun { state, emitted, attempts, slept_ms }
}

proof fn lemma_failures_from_bounds(replies: Seq<ProbeReply>, from: int, limit: int)
    requires
        from <= limit,
    ensures
        from <= failures_from(replies, from, limit) <= limit,
    decreases limit - from,
{
    if !(from >= limit || is_healthy(replies[from])) {
        lemma_failures_from_bounds(replies, from + 1, limit);
    }
}

/// A run never makes more requests than the budget allows and never
/// emits more than one outcome; it has emitted one exactly when it ended
/// in a terminal state; and it takes no longer than the budget times the
/// sum of poll interval and request timeout.
pub proof fn lemma_run_is_bounded(config: ProbeConfig, replies: Seq<ProbeReply>)
    ensures
        spec_run(config, replies).attempts <= config.max_attempts,
        spec_run(config, replies).attempts <= replies.len(),
        spec_run(config, replies).emitted.len() <= 1,
        spec_run(config, replies).emitted.len() == 1 <==> spec_run(config, replies).state.terminal(),
        spec_run(config, replies).slept_ms <= config.spec_budget_ms(),
        spec_run(config, replies).longest_ms(config) <= config.spec_worst_case_ms(),
{
    let limit = replies_in_reach(config, replies);
    lemma_failures_from_bounds(replies, 0, limit);
    let run = spec_run(config, replies);
    let failed = failures_from(replies, 0, limit);
    let attempts = run.attempts as int;
    let max = config.max_attempts as int;
    let interval = config.interval_ms as int;
    let timeout = config.request_timeout_ms as int;
    assert(failed * interval <= max * interval) by (nonlinear_arith)
        requires
            0 <= failed <= max,
            0 <= interval,
    ;
    assert(attempts * timeout + failed * interval <= max * (interval + timeout))
        by (nonlinear_arith)
        requires
            0 <= failed <= max,
            0 <= attempts <= max,
            0 <= interval,
            0 <= timeout,
    ;
}

/// A script that holds a reply for every attempt of the budget, or a
/// healthy reply among those that are reached, is enough to bring the
/// prober to a terminal state and so to exactly one outcome.
pub proof fn lemma_complete_script_settles(config: ProbeConfig, replies: Seq<ProbeReply>)
    requires
        replies.len() >= config.max_attempts || exists|i: int|
            0 <= i < replies_in_reach(config, replies) && is_healthy(#[trigger] replies[i]),
    ensures
        spec_run(config, replies).state.terminal(),
        spec_run(config, replies).emitted.len() == 1,
{
    let limit = replies_in_reach(config, replies);
    if replies.len() < config.max_attempts {
        let i = choose|i: int| 0 <= i < limit && is_healthy(#[trigger] replies[i]);
        lemma_stops_at_healthy(replies, 0, limit, i);
    }
}

proof fn lemma_stops_at_healthy(replies: Seq<ProbeReply>, from: int, limit: int, i: int)
    requires
        from <= i < limit,
        is_healthy(replies[i]),
    ensures
        failures_from(replies, from, limit) <= i,
    decreases limit - from,
{
    if !(from >= limit || is_healthy(replies[from])) {
        lemma_stops_at_healthy(replies, from + 1, limit, i);
    }
}

/// A healthy reply after `failed` replies that are not, all within the
/// budget, brings Ready after exactly `failed + 1` requests and `failed`
/// pauses.
pub proof fn lemma_ready_at_first_healthy(
    config: ProbeConfig,
    replies: Seq<ProbeReply>,
    failed: int,
)
    requires
        0 <= failed < replies.len(),
        failed < config.max_attempts,
        forall|i: int| 0 <= i < failed ==> !is_healthy(#[trigger] replies[i]),
        is_healthy(replies[failed]),
    ensures
        spec_run(config, replies) == (ProbeRunView {
            state: ProbeState::Ready,
            emitted: seq![OutcomeView::Ready],
            attempts: (failed + 1) as nat,
            slept_ms: (failed * config.interval_ms) as nat,
        }),
{
    let limit = replies_in_reach(config, replies);
    lemma_none_before(replies, 0, limit, failed);
    lemma_stops_at_healthy(replies, 0, limit, failed);
}

/// A backend that is not found healthy by any request of the budget
/// brings the timeout Error after exactly as many requests as the budget
/// holds.
pub proof fn lemma_fails_when_none_healthy(config: ProbeConfig, replies: Seq<ProbeReply>)
    requires
        replies.len() >= config.max_attempts,
        forall|i: int| 0 <= i < config.max_attempts ==> !is_healthy(#[trigger] replies[i]),
    ensures
        spec_run(config, replies) == (ProbeRunView {
            state: ProbeState::Failed,
            emitted: seq![OutcomeView::Error(config.spec_timeout_message())],
            attempts: config.max_attempts as nat,
            slept_ms: config.spec_budget_ms(),
        }),
{
    let limit = replies_in_reach(config, replies);
    lemma_none_before(replies, 0, limit, limit);
    lemma_failures_from_bounds(replies, 0, limit);
}

/// A healthy reply is a reachable one, and a missing response reads as
/// neither.
pub proof fn lemma_healthy_is_reachable(reply: ProbeReply)
    ensures
        is_healthy(reply) ==> spec_reachable(reply@),
        reply is NoResponse ==> !is_healthy(reply) && !spec_reachable(reply@),
        spec_classify(reply@) is Unreachable <==> reply is NoResponse,
{
}

proof fn lemma_none_before(replies: Seq<ProbeReply>, from: int, limit: int, n: int)
    requires
        0 <= from <= n <= limit,
        forall|i: int| 0 <= i < n ==> !is_healthy(#[trigger] replies[i]),
    ensures
        failures_from(replies, from, limit) >= n,
    decreases limit - from,
{
    if from < n {
        lemma_none_before(replies, from + 1, limit, n);
    } else {
        lemma_failures_from_bounds(replies, from, limit);
    }
}

} // verus!
