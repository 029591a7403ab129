//! The system's finite state machine: its states and events, the table of
//! allowed transitions with their guards, and the context the guards read.

use vstd::prelude::*;

use crate::config::metadata::Metadata;
use crate::text::{
    bool_string, bool_text, concat, decimal, decimal_string, owned, signed_decimal, signed_decimal_string,
};
use crate::utils::clock::now_millis;
use crate::utils::error::ModbusError;

verus! {

/// The states the system moves through.
#[derive(Debug, Clone, Copy, PartialEq, Eq, Hash, Structural)]
pub enum SystemState {
    /// Initial state when the system starts.
    Initializing,
    /// Reading data from all configured devices.
    ReadingDevices,
    /// Reading GPS data.
    ReadingGPS,
    /// Testing external connections.
    TestingConnection,
    /// Fully operational and ready to send data.
    OperationalReady,
    /// Sending data to the telemetry service.
    SendingData,
    /// Error state, which asks for recovery.
    Error,
    /// Graceful shutdown.
    Shutdown,
}

/// The events that drive the state machine.
#[derive(Debug, Clone, Copy, PartialEq, Eq, Hash, Structural)]
pub enum StateEvent {
    InitComplete,
    DevicesReadSuccess,
    DevicesReadFailure,
    GPSReadSuccess,
    GPSReadFailure,
    ConnectionTestSuccess,
    ConnectionTestFailure,
    ReadyToSend,
    DataSentSuccess,
    DataSendFailure,
    RecoverableError,
    FatalError,
    ShutdownRequested,
}

/// The display name of a state.
pub open spec fn state_name(s: SystemState) -> Seq<char> {
    match s {
        SystemState::Initializing => "Initializing"@,
        SystemState::ReadingDevices => "Reading Devices"@,
        SystemState::ReadingGPS => "Reading GPS"@,
        SystemState::TestingConnection => "Testing Connection"@,
        SystemState::OperationalReady => "Operational Ready"@,
        SystemState::SendingData => "Sending Data"@,
        SystemState::Error => "Error"@,
        SystemState::Shutdown => "Shutdown"@,
    }
}

/// The variant name of a state, as its `Debug` form shows it.
pub open spec fn state_debug_name(s: SystemState) -> Seq<char> {
    match s {
        SystemState::Initializing => "Initializing"@,
        SystemState::ReadingDevices => "ReadingDevices"@,
        SystemState::ReadingGPS => "ReadingGPS"@,
        SystemState::TestingConnection => "TestingConnection"@,
        SystemState::OperationalReady => "OperationalReady"@,
        SystemState::SendingData => "SendingData"@,
        SystemState::Error => "Error"@,
        SystemState::Shutdown => "Shutdown"@,
    }
}

/// The display name of an event.
pub open spec fn event_name(e: StateEvent) -> Seq<char> {
    match e {
        StateEvent::InitComplete => "Init Complete"@,
        StateEvent::DevicesReadSuccess => "Devices Read Success"@,
        StateEvent::DevicesReadFailure => "Devices Read Failure"@,
        StateEvent::GPSReadSuccess => "GPS Read Success"@,
        StateEvent::GPSReadFailure => "GPS Read Failure"@,
        StateEvent::ConnectionTestSuccess => "Connection Test Success"@,
        StateEvent::ConnectionTestFailure => "Connection Test Failure"@,
        StateEvent::ReadyToSend => "Ready to Send"@,
        StateEvent::DataSentSuccess => "Data Sent Success"@,
        StateEvent::DataSendFailure => "Data Send Failure"@,
        StateEvent::RecoverableError => "Recoverable Error"@,
        StateEvent::FatalError => "Fatal Error"@,
        StateEvent::ShutdownRequested => "Shutdown Requested"@,
    }
}

impl SystemState {
    /// The display name of this state.
    pub fn to_string(&self) -> (r: String)
        ensures
            r@ == state_name(*self),
    {
        match self {
            SystemState::Initializing => owned("Initializing"),
            SystemState::ReadingDevices => owned("Reading Devices"),
            SystemState::ReadingGPS => owned("Reading GPS"),
            SystemState::TestingConnection => owned("Testing Connection"),
            SystemState::OperationalReady => owned("Operational Ready"),
            SystemState::SendingData => owned("Sending Data"),
            SystemState::Error => owned("Error"),
            SystemState::Shutdown => owned("Shutdown"),
        }
    }

    /// The variant name of this state.
    pub fn debug_name(&self) -> (r: String)
        ensures
            r@ == state_debug_name(*self),
    {
        match self {
            SystemState::Initializing => owned("Initializing"),
            SystemState::ReadingDevices => owned("ReadingDevices"),
            SystemState::ReadingGPS => owned("ReadingGPS"),
            SystemState::TestingConnection => owned("TestingConnection"),
            SystemState::OperationalReady => owned("OperationalReady"),
            SystemState::SendingData => owned("SendingData"),
            SystemState::Error => owned("Error"),
            SystemState::Shutdown => owned("Shutdown"),
        }
    }
}

impl StateEvent {
    /// The display name of this event.
    pub fn to_string(&self) -> (r: String)
        ensures
            r@ == event_name(*self),
    {
        match self {
            StateEvent::InitComplete => owned("Init Complete"),
            StateEvent::DevicesReadSuccess => owned("Devices Read Success"),
            StateEvent::DevicesReadFailure => owned("Devices Read Failure"),
            StateEvent::GPSReadSuccess => owned("GPS Read Success"),
            StateEvent::GPSReadFailure => owned("GPS Read Failure"),
            StateEvent::ConnectionTestSuccess => owned("Connection Test Success"),
            StateEvent::ConnectionTestFailure => owned("Connection Test Failure"),
            StateEvent::ReadyToSend => owned("Ready to Send"),
            StateEvent::DataSentSuccess => owned("Data Sent Success"),
            StateEvent::DataSendFailure => owned("Data Send Failure"),
            StateEvent::RecoverableError => owned("Recoverable Error"),
            StateEvent::FatalError => owned("Fatal Error"),
            StateEvent::ShutdownRequested => owned("Shutdown Requested"),
        }
    }
}

/// The system's state together with what the guards and handlers read.
#[derive(Debug)]
pub struct StateContext {
    pub current_state: SystemState,
    /// The state before the last change.
    pub previous_state: Option<SystemState>,
    /// When the state last changed, in milliseconds since the Unix epoch.
    pub last_transition: i64,
    /// Retry attempts in the current state.
    pub retry_count: u32,
    /// Retries allowed before giving up.
    pub max_retries: u32,
    pub devices_ready: bool,
    pub gps_ready: bool,
    pub connection_ready: bool,
    pub last_error: Option<String>,
    /// State-specific notes.
    pub metadata: Metadata,
}

/// The views of an optional string.
pub open spec fn opt_view(s: Option<String>) -> Option<Seq<char>> {
    match s {
        Some(v) => Some(v@),
        None => None,
    }
}

/// Two contexts hold the same values.
pub open spec fn same_context(a: StateContext, b: StateContext) -> bool {
    &&& a.current_state == b.current_state
    &&& a.previous_state == b.previous_state
    &&& a.last_transition == b.last_transition
    &&& a.retry_count == b.retry_count
    &&& a.max_retries == b.max_retries
    &&& a.devices_ready == b.devices_ready
    &&& a.gps_ready == b.gps_ready
    &&& a.connection_ready == b.connection_ready
    &&& opt_view(a.last_error) == opt_view(b.last_error)
    &&& a.metadata.entries@ == b.metadata.entries@
}

/// Whether the retries allowed are used up.
pub open spec fn retries_exhausted(ctx: StateContext) -> bool {
    ctx.retry_count >= ctx.max_retries
}

impl Clone for StateContext {
    fn clone(&self) -> (r: Self)
        ensures
            same_context(r, *self),
    {
        let last_error = match &self.last_error {
            Some(s) => Some(s.clone()),
            None => None,
        };
        StateContext {
            current_state: self.current_state,
            previous_state: self.previous_state,
            last_transition: self.last_transition,
            retry_count: self.retry_count,
            max_retries: self.max_retries,
            devices_ready: self.devices_ready,
            gps_ready: self.gps_ready,
            connection_ready: self.connection_ready,
            last_error,
            metadata: self.metadata.clone(),
        }
    }
}

/// `now - since`, held to the range of `i64`.
pub open spec fn clamped_difference(now: i64, since: i64) -> i64 {
    let d = now - since;
    if d > i64::MAX {
        i64::MAX
    } else if d < i64::MIN {
        i64::MIN
    } else {
        d as i64
    }
}

/// Milliseconds from `since` to `now`, held to the range of `i64`.
pub fn elapsed_millis(now: i64, since: i64) -> (d: i64)
    ensures
        d == clamped_difference(now, since),
{
    match now.checked_sub(since) {
        Some(d) => d,
        None => {
            if now < since {
                i64::MIN
            } else {
                i64::MAX
            }
        },
    }
}

impl StateContext {
    /// A fresh context in `Initializing`, stamped with the present time.
    pub fn new(max_retries: u32) -> (c: Self)
        ensures
            c.current_state == SystemState::Initializing,
            c.previous_state is None,
            c.retry_count == 0,
            c.max_retries == max_retries,
            !c.devices_ready,
            !c.gps_ready,
            !c.connection_ready,
            c.last_error is None,
            c.metadata.entries@.len() == 0,
    {
        StateContext {
            current_state: SystemState::Initializing,
            previous_state: None,
            last_transition: now_millis(),
            retry_count: 0,
            max_retries,
            devices_ready: false,
            gps_ready: false,
            connection_ready: false,
            last_error: None,
            metadata: Metadata::new(),
        }
    }

    /// Resets the retry counter.
    pub fn reset_retries(&mut self)
        ensures
            *final(self) == (StateContext { retry_count: 0, ..*old(self) }),
    {
        self.retry_count = 0;
    }

    /// Counts one more retry.
    pub fn increment_retry(&mut self)
        requires
            old(self).retry_count < u32::MAX,
        ensures
            *final(self) == (StateContext { retry_count: (old(self).retry_count + 1) as u32, ..*old(self) }),
    {
        self.retry_count = self.retry_count + 1;
    }

    /// Whether the retries allowed are used up.
    pub fn is_max_retries_exceeded(&self) -> (b: bool)
        ensures
            b == retries_exhausted(*self),
    {
        self.retry_count >= self.max_retries
    }

    /// Records an error.
    pub fn set_error(&mut self, error: String)
        ensures
            *final(self) == (StateContext { last_error: Some(error), ..*old(self) }),
    {
        self.last_error = Some(error);
    }

    /// Forgets the last error.
    pub fn clear_error(&mut self)
        ensures
            *final(self) == (StateContext { last_error: None, ..*old(self) }),
    {
        self.last_error = None;
    }

    /// Milliseconds spent in the current state at `now`.
    pub fn time_in_state_at(&self, now: i64) -> (d: i64)
        ensures
            d == clamped_difference(now, self.last_transition),
    {
        elapsed_millis(now, self.last_transition)
    }

    /// Milliseconds spent in the current state so far, by the system clock.
    pub fn time_in_state(&self) -> (d: i64)
        ensures
            exists|now: i64| d == clamped_difference(now, self.last_transition),
    {
        self.time_in_state_at(now_millis())
    }
}

/// The conditions a guarded transition can demand.
#[derive(Debug, Clone, Copy, PartialEq, Eq, Structural)]
pub enum GuardCondition {
    /// The retries allowed are used up.
    MaxRetriesExceeded,
    /// Retries remain.
    RetriesRemaining,
    /// Devices were read and the connection test passed.
    DevicesAndConnectionReady,
    /// Devices have not been read.
    DevicesNotReady,
}

/// Whether `g` holds of `ctx`.
pub open spec fn guard_holds(g: GuardCondition, ctx: StateContext) -> bool {
    match g {
        GuardCondition::MaxRetriesExceeded => retries_exhausted(ctx),
        GuardCondition::RetriesRemaining => !retries_exhausted(ctx),
        GuardCondition::DevicesAndConnectionReady => ctx.devices_ready && ctx.connection_ready,
        GuardCondition::DevicesNotReady => !ctx.devices_ready,
    }
}

/// A condition on the context that a transition must meet.
#[derive(Debug, Clone)]
pub struct TransitionGuard {
    pub condition: GuardCondition,
    pub description: String,
}

impl TransitionGuard {
    pub fn new(condition: GuardCondition, description: &str) -> (g: Self)
        ensures
            g.condition == condition,
            g.description@ == description@,
    {
        TransitionGuard { condition, description: owned(description) }
    }

    /// Whether the guard lets `ctx` through.
    pub fn check(&self, ctx: &StateContext) -> (b: bool)
        ensures
            b == guard_holds(self.condition, *ctx),
    {
        match self.condition {
            GuardCondition::MaxRetriesExceeded => ctx.is_max_retries_exceeded(),
            GuardCondition::RetriesRemaining => !ctx.is_max_retries_exceeded(),
            GuardCondition::DevicesAndConnectionReady => ctx.devices_ready && ctx.connection_ready,
            GuardCondition::DevicesNotReady => !ctx.devices_ready,
        }
    }
}

/// A transition: on `event` in state `from`, move to `to` if the guard holds.
#[derive(Debug, Clone)]
pub struct StateTransition {
    pub from: SystemState,
    pub to: SystemState,
    pub event: StateEvent,
    pub guard: Option<TransitionGuard>,
}

/// A transition as a rule: source, event, target and the guard's condition.
pub type Rule = (SystemState, StateEvent, SystemState, Option<GuardCondition>);

/// The rule a transition stands for.
pub open spec fn rule_of(t: StateTransition) -> Rule {
    (t.from, t.event, t.to, match t.guard {
        Some(g) => Some(g.condition),
        None => None,
    })
}

/// The transitions of the system, in the order in which they are tried.
pub open spec fn transition_table() -> Seq<Rule> {
    seq![
        (SystemState::Initializing, StateEvent::InitComplete, SystemState::ReadingDevices, None),
        (SystemState::Initializing, StateEvent::FatalError, SystemState::Error, None),
        (SystemState::ReadingDevices, StateEvent::DevicesReadSuccess, SystemState::ReadingGPS, None),
        (SystemState::ReadingDevices, StateEvent::DevicesReadFailure, SystemState::Error, Some(GuardCondition::MaxRetriesExceeded)),
        (SystemState::ReadingDevices, StateEvent::RecoverableError, SystemState::ReadingDevices, Some(GuardCondition::RetriesRemaining)),
        (SystemState::ReadingGPS, StateEvent::GPSReadSuccess, SystemState::TestingConnection, None),
        (SystemState::ReadingGPS, StateEvent::GPSReadFailure, SystemState::TestingConnection, None),
        (SystemState::TestingConnection, StateEvent::ConnectionTestSuccess, SystemState::OperationalReady, None),
        (SystemState::TestingConnection, StateEvent::ConnectionTestFailure, SystemState::Error, Some(GuardCondition::MaxRetriesExceeded)),
        (SystemState::TestingConnection, StateEvent::RecoverableError, SystemState::TestingConnection, Some(GuardCondition::RetriesRemaining)),
        (SystemState::OperationalReady, StateEvent::ReadyToSend, SystemState::SendingData, Some(GuardCondition::DevicesAndConnectionReady)),
        (SystemState::OperationalReady, StateEvent::ShutdownRequested, SystemState::Shutdown, None),
        (SystemState::SendingData, StateEvent::DataSentSuccess, SystemState::OperationalReady, None),
        (SystemState::SendingData, StateEvent::DataSendFailure, SystemState::OperationalReady, None),
        (SystemState::SendingData, StateEvent::ShutdownRequested, SystemState::Shutdown, None),
        (SystemState::Error, StateEvent::RecoverableError, SystemState::ReadingDevices, Some(GuardCondition::DevicesNotReady)),
        (SystemState::Error, StateEvent::FatalError, SystemState::Shutdown, None),
        (SystemState::ReadingDevices, StateEvent::ShutdownRequested, SystemState::Shutdown, None),
        (SystemState::ReadingGPS, StateEvent::ShutdownRequested, SystemState::Shutdown, None),
        (SystemState::TestingConnection, StateEvent::ShutdownRequested, SystemState::Shutdown, None),
    ]
}

/// Whether `r` fires on `event` in context `ctx`.
pub open spec fn rule_applies(r: Rule, ctx: StateContext, event: StateEvent) -> bool {
    &&& r.0 == ctx.current_state
    &&& r.1 == event
    &&& match r.3 {
        Some(g) => guard_holds(g, ctx),
        None => true,
    }
}

/// The target of the first rule of `rules` that fires.
pub open spec fn first_applicable(rules: Seq<Rule>, ctx: StateContext, event: StateEvent) -> Option<SystemState>
    decreases rules.len(),
{
    if rules.len() == 0 {
        None
    } else if rule_applies(rules[0], ctx, event) {
        Some(rules[0].2)
    } else {
        first_applicable(rules.drop_first(), ctx, event)
    }
}

/// The state that `event` leads to from `ctx`, if any transition allows it.
pub open spec fn next_state(ctx: StateContext, event: StateEvent) -> Option<SystemState> {
    first_applicable(transition_table(), ctx, event)
}

/// Events whose success resets the retry counter when the state changes.
pub open spec fn resets_retries(event: StateEvent) -> bool {
    ||| event == StateEvent::DevicesReadSuccess
    ||| event == StateEvent::GPSReadSuccess
    ||| event == StateEvent::ConnectionTestSuccess
}

/// The text of a refused transition.
pub open spec fn refusal_text(s: SystemState, e: StateEvent) -> Seq<char> {
    "No valid transition from "@ + state_name(s) + " for event "@ + event_name(e)
}

/// How the state fields move on `event`: to the target of the transition
/// that fires, or nowhere when none does.
pub open spec fn moved(before: StateContext, after: StateContext, event: StateEvent) -> bool {
    match next_state(before, event) {
        Some(to) => {
            &&& after.current_state == to
            &&& after.previous_state == Some(before.current_state)
            &&& after.retry_count == (if to != before.current_state && resets_retries(event) {
                0
            } else {
                before.retry_count
            })
        },
        None => {
            &&& after.current_state == before.current_state
            &&& after.previous_state == before.previous_state
            &&& after.retry_count == before.retry_count
            &&& after.last_transition == before.last_transition
        },
    }
}

/// The fields a transition leaves alone are unchanged.
pub open spec fn flags_kept(before: StateContext, after: StateContext) -> bool {
    &&& after.max_retries == before.max_retries
    &&& after.devices_ready == before.devices_ready
    &&& after.gps_ready == before.gps_ready
    &&& after.connection_ready == before.connection_ready
    &&& after.last_error == before.last_error
    &&& after.metadata == before.metadata
}

/// `r` is the error of a refused transition from `s` on `e`.
pub open spec fn refused<T>(r: Result<T, ModbusError>, s: SystemState, e: StateEvent) -> bool {
    r matches Err(ModbusError::InvalidState(m)) && m@ == refusal_text(s, e)
}

/// `r` is `Ok(value)` when `event` fires from `before`, and the refusal otherwise.
pub open spec fn answered<T>(before: StateContext, event: StateEvent, r: Result<T, ModbusError>, value: T) -> bool {
    match next_state(before, event) {
        Some(_) => r == Ok::<T, ModbusError>(value),
        None => refused(r, before.current_state, event),
    }
}

/// What `transition` does: `after` and `r` follow from `before` and `event`
/// (the timestamp aside).
pub open spec fn transition_effect(
    before: StateContext,
    after: StateContext,
    event: StateEvent,
    r: Result<SystemState, ModbusError>,
) -> bool {
    &&& moved(before, after, event)
    &&& flags_kept(before, after)
    &&& match next_state(before, event) {
        Some(to) => r == Ok::<SystemState, ModbusError>(to),
        None => refused(r, before.current_state, event),
    }
}

/// The rules that a list of transitions stands for, in order.
pub open spec fn rules_of(ts: Seq<StateTransition>) -> Seq<Rule>
    decreases ts.len(),
{
    if ts.len() == 0 {
        Seq::empty()
    } else {
        rules_of(ts.drop_last()).push(rule_of(ts.last()))
    }
}

proof fn lemma_rules_of(ts: Seq<StateTransition>)
    ensures
        rules_of(ts).len() == ts.len(),
        forall|i: int| 0 <= i < ts.len() ==> #[trigger] rules_of(ts)[i] == rule_of(ts[i]),
    decreases ts.len(),
{
    if ts.len() > 0 {
        lemma_rules_of(ts.drop_last());
        assert forall|i: int| 0 <= i < ts.len() implies #[trigger] rules_of(ts)[i] == rule_of(ts[i]) by {
            if i < ts.len() - 1 {
                assert(ts.drop_last()[i] == ts[i]);
            }
        }
    }
}

/// The state machine: the context and the transition table it consults.
pub struct SystemStateMachine {
    context: StateContext,
    transitions: Vec<StateTransition>,
}

/// Appends a transition to `v`.
fn add_rule(
    v: &mut Vec<StateTransition>,
    from: SystemState,
    event: StateEvent,
    to: SystemState,
    guard: Option<(GuardCondition, &str)>,
)
    ensures
        rules_of(final(v)@) == rules_of(old(v)@).push((from, event, to, match guard {
            Some(g) => Some(g.0),
            None => None,
        })),
{
    let guard = match guard {
        Some(g) => Some(TransitionGuard::new(g.0, g.1)),
        None => None,
    };
    v.push(StateTransition { from, to, event, guard });
    proof {
        assert(final(v)@.drop_last() =~= old(v)@);
    }
}

impl SystemStateMachine {
    /// The transitions held are those of `transition_table`.
    pub closed spec fn wf(&self) -> bool {
        rules_of(self.transitions@) == transition_table()
    }

    /// The context of the machine.
    pub closed spec fn ctx(&self) -> StateContext {
        self.context
    }

    /// A machine in `Initializing` that allows `max_retries` retries.
    pub fn new(max_retries: u32) -> (m: Self)
        ensures
            m.wf(),
            m.ctx().current_state == SystemState::Initializing,
            m.ctx().previous_state is None,
            m.ctx().retry_count == 0,
            m.ctx().max_retries == max_retries,
            !m.ctx().devices_ready,
            !m.ctx().gps_ready,
            !m.ctx().connection_ready,
            m.ctx().last_error is None,
            m.ctx().metadata.entries@.len() == 0,
    {
        SystemStateMachine { context: StateContext::new(max_retries), transitions: Self::build_transitions() }
    }

    /// The transitions of `transition_table`, with their descriptions.
    fn build_transitions() -> (v: Vec<StateTransition>)
        ensures
            rules_of(v@) == transition_table(),
    {
        let mut v: Vec<StateTransition> = Vec::new();
        add_rule(&mut v, SystemState::Initializing, StateEvent::InitComplete, SystemState::ReadingDevices, None);
        add_rule(&mut v, SystemState::Initializing, StateEvent::FatalError, SystemState::Error, None);
        add_rule(&mut v, SystemState::ReadingDevices, StateEvent::DevicesReadSuccess, SystemState::ReadingGPS, None);
        add_rule(&mut v, SystemState::ReadingDevices, StateEvent::DevicesReadFailure, SystemState::Error,
            Some((GuardCondition::MaxRetriesExceeded, "Max retries exceeded for device reading")));
        add_rule(&mut v, SystemState::ReadingDevices, StateEvent::RecoverableError, SystemState::ReadingDevices,
            Some((GuardCondition::RetriesRemaining, "Can retry device reading")));
        add_rule(&mut v, SystemState::ReadingGPS, StateEvent::GPSReadSuccess, SystemState::TestingConnection, None);
        add_rule(&mut v, SystemState::ReadingGPS, StateEvent::GPSReadFailure, SystemState::TestingConnection, None);
        add_rule(&mut v, SystemState::TestingConnection, StateEvent::ConnectionTestSuccess, SystemState::OperationalReady, None);
        add_rule(&mut v, SystemState::TestingConnection, StateEvent::ConnectionTestFailure, SystemState::Error,
            Some((GuardCondition::MaxRetriesExceeded, "Max connection test retries exceeded")));
        add_rule(&mut v, SystemState::TestingConnection, StateEvent::RecoverableError, SystemState::TestingConnection,
            Some((GuardCondition::RetriesRemaining, "Can retry connection test")));
        add_rule(&mut v, SystemState::OperationalReady, StateEvent::ReadyToSend, SystemState::SendingData,
            Some((GuardCondition::DevicesAndConnectionReady, "Devices and connection must be ready")));
        add_rule(&mut v, SystemState::OperationalReady, StateEvent::ShutdownRequested, SystemState::Shutdown, None);
        add_rule(&mut v, SystemState::SendingData, StateEvent::DataSentSuccess, SystemState::OperationalReady, None);
        add_rule(&mut v, SystemState::SendingData, StateEvent::DataSendFailure, SystemState::OperationalReady, None);
        add_rule(&mut v, SystemState::SendingData, StateEvent::ShutdownRequested, SystemState::Shutdown, None);
        add_rule(&mut v, SystemState::Error, StateEvent::RecoverableError, SystemState::ReadingDevices,
            Some((GuardCondition::DevicesNotReady, "Retry device reading after error")));
        add_rule(&mut v, SystemState::Error, StateEvent::FatalError, SystemState::Shutdown, None);
        add_rule(&mut v, SystemState::ReadingDevices, StateEvent::ShutdownRequested, SystemState::Shutdown, None);
        add_rule(&mut v, SystemState::ReadingGPS, StateEvent::ShutdownRequested, SystemState::Shutdown, None);
        add_rule(&mut v, SystemState::TestingConnection, StateEvent::ShutdownRequested, SystemState::Shutdown, None);
        v
    }

    /// The target of the first transition that fires on `event`.
    fn find_target(&self, event: StateEvent) -> (r: Option<SystemState>)
        requires
            self.wf(),
        ensures
            r == next_state(self.ctx(), event),
    {
        proof {
            lemma_rules_of(self.transitions@);
            assert(transition_table().skip(0) =~= transition_table());
        }
        let mut i: usize = 0;
        while i < self.transitions.len()
            invariant
                self.wf(),
                i <= self.transitions@.len(),
                rules_of(self.transitions@).len() == self.transitions@.len(),
                forall|k: int| 0 <= k < self.transitions@.len() ==> #[trigger] rules_of(self.transitions@)[k] == rule_of(self.transitions@[k]),
                next_state(self.ctx(), event) == first_applicable(transition_table().skip(i as int), self.ctx(), event),
            decreases self.transitions.len() - i,
        {
            let t = &self.transitions[i];
            proof {
                let rest = transition_table().skip(i as int);
                assert(rest[0] == rules_of(self.transitions@)[i as int]);
                assert(rest.drop_first() =~= transition_table().skip(i + 1));
            }
            let guard_ok = match &t.guard {
                Some(g) => g.check(&self.context),
                None => true,
            };
            if t.from == self.context.current_state && t.event == event && guard_ok {
                return Some(t.to);
            }
            i += 1;
        }
        None
    }

    /// Moves on `event` at time `now`, as `transition_table` allows.
    pub fn transition_at(&mut self, event: StateEvent, now: i64) -> (r: Result<SystemState, ModbusError>)
        requires
            old(self).wf(),
        ensures
            final(self).wf(),
            transition_effect(old(self).ctx(), final(self).ctx(), event, r),
            r is Ok ==> final(self).ctx().last_transition == now,
    {
        let current = self.context.current_state;
        match self.find_target(event) {
            Some(to) => {
                self.context.previous_state = Some(current);
                self.context.current_state = to;
                self.context.last_transition = now;
                if to != current && (event == StateEvent::DevicesReadSuccess || event == StateEvent::GPSReadSuccess
                    || event == StateEvent::ConnectionTestSuccess) {
                    self.context.retry_count = 0;
                }
                Ok(to)
            },
            None => {
                let from_name = current.to_string();
                let event_text = event.to_string();
                let a = concat("No valid transition from ", from_name.as_str());
                let b = concat(a.as_str(), " for event ");
                let m = concat(b.as_str(), event_text.as_str());
                Err(ModbusError::InvalidState(m))
            },
        }
    }

    /// Moves on `event`, stamping the change with the system clock.
    pub fn transition(&mut self, event: StateEvent) -> (r: Result<SystemState, ModbusError>)
        requires
            old(self).wf(),
        ensures
            final(self).wf(),
            transition_effect(old(self).ctx(), final(self).ctx(), event, r),
    {
        let now = now_millis();
        self.transition_at(event, now)
    }

    /// The current state.
    pub fn current_state(&self) -> (s: SystemState)
        ensures
            s == self.ctx().current_state,
    {
        self.context.current_state
    }

    /// A copy of the context.
    pub fn get_context(&self) -> (c: StateContext)
        ensures
            same_context(c, self.ctx()),
    {
        self.context.clone()
    }

    /// The context, for the caller to change.
    pub fn context_mut(&mut self) -> (c: &mut StateContext)
        requires
            old(self).wf(),
        ensures
            *c == old(self).ctx(),
            final(self).wf(),
            final(self).ctx() == *final(c),
    {
        &mut self.context
    }

    /// Whether the system is ready or sending.
    pub fn is_operational(&self) -> (b: bool)
        ensures
            b == (self.ctx().current_state == SystemState::OperationalReady || self.ctx().current_state
                == SystemState::SendingData),
    {
        self.context.current_state == SystemState::OperationalReady || self.context.current_state == SystemState::SendingData
    }

    /// Whether the system is in the error state.
    pub fn is_error(&self) -> (b: bool)
        ensures
            b == (self.ctx().current_state == SystemState::Error),
    {
        self.context.current_state == SystemState::Error
    }

    /// Whether the system is shutting down.
    pub fn is_shutdown(&self) -> (b: bool)
        ensures
            b == (self.ctx().current_state == SystemState::Shutdown),
    {
        self.context.current_state == SystemState::Shutdown
    }

    /// Puts the machine in `new_state` at time `now`, whatever the table says.
    pub fn force_state_at(&mut self, new_state: SystemState, now: i64)
        requires
            old(self).wf(),
        ensures
            final(self).wf(),
            same_context(final(self).ctx(), StateContext {
                current_state: new_state,
                previous_state: Some(old(self).ctx().current_state),
                last_transition: now,
                ..old(self).ctx()
            }),
    {
        self.context.previous_state = Some(self.context.current_state);
        self.context.current_state = new_state;
        self.context.last_transition = now;
    }

    /// Puts the machine in `new_state`, stamped with the system clock.
    pub fn force_state(&mut self, new_state: SystemState)
        requires
            old(self).wf(),
        ensures
            final(self).wf(),
            same_context(final(self).ctx(), StateContext {
                current_state: new_state,
                previous_state: Some(old(self).ctx().current_state),
                last_transition: final(self).ctx().last_transition,
                ..old(self).ctx()
            }),
    {
        let now = now_millis();
        self.force_state_at(new_state, now);
    }
}

/// No event leads out of `Shutdown`.
pub proof fn lemma_shutdown_is_terminal(ctx: StateContext, event: StateEvent)
    requires
        ctx.current_state == SystemState::Shutdown,
    ensures
        next_state(ctx, event) is None,
{
    reveal_with_fuel(first_applicable, 21);
}

/// A device read failure leads to `Error` once the retries are used up and is
/// refused before; a recoverable error retries the read while retries remain.
pub proof fn lemma_device_retry_guards(ctx: StateContext)
    requires
        ctx.current_state == SystemState::ReadingDevices,
    ensures
        next_state(ctx, StateEvent::DevicesReadFailure) == (if retries_exhausted(ctx) {
            Some(SystemState::Error)
        } else {
            None
        }),
        next_state(ctx, StateEvent::RecoverableError) == (if retries_exhausted(ctx) {
            None
        } else {
            Some(SystemState::ReadingDevices)
        }),
{
    reveal_with_fuel(first_applicable, 21);
}

/// A connection test failure leads to `Error` once the retries are used up
/// and is refused before; a recoverable error repeats the test while retries
/// remain.
pub proof fn lemma_connection_retry_guards(ctx: StateContext)
    requires
        ctx.current_state == SystemState::TestingConnection,
    ensures
        next_state(ctx, StateEvent::ConnectionTestFailure) == (if retries_exhausted(ctx) {
            Some(SystemState::Error)
        } else {
            None
        }),
        next_state(ctx, StateEvent::RecoverableError) == (if retries_exhausted(ctx) {
            None
        } else {
            Some(SystemState::TestingConnection)
        }),
{
    reveal_with_fuel(first_applicable, 21);
}

/// Data is sent only when the devices were read and the connection test passed.
pub proof fn lemma_send_requires_readiness(ctx: StateContext)
    requires
        ctx.current_state == SystemState::OperationalReady,
    ensures
        next_state(ctx, StateEvent::ReadyToSend) == (if ctx.devices_ready && ctx.connection_ready {
            Some(SystemState::SendingData)
        } else {
            None
        }),
{
    reveal_with_fuel(first_applicable, 21);
}

/// From `Error`, a recoverable error goes back to reading devices when they
/// have not been read, and a fatal error shuts the system down.
pub proof fn lemma_error_recovery(ctx: StateContext)
    requires
        ctx.current_state == SystemState::Error,
    ensures
        next_state(ctx, StateEvent::RecoverableError) == (if ctx.devices_ready {
            None
        } else {
            Some(SystemState::ReadingDevices)
        }),
        next_state(ctx, StateEvent::FatalError) == Some(SystemState::Shutdown),
{
    reveal_with_fuel(first_applicable, 21);
}

/// A failed GPS read is not fatal: the system goes on to test connections.
pub proof fn lemma_gps_failure_not_fatal(ctx: StateContext)
    requires
        ctx.current_state == SystemState::ReadingGPS,
    ensures
        next_state(ctx, StateEvent::GPSReadFailure) == Some(SystemState::TestingConnection),
        next_state(ctx, StateEvent::GPSReadSuccess) == Some(SystemState::TestingConnection),
{
    reveal_with_fuel(first_applicable, 21);
}

/// A shutdown request is honoured from every state past initialization
/// except `Error` and `Shutdown`.
pub proof fn lemma_shutdown_request_honoured(ctx: StateContext)
    requires
        ctx.current_state == SystemState::ReadingDevices || ctx.current_state == SystemState::ReadingGPS
            || ctx.current_state == SystemState::TestingConnection || ctx.current_state
            == SystemState::OperationalReady || ctx.current_state == SystemState::SendingData,
    ensures
        next_state(ctx, StateEvent::ShutdownRequested) == Some(SystemState::Shutdown),
{
    reveal_with_fuel(first_applicable, 21);
}

/// No two transitions share a source state and an event, so the order of the
/// table does not matter.
pub proof fn lemma_transitions_unambiguous()
    ensures
        forall|i: int, j: int|
            0 <= i < j < transition_table().len() ==> (#[trigger] transition_table()[i]).0 != (
            #[trigger] transition_table()[j]).0 || transition_table()[i].1 != transition_table()[j].1,
{
    let t = transition_table();
    assert forall|i: int, j: int| 0 <= i < j < t.len() implies (#[trigger] t[i]).0 != (#[trigger] t[j]).0
        || t[i].1 != t[j].1 by {
        assert(0 <= i < 20 && 0 <= j < 20);
    }
}

/// The target of a transition depends only on the state, the event, whether
/// retries are used up and the two readiness flags.
pub proof fn lemma_next_state_depends_on(a: StateContext, b: StateContext, event: StateEvent)
    requires
        a.current_state == b.current_state,
        retries_exhausted(a) == retries_exhausted(b),
        a.devices_ready == b.devices_ready,
        a.connection_ready == b.connection_ready,
    ensures
        next_state(a, event) == next_state(b, event),
{
    reveal_with_fuel(first_applicable, 21);
}

/// An optional state as `Debug` writes it.
pub open spec fn opt_state_debug(s: Option<SystemState>) -> Seq<char> {
    match s {
        Some(x) => "Some("@ + state_debug_name(x) + ")"@,
        None => "None"@,
    }
}

/// A span of `ms` milliseconds as chrono's `TimeDelta` writes itself with
/// `Debug`: whole seconds rounded down, and the nanoseconds left over.
pub open spec fn duration_debug(ms: int) -> Seq<char> {
    "TimeDelta { secs: "@ + signed_decimal(ms / 1000) + ", nanos: "@ + decimal(((ms % 1000) * 1000000) as nat)
        + " }"@
}

/// The one-line summary of `ctx`, `elapsed` milliseconds after its last change.
pub open spec fn summary_text(ctx: StateContext, elapsed: int) -> Seq<char> {
    "State: "@ + state_name(ctx.current_state) + " | Previous: "@ + opt_state_debug(ctx.previous_state)
        + " | Time in state: "@ + duration_debug(elapsed) + " | Retries: "@ + decimal(ctx.retry_count as nat) + "/"@
        + decimal(ctx.max_retries as nat) + " | Ready: D:"@ + bool_text(ctx.devices_ready) + " G:"@ + bool_text(
        ctx.gps_ready,
    ) + " C:"@ + bool_text(ctx.connection_ready)
}

impl SystemState {
    /// This state wrapped in `Some`, as `Debug` writes it.
    fn some_debug(s: Option<SystemState>) -> (r: String)
        ensures
            r@ == opt_state_debug(s),
    {
        match s {
            Some(x) => {
                let name = x.debug_name();
                let a = concat("Some(", name.as_str());
                concat(a.as_str(), ")")
            },
            None => owned("None"),
        }
    }
}

/// `duration_debug(ms)`.
fn duration_string(ms: i64) -> (r: String)
    ensures
        r@ == duration_debug(ms as int),
{
    let (secs, rest): (i64, u64) = if ms >= 0 {
        let u = ms as u64;
        ((u / 1000) as i64, u % 1000)
    } else {
        let u: u64 = (0i128 - ms as i128) as u64;
        let q = u / 1000;
        let r = u % 1000;
        if r == 0 {
            (0i64 - q as i64, 0u64)
        } else {
            (0i64 - (q as i64) - 1, 1000 - r)
        }
    };
    proof {
        assert(secs == (ms as int) / 1000 && rest == (ms as int) % 1000);
    }
    let secs_text = signed_decimal_string(secs);
    let nanos_text = decimal_string(rest * 1000000);
    let a = concat("TimeDelta { secs: ", secs_text.as_str());
    let b = concat(a.as_str(), ", nanos: ");
    let c = concat(b.as_str(), nanos_text.as_str());
    concat(c.as_str(), " }")
}

impl SystemStateMachine {
    /// The one-line summary of the context at time `now`.
    pub fn state_summary_at(&self, now: i64) -> (r: String)
        ensures
            r@ == summary_text(self.ctx(), clamped_difference(now, self.ctx().last_transition) as int),
    {
        let c = &self.context;
        let name = c.current_state.to_string();
        let prev = SystemState::some_debug(c.previous_state);
        let span = duration_string(c.time_in_state_at(now));
        let retries = decimal_string(c.retry_count as u64);
        let max = decimal_string(c.max_retries as u64);
        let d = bool_string(c.devices_ready);
        let g = bool_string(c.gps_ready);
        let k = bool_string(c.connection_ready);
        let s = concat("State: ", name.as_str());
        let s = concat(s.as_str(), " | Previous: ");
        let s = concat(s.as_str(), prev.as_str());
        let s = concat(s.as_str(), " | Time in state: ");
        let s = concat(s.as_str(), span.as_str());
        let s = concat(s.as_str(), " | Retries: ");
        let s = concat(s.as_str(), retries.as_str());
        let s = concat(s.as_str(), "/");
        let s = concat(s.as_str(), max.as_str());
        let s = concat(s.as_str(), " | Ready: D:");
        let s = concat(s.as_str(), d.as_str());
        let s = concat(s.as_str(), " G:");
        let s = concat(s.as_str(), g.as_str());
        let s = concat(s.as_str(), " C:");
        concat(s.as_str(), k.as_str())
    }

    /// The one-line summary of the context, timed by the system clock.
    pub fn get_state_summary(&self) -> (r: String)
        ensures
            exists|now: i64| r@ == summary_text(self.ctx(), clamped_difference(now, self.ctx().last_transition) as int),
    {
        self.state_summary_at(now_millis())
    }
}

} // verus!
