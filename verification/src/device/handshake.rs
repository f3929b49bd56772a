//! Deterministic first-connect state machine (the official app's flow).

use vstd::prelude::*;

verus! {

#[derive(Debug, Clone, Copy, PartialEq, Eq, Structural)]
pub enum Phase {
    Connecting,
    DiscoveringServices,
    EnablingNotifications,
    AwaitingInitState,
    Ready,
    TimedOut,
}

#[derive(Debug, Clone, Copy, PartialEq, Eq, Structural)]
pub enum InitState {
    Initial,
    AlreadyConfigured,
}

#[derive(Debug, Clone, Copy, PartialEq, Eq, Structural)]
pub enum BindAction {
    RelieveBind,
    PreserveExisting,
}

pub struct Handshake {
    phase: Phase,
    timeout_ms: u64,
    elapsed_ms: u64,
    bind_action: Option<BindAction>,
}

pub struct HandshakeView {
    pub phase: Phase,
    pub timeout_ms: u64,
    pub elapsed_ms: u64,
    pub bind_action: Option<BindAction>,
}

/// Bytes written to ask the device for its init state.
pub open spec fn init_payload_bytes() -> Seq<u8> {
    seq![0x23u8, 0x49, 0x6E, 0x69, 0x74, 0x53, 0x74, 0x61, 0x74, 0x65, 0x3A]
}

/// Bind action taken for an init state.
pub open spec fn bind_for(state: InitState) -> BindAction {
    match state {
        InitState::Initial => BindAction::RelieveBind,
        InitState::AlreadyConfigured => BindAction::PreserveExisting,
    }
}

/// The phase reached on an event if the flow is in phase `from`, else unchanged.
pub open spec fn advance(v: HandshakeView, from: Phase, to: Phase) -> HandshakeView {
    if v.phase == from { HandshakeView { phase: to, ..v } } else { v }
}

/// `a + b`, capped at `u64::MAX`.
pub open spec fn saturating_sum(a: u64, b: u64) -> u64 {
    if a + b > u64::MAX { u64::MAX } else { (a + b) as u64 }
}

/// A fresh flow with the given timeout.
pub open spec fn fresh_flow(timeout_ms: u64) -> HandshakeView {
    HandshakeView { phase: Phase::Connecting, timeout_ms, elapsed_ms: 0, bind_action: None }
}

/// The flow after the init state arrives: a flow awaiting it becomes ready
/// with the bind action the state calls for; any other flow is unchanged.
pub open spec fn receive_init_state(v: HandshakeView, state: InitState) -> HandshakeView {
    if v.phase == Phase::AwaitingInitState {
        HandshakeView { phase: Phase::Ready, bind_action: Some(bind_for(state)), ..v }
    } else {
        v
    }
}

/// The flow after `elapsed_ms` more milliseconds: the total saturates, and a
/// flow that is not ready times out once the total reaches the timeout.
pub open spec fn elapse(v: HandshakeView, elapsed_ms: u64) -> HandshakeView {
    let total = saturating_sum(v.elapsed_ms, elapsed_ms);
    HandshakeView {
        phase: if v.phase != Phase::Ready && total >= v.timeout_ms { Phase::TimedOut } else { v.phase },
        elapsed_ms: total,
        ..v
    }
}

/// Something that happens to a connecting flow.
#[derive(Debug, Clone, Copy, PartialEq, Eq, Structural)]
pub enum HandshakeEvent {
    Connected,
    ServicesDiscovered,
    NotificationsEnabled,
    InitStateReceived(InitState),
    Elapsed(u64),
}

/// The flow after one event, as the handler of that event leaves it.
pub open spec fn handshake_step(v: HandshakeView, e: HandshakeEvent) -> HandshakeView {
    match e {
        HandshakeEvent::Connected => advance(v, Phase::Connecting, Phase::DiscoveringServices),
        HandshakeEvent::ServicesDiscovered => advance(v, Phase::DiscoveringServices, Phase::EnablingNotifications),
        HandshakeEvent::NotificationsEnabled => advance(v, Phase::EnablingNotifications, Phase::AwaitingInitState),
        HandshakeEvent::InitStateReceived(s) => receive_init_state(v, s),
        HandshakeEvent::Elapsed(ms) => elapse(v, ms),
    }
}

/// The flow after a sequence of events, in order.
pub open spec fn handshake_run(v: HandshakeView, events: Seq<HandshakeEvent>) -> HandshakeView
    decreases events.len(),
{
    if events.len() == 0 {
        v
    } else {
        handshake_step(handshake_run(v, events.drop_last()), events.last())
    }
}

/// The saturating sum of the elapsed times among `events`.
pub open spec fn total_elapsed(events: Seq<HandshakeEvent>) -> u64
    decreases events.len(),
{
    if events.len() == 0 {
        0
    } else {
        match events.last() {
            HandshakeEvent::Elapsed(ms) => saturating_sum(total_elapsed(events.drop_last()), ms),
            _ => total_elapsed(events.drop_last()),
        }
    }
}

impl View for Handshake {
    type V = HandshakeView;

    closed spec fn view(&self) -> HandshakeView {
        HandshakeView {
            phase: self.phase,
            timeout_ms: self.timeout_ms,
            elapsed_ms: self.elapsed_ms,
            bind_action: self.bind_action,
        }
    }
}

impl Handshake {
    /// A bind action is known exactly when the flow is ready; a timed-out flow
    /// has used up its time.
    #[verifier::type_invariant]
    closed spec fn wf(self) -> bool {
        &&& (self.bind_action is Some <==> self.phase == Phase::Ready)
        &&& (self.phase == Phase::TimedOut ==> self.elapsed_ms >= self.timeout_ms)
    }

    pub fn new(timeout_ms: u64) -> (r: Self)
        ensures
            r@ == fresh_flow(timeout_ms),
    {
        Self { phase: Phase::Connecting, timeout_ms, elapsed_ms: 0, bind_action: None }
    }

    pub fn phase(&self) -> (r: Phase)
        ensures
            r == self@.phase,
            r == Phase::Ready <==> self@.bind_action is Some,
            r == Phase::TimedOut ==> self@.elapsed_ms >= self@.timeout_ms,
    {
        proof { use_type_invariant(self); }
        self.phase
    }

    pub fn on_connected(&mut self)
        ensures
            final(self)@ == advance(old(self)@, Phase::Connecting, Phase::DiscoveringServices),
    {
        proof { use_type_invariant(&*self); }
        if self.phase == Phase::Connecting {
            self.phase = Phase::DiscoveringServices;
        }
    }

    pub fn on_services_discovered(&mut self)
        ensures
            final(self)@ == advance(old(self)@, Phase::DiscoveringServices, Phase::EnablingNotifications),
    {
        proof { use_type_invariant(&*self); }
        if self.phase == Phase::DiscoveringServices {
            self.phase = Phase::EnablingNotifications;
        }
    }

    pub fn on_notifications_enabled(&mut self)
        ensures
            final(self)@ == advance(old(self)@, Phase::EnablingNotifications, Phase::AwaitingInitState),
    {
        proof { use_type_invariant(&*self); }
        if self.phase == Phase::EnablingNotifications {
            self.phase = Phase::AwaitingInitState;
        }
    }

    /// The payload written to request the init state (`#InitState:`).
    pub fn init_payload(&self) -> (r: &'static [u8])
        ensures
            r@ == init_payload_bytes(),
    {
        let p: &'static [u8; 11] = &[0x23, 0x49, 0x6E, 0x69, 0x74, 0x53, 0x74, 0x61, 0x74, 0x65, 0x3A];
        assert(p@ =~= init_payload_bytes());
        p.as_slice()
    }

    pub fn on_init_state(&mut self, state: InitState)
        ensures
            final(self)@ == receive_init_state(old(self)@, state),
    {
        proof { use_type_invariant(&*self); }
        if self.phase == Phase::AwaitingInitState {
            let action = match state {
                InitState::Initial => BindAction::RelieveBind,
                InitState::AlreadyConfigured => BindAction::PreserveExisting,
            };
            *self = Self {
                phase: Phase::Ready,
                timeout_ms: self.timeout_ms,
                elapsed_ms: self.elapsed_ms,
                bind_action: Some(action),
            };
        }
    }

    /// Account for elapsed time (saturating); a flow that is not ready times out
    /// once the total reaches the timeout. Returns the phase afterwards.
    pub fn on_elapsed(&mut self, elapsed_ms: u64) -> (r: Phase)
        ensures
            final(self)@ == elapse(old(self)@, elapsed_ms),
            r == final(self)@.phase,
    {
        proof { use_type_invariant(&*self); }
        let total = self.elapsed_ms.saturating_add(elapsed_ms);
        let timed_out = self.phase != Phase::Ready && total >= self.timeout_ms;
        let phase = if timed_out { Phase::TimedOut } else { self.phase };
        *self = Self { phase, timeout_ms: self.timeout_ms, elapsed_ms: total, bind_action: self.bind_action };
        phase
    }

    /// The bind action decided by the init state; known exactly once the flow is ready.
    pub fn bind_action(&self) -> (r: Option<BindAction>)
        ensures
            r == self@.bind_action,
            r is Some <==> self@.phase == Phase::Ready,
    {
        proof { use_type_invariant(self); }
        self.bind_action
    }
}

} // verus!
