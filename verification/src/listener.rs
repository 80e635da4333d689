//! The listener: the accept loop of the proxy.
//!
//! A listener binds once and then accepts for ever. A bind that fails is
//! fatal. An accept that fails is reported and the loop goes on. Each
//! accepted connection is handed to a session of its own, which the listener
//! never waits for: no event tells it that a session has ended.

use vstd::prelude::*;

verus! {

/// The number of connections that may wait to be accepted.
pub const BACKLOG: u32 = 128;

/// The status the process exits with when the listen address cannot be bound.
pub const BIND_FAILURE_STATUS: u8 = 1;

/// How the listening socket is set up.
#[derive(Clone, Copy, Debug, PartialEq, Eq, Structural)]
pub struct BindPlan {
    /// Whether the address may be bound while earlier sockets on it linger.
    pub reuse_address: bool,
    /// The number of connections that may wait to be accepted.
    pub backlog: u32,
}

/// Where a listener stands in its life.
#[derive(Clone, Copy, Debug, PartialEq, Eq, Structural)]
pub enum ListenerPhase {
    /// The listen address is being bound.
    Binding,
    /// Connections are being accepted.
    Accepting,
    /// The listen address could not be bound.
    Failed,
}

/// What the driver reports to a listener.
#[derive(Clone, Copy, Debug, PartialEq, Eq, Structural)]
pub enum ListenerEvent {
    /// The listen address was bound.
    Bound,
    /// The listen address could not be bound.
    BindFailed,
    /// A connection was accepted.
    Accepted,
    /// An accept failed.
    AcceptFailed,
}

/// What the driver of a listener is to do.
#[derive(Clone, Copy, Debug, PartialEq, Eq, Structural)]
pub enum ListenerAction {
    /// Accept the next connection.
    Accept,
    /// Start a session for the accepted connection, to run on its own, and
    /// accept the next connection without waiting for it.
    Dispatch,
    /// Report the failed accept and accept the next connection.
    Report,
    /// Report the failed bind and exit with this status.
    Exit { status: u8 },
}

/// Whether `event` can be reported in `phase`.
pub open spec fn listener_accepts(phase: ListenerPhase, event: ListenerEvent) -> bool {
    match event {
        ListenerEvent::Bound => phase is Binding,
        ListenerEvent::BindFailed => phase is Binding,
        ListenerEvent::Accepted => phase is Accepting,
        ListenerEvent::AcceptFailed => phase is Accepting,
    }
}

/// The phase after `event`: a bind decides between accepting and failure, and
/// no outcome of an accept ends the accepting.
pub open spec fn listener_step(phase: ListenerPhase, event: ListenerEvent) -> ListenerPhase {
    match event {
        ListenerEvent::Bound => ListenerPhase::Accepting,
        ListenerEvent::BindFailed => ListenerPhase::Failed,
        ListenerEvent::Accepted => phase,
        ListenerEvent::AcceptFailed => phase,
    }
}

/// What the driver is to do about `event`.
pub open spec fn listener_reaction(event: ListenerEvent) -> ListenerAction {
    match event {
        ListenerEvent::Bound => ListenerAction::Accept,
        ListenerEvent::BindFailed => ListenerAction::Exit { status: BIND_FAILURE_STATUS },
        ListenerEvent::Accepted => ListenerAction::Dispatch,
        ListenerEvent::AcceptFailed => ListenerAction::Report,
    }
}

/// One listener.
pub struct Listener {
    phase: ListenerPhase,
}

impl View for Listener {
    type V = ListenerPhase;

    closed spec fn view(&self) -> ListenerPhase {
        self.phase
    }
}

impl Listener {
    /// A listener that is about to bind.
    pub fn new() -> (listener: Listener)
        ensures
            listener@ is Binding,
    {
        Listener { phase: ListenerPhase::Binding }
    }

    /// How the listening socket is to be set up: with address reuse, so that
    /// a quick restart does not fail on sockets that linger, and with the
    /// standard backlog.
    pub fn bind_plan(&self) -> (plan: BindPlan)
        ensures
            plan == (BindPlan { reuse_address: true, backlog: BACKLOG }),
    {
        BindPlan { reuse_address: true, backlog: BACKLOG }
    }

    /// Where the listener stands in its life.
    pub fn phase(&self) -> (phase: ListenerPhase)
        ensures
            phase == self@,
    {
        self.phase
    }

    /// Whether `event` can be reported now.
    pub fn accepts(&self, event: ListenerEvent) -> (ok: bool)
        ensures
            ok == listener_accepts(self@, event),
    {
        match event {
            ListenerEvent::Bound => self.phase == ListenerPhase::Binding,
            ListenerEvent::BindFailed => self.phase == ListenerPhase::Binding,
            ListenerEvent::Accepted => self.phase == ListenerPhase::Accepting,
            ListenerEvent::AcceptFailed => self.phase == ListenerPhase::Accepting,
        }
    }

    /// Takes in `event` and says what to do about it.
    pub fn step(&mut self, event: ListenerEvent) -> (action: ListenerAction)
        requires
            listener_accepts(old(self)@, event),
        ensures
            final(self)@ == listener_step(old(self)@, event),
            action == listener_reaction(event),
    {
        match event {
            ListenerEvent::Bound => {
                self.phase = ListenerPhase::Accepting;
                ListenerAction::Accept
            },
            ListenerEvent::BindFailed => {
                self.phase = ListenerPhase::Failed;
                ListenerAction::Exit { status: BIND_FAILURE_STATUS }
            },
            ListenerEvent::Accepted => ListenerAction::Dispatch,
            ListenerEvent::AcceptFailed => ListenerAction::Report,
        }
    }
}

/// An accept that fails does not end the listener, and neither does one
/// that succeeds: once a listener accepts, it accepts for ever.
pub proof fn lemma_accepting_never_ends(event: ListenerEvent)
    requires
        listener_accepts(ListenerPhase::Accepting, event),
    ensures
        listener_step(ListenerPhase::Accepting, event) is Accepting,
        !(listener_reaction(event) is Exit),
{
}

/// The one fatal event is a bind that fails, and the status it exits with is
/// not zero.
pub proof fn lemma_only_bind_failure_is_fatal(event: ListenerEvent)
    ensures
        listener_reaction(event) is Exit <==> event is BindFailed,
        listener_reaction(event) matches ListenerAction::Exit { status } ==> status != 0,
{
}

} // verus!
