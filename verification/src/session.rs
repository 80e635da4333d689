//! The session: one accepted connection paired with one upstream connection.
//!
//! A session dials the upstream, starts the relays that the copy strategy
//! asks for, and waits until every direction has ended before both
//! connections are closed. It performs none of this itself: its driver
//! reports each outcome as a [`SessionEvent`] and is told what to do as a
//! [`SessionAction`].
//!
//! The two directions are independent. When one ends, at the end of its
//! stream or on an error, the other goes on until its own end.

use vstd::prelude::*;
use crate::buffer::zeroed;
use crate::config::Config;
use crate::config::CopyStrategy;
use crate::relay::Relay;
use crate::relay::RelayModel;
use crate::relay::RelayStatus;

verus! {

/// One of the two directions of a session.
#[derive(Clone, Copy, Debug, PartialEq, Eq, Structural)]
pub enum Direction {
    /// From the client's read half to the upstream's write half.
    ClientToUpstream,
    /// From the upstream's read half to the client's write half.
    UpstreamToClient,
}

impl Direction {
    /// The other direction.
    pub open spec fn opposite(self) -> Direction {
        match self {
            Direction::ClientToUpstream => Direction::UpstreamToClient,
            Direction::UpstreamToClient => Direction::ClientToUpstream,
        }
    }

    /// The other direction.
    pub fn reverse(self) -> (other: Direction)
        ensures
            other == self.opposite(),
    {
        match self {
            Direction::ClientToUpstream => Direction::UpstreamToClient,
            Direction::UpstreamToClient => Direction::ClientToUpstream,
        }
    }
}

/// The state of one direction of a session.
#[derive(Clone, Copy, Debug, PartialEq, Eq, Structural)]
pub enum Lane {
    /// No relay was started for this direction.
    Idle,
    /// The relay of this direction is running.
    Running,
    /// The relay of this direction has ended: `clean` at the end of its
    /// stream, not `clean` on an error.
    Finished { clean: bool },
}

/// Where a session stands in its life.
#[derive(Clone, Copy, Debug, PartialEq, Eq, Structural)]
pub enum SessionPhase {
    /// The upstream connection is being opened.
    Dialing,
    /// At least one direction is still running.
    Relaying,
    /// The session is over.
    Closed,
}

/// What the driver reports to a session.
#[derive(Clone, Copy, Debug, PartialEq, Eq, Structural)]
pub enum SessionEvent {
    /// The upstream connection was opened.
    DialSucceeded,
    /// The upstream connection could not be opened.
    DialFailed,
    /// The relay of one direction has ended.
    DirectionFinished { direction: Direction, clean: bool },
    /// The single relay that copies both directions has ended.
    DuplexFinished { clean: bool },
}

impl SessionEvent {
    /// The event that reports the relay of `direction` once it stands at
    /// `status`: none while it is running, and afterwards the end of the
    /// direction, clean exactly when the relay is done.
    pub open spec fn of_relay(direction: Direction, status: RelayStatus) -> Option<SessionEvent> {
        match status {
            RelayStatus::Running => None,
            RelayStatus::Done => Some(SessionEvent::DirectionFinished { direction, clean: true }),
            RelayStatus::Failed(_) => Some(
                SessionEvent::DirectionFinished { direction, clean: false },
            ),
        }
    }

    /// See [`SessionEvent::of_relay`].
    pub fn relay_ended(direction: Direction, status: RelayStatus) -> (event: Option<SessionEvent>)
        ensures
            event == SessionEvent::of_relay(direction, status),
    {
        match status {
            RelayStatus::Running => None,
            RelayStatus::Done => Some(SessionEvent::DirectionFinished { direction, clean: true }),
            RelayStatus::Failed(_) => Some(
                SessionEvent::DirectionFinished { direction, clean: false },
            ),
        }
    }
}

/// What the driver of a session is to do.
#[derive(Clone, Copy, Debug, PartialEq, Eq, Structural)]
pub enum SessionAction {
    /// Close the client connection and report the failed dial. Nothing was
    /// relayed and nothing is tried again.
    CloseClient,
    /// Split both connections and run one buffered relay for each direction.
    StartRelays,
    /// Split both connections and run one whole-stream copy for each
    /// direction.
    StartWholeStream,
    /// Keep both connections whole and run the one bidirectional copy.
    StartDuplex,
    /// Leave the direction that is still running alone, and wait for it.
    Wait,
    /// Every direction has ended: close both connections.
    CloseBoth,
}

/// The mathematical state of a session.
pub struct SessionModel {
    /// Where the session stands in its life.
    pub phase: SessionPhase,
    /// The copy strategy that the session runs.
    pub strategy: CopyStrategy,
    /// The buffer size of its buffered relays.
    pub buffer_size: usize,
    /// The direction from the client to the upstream.
    pub outbound: Lane,
    /// The direction from the upstream to the client.
    pub inbound: Lane,
}

impl SessionModel {
    /// A session that is about to dial.
    pub open spec fn initial(strategy: CopyStrategy, buffer_size: usize) -> SessionModel {
        SessionModel {
            phase: SessionPhase::Dialing,
            strategy,
            buffer_size,
            outbound: Lane::Idle,
            inbound: Lane::Idle,
        }
    }

    /// The state of `direction`.
    pub open spec fn lane(self, direction: Direction) -> Lane {
        match direction {
            Direction::ClientToUpstream => self.outbound,
            Direction::UpstreamToClient => self.inbound,
        }
    }

    /// This state with `direction` in state `lane`.
    pub open spec fn with_lane(self, direction: Direction, lane: Lane) -> SessionModel {
        match direction {
            Direction::ClientToUpstream => SessionModel { outbound: lane, ..self },
            Direction::UpstreamToClient => SessionModel { inbound: lane, ..self },
        }
    }

    /// What holds of a session at every moment.
    ///
    /// - While it dials, no direction has started.
    /// - While it relays, both directions have started and at least one is
    ///   still running; under the bidirectional strategy both are.
    /// - Once it is closed, either no direction ever started (the dial
    ///   failed) or both have ended.
    pub open spec fn consistent(self) -> bool {
        &&& self.buffer_size > 0
        &&& match self.phase {
            SessionPhase::Dialing => self.outbound is Idle && self.inbound is Idle,
            SessionPhase::Relaying => {
                &&& !(self.outbound is Idle)
                &&& !(self.inbound is Idle)
                &&& self.outbound is Running || self.inbound is Running
                &&& self.strategy is BidirectionalFastPath ==> self.outbound is Running
                    && self.inbound is Running
            },
            SessionPhase::Closed => {
                ||| self.outbound is Idle && self.inbound is Idle
                ||| self.outbound is Finished && self.inbound is Finished
            },
        }
    }

    /// Whether `event` can be reported in this state.
    pub open spec fn accepts(self, event: SessionEvent) -> bool {
        match event {
            SessionEvent::DialSucceeded => self.phase is Dialing,
            SessionEvent::DialFailed => self.phase is Dialing,
            SessionEvent::DirectionFinished { direction, clean } => {
                &&& self.phase is Relaying
                &&& !(self.strategy is BidirectionalFastPath)
                &&& self.lane(direction) is Running
            },
            SessionEvent::DuplexFinished { clean } => {
                &&& self.phase is Relaying
                &&& self.strategy is BidirectionalFastPath
            },
        }
    }

    /// The state after `event`.
    ///
    /// - A failed dial closes the session with no direction started.
    /// - A successful dial starts both directions.
    /// - The end of one direction is recorded; the session closes when it was
    ///   the last one running, and otherwise leaves the other as it is.
    /// - The end of the bidirectional copy ends both directions and closes
    ///   the session.
    pub open spec fn step(self, event: SessionEvent) -> SessionModel {
        match event {
            SessionEvent::DialSucceeded => SessionModel {
                phase: SessionPhase::Relaying,
                outbound: Lane::Running,
                inbound: Lane::Running,
                ..self
            },
            SessionEvent::DialFailed => SessionModel { phase: SessionPhase::Closed, ..self },
            SessionEvent::DirectionFinished { direction, clean } => {
                let ended = self.with_lane(direction, Lane::Finished { clean });
                if self.lane(direction.opposite()) is Running {
                    ended
                } else {
                    SessionModel { phase: SessionPhase::Closed, ..ended }
                }
            },
            SessionEvent::DuplexFinished { clean } => SessionModel {
                phase: SessionPhase::Closed,
                outbound: Lane::Finished { clean },
                inbound: Lane::Finished { clean },
                ..self
            },
        }
    }

    /// What the driver is to do when `event` is reported in this state.
    pub open spec fn reaction(self, event: SessionEvent) -> SessionAction {
        match event {
            SessionEvent::DialSucceeded => match self.strategy {
                CopyStrategy::GenericBuffered => SessionAction::StartRelays,
                CopyStrategy::WholeStream => SessionAction::StartWholeStream,
                CopyStrategy::BidirectionalFastPath => SessionAction::StartDuplex,
            },
            SessionEvent::DialFailed => SessionAction::CloseClient,
            SessionEvent::DirectionFinished { direction, clean } => if self.lane(
                direction.opposite(),
            ) is Running {
                SessionAction::Wait
            } else {
                SessionAction::CloseBoth
            },
            SessionEvent::DuplexFinished { clean } => SessionAction::CloseBoth,
        }
    }
}

/// One session.
pub struct Session {
    phase: SessionPhase,
    strategy: CopyStrategy,
    buffer_size: usize,
    outbound: Lane,
    inbound: Lane,
}

impl View for Session {
    type V = SessionModel;

    closed spec fn view(&self) -> SessionModel {
        SessionModel {
            phase: self.phase,
            strategy: self.strategy,
            buffer_size: self.buffer_size,
            outbound: self.outbound,
            inbound: self.inbound,
        }
    }
}

impl Session {
    /// The validity of a session.
    pub open spec fn wf(&self) -> bool {
        self@.consistent()
    }

    /// A session for a connection that was just accepted. Its driver is to
    /// dial the upstream next. Where the platform lacks the bidirectional
    /// primitive, a session configured for it runs two buffered relays
    /// instead.
    pub fn start(config: &Config, fast_path_available: bool) -> (session: Session)
        requires
            config.wf(),
        ensures
            session.wf(),
            session@ == SessionModel::initial(
                config@.strategy.resolved(fast_path_available),
                config@.buffer_size,
            ),
    {
        Session {
            phase: SessionPhase::Dialing,
            strategy: config.strategy().resolve(fast_path_available),
            buffer_size: config.buffer_size(),
            outbound: Lane::Idle,
            inbound: Lane::Idle,
        }
    }

    /// Where the session stands in its life.
    pub fn phase(&self) -> (phase: SessionPhase)
        ensures
            phase == self@.phase,
    {
        self.phase
    }

    /// The copy strategy that the session runs.
    pub fn strategy(&self) -> (strategy: CopyStrategy)
        ensures
            strategy == self@.strategy,
    {
        self.strategy
    }

    /// The state of `direction`.
    pub fn lane(&self, direction: Direction) -> (lane: Lane)
        ensures
            lane == self@.lane(direction),
    {
        match direction {
            Direction::ClientToUpstream => self.outbound,
            Direction::UpstreamToClient => self.inbound,
        }
    }

    /// A fresh relay with a buffer of the session's size, for one direction.
    pub fn relay(&self) -> (relay: Relay)
        requires
            self.wf(),
        ensures
            relay.wf(),
            relay@ == RelayModel::initial(zeroed(self@.buffer_size as nat)),
    {
        Relay::new(self.buffer_size)
    }

    /// Whether `event` can be reported now.
    pub fn accepts(&self, event: SessionEvent) -> (ok: bool)
        ensures
            ok == self@.accepts(event),
    {
        match event {
            SessionEvent::DialSucceeded => self.phase == SessionPhase::Dialing,
            SessionEvent::DialFailed => self.phase == SessionPhase::Dialing,
            SessionEvent::DirectionFinished { direction, clean } => {
                self.phase == SessionPhase::Relaying && self.strategy
                    != CopyStrategy::BidirectionalFastPath && self.lane(direction)
                    == Lane::Running
            },
            SessionEvent::DuplexFinished { clean } => {
                self.phase == SessionPhase::Relaying && self.strategy
                    == CopyStrategy::BidirectionalFastPath
            },
        }
    }

    /// Takes in `event` and says what to do about it.
    pub fn step(&mut self, event: SessionEvent) -> (action: SessionAction)
        requires
            old(self).wf(),
            old(self)@.accepts(event),
        ensures
            final(self).wf(),
            final(self)@ == old(self)@.step(event),
            action == old(self)@.reaction(event),
    {
        match event {
            SessionEvent::DialSucceeded => {
                self.phase = SessionPhase::Relaying;
                self.outbound = Lane::Running;
                self.inbound = Lane::Running;
                match self.strategy {
                    CopyStrategy::GenericBuffered => SessionAction::StartRelays,
                    CopyStrategy::WholeStream => SessionAction::StartWholeStream,
                    CopyStrategy::BidirectionalFastPath => SessionAction::StartDuplex,
                }
            },
            SessionEvent::DialFailed => {
                self.phase = SessionPhase::Closed;
                SessionAction::CloseClient
            },
            SessionEvent::DirectionFinished { direction, clean } => {
                let other = self.lane(direction.reverse());
                match direction {
                    Direction::ClientToUpstream => {
                        self.outbound = Lane::Finished { clean };
                    },
                    Direction::UpstreamToClient => {
                        self.inbound = Lane::Finished { clean };
                    },
                }
                if other == Lane::Running {
                    SessionAction::Wait
                } else {
                    self.phase = SessionPhase::Closed;
                    SessionAction::CloseBoth
                }
            },
            SessionEvent::DuplexFinished { clean } => {
                self.phase = SessionPhase::Closed;
                self.outbound = Lane::Finished { clean };
                self.inbound = Lane::Finished { clean };
                SessionAction::CloseBoth
            },
        }
    }
}

/// No event that a consistent session accepts makes it inconsistent.
pub proof fn lemma_step_consistent(state: SessionModel, event: SessionEvent)
    requires
        state.consistent(),
        state.accepts(event),
    ensures
        state.step(event).consistent(),
{
}

/// Half-close independence. When one direction ends while the other is still
/// running, whether at the end of its stream or on an error, the session
/// goes on: the driver is told to wait, the other direction is left exactly
/// as it was, and its own end can still be reported.
pub proof fn lemma_half_close_independence(
    state: SessionModel,
    direction: Direction,
    clean: bool,
    later_clean: bool,
)
    requires
        state.consistent(),
        state.accepts(SessionEvent::DirectionFinished { direction, clean }),
        state.lane(direction.opposite()) is Running,
    ensures
        state.reaction(SessionEvent::DirectionFinished { direction, clean }) is Wait,
        state.step(SessionEvent::DirectionFinished { direction, clean }).phase is Relaying,
        state.step(SessionEvent::DirectionFinished { direction, clean }).lane(
            direction.opposite(),
        ) == state.lane(direction.opposite()),
        state.step(SessionEvent::DirectionFinished { direction, clean }).lane(direction)
            == (Lane::Finished { clean }),
        state.step(SessionEvent::DirectionFinished { direction, clean }).accepts(
            SessionEvent::DirectionFinished {
                direction: direction.opposite(),
                clean: later_clean,
            },
        ),
{
}

/// Dial failure. When the upstream cannot be reached, the driver is told to
/// close the client connection, the session is over at once, no direction
/// was ever started, and nothing more can be reported to it: there is no
/// second dial and no relay.
pub proof fn lemma_dial_failure_ends_session(state: SessionModel, later: SessionEvent)
    requires
        state.consistent(),
        state.accepts(SessionEvent::DialFailed),
    ensures
        state.reaction(SessionEvent::DialFailed) is CloseClient,
        state.step(SessionEvent::DialFailed).phase is Closed,
        state.step(SessionEvent::DialFailed).outbound is Idle,
        state.step(SessionEvent::DialFailed).inbound is Idle,
        !state.step(SessionEvent::DialFailed).accepts(later),
{
}

/// A session closes both connections exactly when the last direction that
/// was running has ended, and then both directions have.
pub proof fn lemma_closes_when_all_ended(state: SessionModel, event: SessionEvent)
    requires
        state.consistent(),
        state.accepts(event),
    ensures
        state.reaction(event) is CloseBoth <==> state.step(event).outbound is Finished
            && state.step(event).inbound is Finished,
        state.reaction(event) is CloseBoth ==> state.step(event).phase is Closed,
        state.step(event).phase is Closed <==> state.reaction(event) is CloseBoth
            || state.reaction(event) is CloseClient,
{
}

/// The strategy that a session starts is the one it was made with: buffered
/// relays, whole-stream copies or the one bidirectional copy, and never a
/// mixture.
pub proof fn lemma_strategy_decides_start(state: SessionModel)
    requires
        state.consistent(),
        state.accepts(SessionEvent::DialSucceeded),
    ensures
        state.reaction(SessionEvent::DialSucceeded) is StartRelays <==> state.strategy
            is GenericBuffered,
        state.reaction(SessionEvent::DialSucceeded) is StartWholeStream <==> state.strategy
            is WholeStream,
        state.reaction(SessionEvent::DialSucceeded) is StartDuplex <==> state.strategy
            is BidirectionalFastPath,
        state.step(SessionEvent::DialSucceeded).outbound is Running,
        state.step(SessionEvent::DialSucceeded).inbound is Running,
{
}

} // verus!
