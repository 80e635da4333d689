use tcp_proxy::config::{Config, CopyStrategy};
use tcp_proxy::relay::{RelayAction, RelayError, RelayEvent, RelayStatus};
use tcp_proxy::session::{
    Direction, Lane, Session, SessionAction, SessionEvent, SessionPhase,
};

fn config(strategy: CopyStrategy, buffer_size: usize) -> Config {
    Config::new(
        "127.0.0.1:20000",
        "127.0.0.1:20002",
        strategy,
        buffer_size,
        1,
    )
    .expect("the settings are valid")
}

fn finished(direction: Direction, clean: bool) -> SessionEvent {
    SessionEvent::DirectionFinished { direction, clean }
}

#[test]
fn new_session_is_dialing() {
    let session = Session::start(&config(CopyStrategy::GenericBuffered, 1024), true);
    assert_eq!(session.phase(), SessionPhase::Dialing);
    assert_eq!(session.strategy(), CopyStrategy::GenericBuffered);
    assert_eq!(session.lane(Direction::ClientToUpstream), Lane::Idle);
    assert_eq!(session.lane(Direction::UpstreamToClient), Lane::Idle);
}

#[test]
fn dial_failure_closes_the_client_and_ends_the_session() {
    let mut session = Session::start(&config(CopyStrategy::GenericBuffered, 1024), true);
    assert!(session.accepts(SessionEvent::DialFailed));
    let action = session.step(SessionEvent::DialFailed);
    assert_eq!(action, SessionAction::CloseClient);
    assert_eq!(session.phase(), SessionPhase::Closed);
    assert_eq!(session.lane(Direction::ClientToUpstream), Lane::Idle);
    assert_eq!(session.lane(Direction::UpstreamToClient), Lane::Idle);
    assert!(!session.accepts(SessionEvent::DialSucceeded));
    assert!(!session.accepts(SessionEvent::DialFailed));
    assert!(!session.accepts(finished(Direction::ClientToUpstream, true)));
    assert!(!session.accepts(SessionEvent::DuplexFinished { clean: true }));
}

#[test]
fn dial_failure_leaves_other_sessions_alone() {
    let settings = config(CopyStrategy::GenericBuffered, 8);
    let mut healthy = Session::start(&settings, true);
    let mut broken = Session::start(&settings, true);
    assert_eq!(healthy.step(SessionEvent::DialSucceeded), SessionAction::StartRelays);
    let mut relay = healthy.relay();

    assert_eq!(broken.step(SessionEvent::DialFailed), SessionAction::CloseClient);

    assert_eq!(healthy.phase(), SessionPhase::Relaying);
    assert_eq!(healthy.lane(Direction::ClientToUpstream), Lane::Running);
    assert_eq!(healthy.lane(Direction::UpstreamToClient), Lane::Running);
    relay.read_slot().unwrap()[..5].copy_from_slice(b"hello");
    assert_eq!(relay.step(RelayEvent::ReadCompleted(5)), RelayAction::Write);
    assert_eq!(relay.pending(), b"hello");
}

#[test]
fn each_strategy_starts_its_own_relays() {
    let cases = [
        (CopyStrategy::GenericBuffered, SessionAction::StartRelays),
        (CopyStrategy::WholeStream, SessionAction::StartWholeStream),
        (CopyStrategy::BidirectionalFastPath, SessionAction::StartDuplex),
    ];
    for (strategy, expected) in cases {
        let mut session = Session::start(&config(strategy, 1024), true);
        assert_eq!(session.step(SessionEvent::DialSucceeded), expected);
        assert_eq!(session.phase(), SessionPhase::Relaying);
        assert_eq!(session.lane(Direction::ClientToUpstream), Lane::Running);
        assert_eq!(session.lane(Direction::UpstreamToClient), Lane::Running);
    }
}

#[test]
fn missing_fast_path_falls_back_to_buffered_relays() {
    let mut session = Session::start(&config(CopyStrategy::BidirectionalFastPath, 1024), false);
    assert_eq!(session.strategy(), CopyStrategy::GenericBuffered);
    assert_eq!(session.step(SessionEvent::DialSucceeded), SessionAction::StartRelays);
    assert!(session.accepts(finished(Direction::ClientToUpstream, true)));
    assert!(!session.accepts(SessionEvent::DuplexFinished { clean: true }));
}

#[test]
fn session_waits_for_both_directions() {
    for (first, second) in [
        (Direction::ClientToUpstream, Direction::UpstreamToClient),
        (Direction::UpstreamToClient, Direction::ClientToUpstream),
    ] {
        let mut session = Session::start(&config(CopyStrategy::WholeStream, 1024), true);
        session.step(SessionEvent::DialSucceeded);
        assert_eq!(session.step(finished(first, true)), SessionAction::Wait);
        assert_eq!(session.phase(), SessionPhase::Relaying);
        assert_eq!(session.lane(first), Lane::Finished { clean: true });
        assert_eq!(session.lane(second), Lane::Running);
        assert!(!session.accepts(finished(first, true)));
        assert_eq!(session.step(finished(second, false)), SessionAction::CloseBoth);
        assert_eq!(session.phase(), SessionPhase::Closed);
        assert_eq!(session.lane(second), Lane::Finished { clean: false });
        assert!(!session.accepts(finished(second, true)));
    }
}

#[test]
fn failure_of_one_direction_does_not_stop_the_other() {
    let mut session = Session::start(&config(CopyStrategy::GenericBuffered, 1024), true);
    session.step(SessionEvent::DialSucceeded);
    assert_eq!(session.step(finished(Direction::UpstreamToClient, false)), SessionAction::Wait);
    assert_eq!(session.lane(Direction::ClientToUpstream), Lane::Running);
    assert_eq!(session.phase(), SessionPhase::Relaying);
}

#[test]
fn duplex_copy_ends_both_directions_at_once() {
    let mut session = Session::start(&config(CopyStrategy::BidirectionalFastPath, 1024), true);
    assert_eq!(session.step(SessionEvent::DialSucceeded), SessionAction::StartDuplex);
    assert!(!session.accepts(finished(Direction::ClientToUpstream, true)));
    assert!(session.accepts(SessionEvent::DuplexFinished { clean: false }));
    assert_eq!(
        session.step(SessionEvent::DuplexFinished { clean: true }),
        SessionAction::CloseBoth
    );
    assert_eq!(session.phase(), SessionPhase::Closed);
    assert_eq!(session.lane(Direction::ClientToUpstream), Lane::Finished { clean: true });
    assert_eq!(session.lane(Direction::UpstreamToClient), Lane::Finished { clean: true });
}

#[test]
fn session_relay_has_the_configured_buffer() {
    for size in [1usize, 1024, 1024 * 1024] {
        let mut session = Session::start(&config(CopyStrategy::GenericBuffered, size), true);
        session.step(SessionEvent::DialSucceeded);
        let relay = session.relay();
        assert_eq!(relay.capacity(), size);
        assert_eq!(relay.status(), RelayStatus::Running);
        assert_eq!(relay.action(), RelayAction::Read);
    }
}

#[test]
fn relaying_session_takes_no_dial_outcome() {
    let mut session = Session::start(&config(CopyStrategy::GenericBuffered, 1024), true);
    assert!(!session.accepts(finished(Direction::ClientToUpstream, true)));
    session.step(SessionEvent::DialSucceeded);
    assert!(!session.accepts(SessionEvent::DialSucceeded));
    assert!(!session.accepts(SessionEvent::DialFailed));
}

#[test]
fn direction_reverses() {
    assert_eq!(Direction::ClientToUpstream.reverse(), Direction::UpstreamToClient);
    assert_eq!(Direction::UpstreamToClient.reverse(), Direction::ClientToUpstream);
}

#[test]
fn ended_relay_is_reported_as_the_end_of_its_direction() {
    for direction in [Direction::ClientToUpstream, Direction::UpstreamToClient] {
        assert_eq!(SessionEvent::relay_ended(direction, RelayStatus::Running), None);
        assert_eq!(
            SessionEvent::relay_ended(direction, RelayStatus::Done),
            Some(SessionEvent::DirectionFinished { direction, clean: true })
        );
        for error in [RelayError::Read, RelayError::Write, RelayError::WriteZero] {
            assert_eq!(
                SessionEvent::relay_ended(direction, RelayStatus::Failed(error)),
                Some(SessionEvent::DirectionFinished { direction, clean: false })
            );
        }
    }
}
