use logfwd::server::server_step;
use logfwd::server::ServerAction;
use logfwd::server::ServerEvent;
use logfwd::server::ServerPhase;

#[test]
fn accepted_connection_spawns_reader_and_keeps_accepting() {
    let (phase, action) = server_step(ServerEvent::Accepted);
    assert_eq!(phase, ServerPhase::Accepting);
    assert_eq!(action, ServerAction::SpawnReader);
}

#[test]
fn accept_failure_is_tolerated() {
    let (phase, action) = server_step(ServerEvent::AcceptFailed);
    assert_eq!(phase, ServerPhase::Accepting);
    assert_eq!(action, ServerAction::KeepAccepting);
}

#[test]
fn cancellation_removes_address_and_stops() {
    let (phase, action) = server_step(ServerEvent::Cancelled);
    assert_eq!(phase, ServerPhase::Stopped);
    assert_eq!(action, ServerAction::RemoveAddressAndStop);
}

#[test]
fn cancellation_while_connections_active_still_stops() {
    // Accepted connections before the signal never change what the signal
    // does: the same step removes the address and stops.
    let (p1, a1) = server_step(ServerEvent::Accepted);
    assert_eq!((p1, a1), (ServerPhase::Accepting, ServerAction::SpawnReader));
    let (p2, a2) = server_step(ServerEvent::Cancelled);
    assert_eq!((p2, a2), (ServerPhase::Stopped, ServerAction::RemoveAddressAndStop));
}
