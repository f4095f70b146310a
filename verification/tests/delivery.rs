use gustavio::delivery::{
    after_connect, after_write, send_to_peer, Attempt, SendError, SendStep,
};
use gustavio::discovery::handle_packet;
use gustavio::protocol::UdpPacket;
use gustavio::state::SharedState;

fn knows_bob() -> SharedState {
    let mut state = SharedState::new();
    let pkt = UdpPacket::Announce {
        peer_id: "B".to_string(),
        username: "Bob".to_string(),
        tcp_port: 9999,
    };
    handle_packet(&mut state, "A", pkt, "192.168.1.7", 0);
    state
}

fn is_write(step: &SendStep, handle: u64, attempt: Attempt) -> bool {
    matches!(step, SendStep::Write { handle: h, attempt: a } if *h == handle && *a == attempt)
}

fn is_connect(step: &SendStep, ip: &str, port: u16, attempt: Attempt) -> bool {
    matches!(step, SendStep::Connect { ip: i, tcp_port: p, attempt: a }
        if i == ip && *p == port && *a == attempt)
}

fn is_finish(step: &SendStep, outcome: Result<(), SendError>) -> bool {
    matches!(step, SendStep::Finish(o) if *o == outcome)
}

#[test]
fn unknown_peer_fails_at_once() {
    let state = SharedState::new();
    assert!(is_finish(&send_to_peer("X", &state), Err(SendError::UnknownPeer)));
    let state = knows_bob();
    assert!(is_finish(&send_to_peer("X", &state), Err(SendError::UnknownPeer)));
}

#[test]
fn open_connection_is_written_to() {
    let mut state = knows_bob();
    state.register("B", 5);
    assert!(is_write(&send_to_peer("B", &state), 5, Attempt::First));
    assert!(is_finish(&after_write(&mut state, "B", Attempt::First, true), Ok(())));
    assert_eq!(state.connection("B"), Some(5));
}

#[test]
fn connection_without_a_record_is_enough() {
    let mut state = SharedState::new();
    state.register("B", 5);
    assert!(is_write(&send_to_peer("B", &state), 5, Attempt::First));
}

#[test]
fn known_peer_is_connected_to_first() {
    let mut state = knows_bob();
    assert!(is_connect(&send_to_peer("B", &state), "192.168.1.7", 9999, Attempt::First));
    state.register("B", 8);
    assert!(is_write(&after_connect(&state, "B", Attempt::First, true), 8, Attempt::First));
    assert!(is_finish(&after_write(&mut state, "B", Attempt::First, true), Ok(())));
}

#[test]
fn connect_failure_ends_the_delivery() {
    let state = knows_bob();
    assert!(is_finish(
        &after_connect(&state, "B", Attempt::First, false),
        Err(SendError::ConnectFailed)
    ));
    assert!(is_finish(
        &after_connect(&state, "B", Attempt::Second, false),
        Err(SendError::ConnectFailed)
    ));
}

#[test]
fn handshake_with_another_peer_leaves_the_target_unconnected() {
    let mut state = knows_bob();
    state.register("Z", 8);
    assert!(is_finish(
        &after_connect(&state, "B", Attempt::First, true),
        Err(SendError::NotConnected)
    ));
}

#[test]
fn reconnect_on_dead_socket() {
    let mut state = knows_bob();
    state.register("B", 5);
    let mut writes_ok = 0;
    let mut writes = 0;
    let mut connects = 0;
    let mut step = send_to_peer("B", &state);
    let outcome = loop {
        step = match step {
            SendStep::Write { handle, attempt } => {
                writes += 1;
                let ok = handle != 5;
                if ok {
                    writes_ok += 1;
                }
                after_write(&mut state, "B", attempt, ok)
            }
            SendStep::Connect { ip, tcp_port, attempt } => {
                connects += 1;
                assert_eq!(ip, "192.168.1.7");
                assert_eq!(tcp_port, 9999);
                assert_eq!(attempt, Attempt::Second);
                assert_eq!(state.connection("B"), None);
                state.register("B", 6);
                after_connect(&state, "B", attempt, true)
            }
            SendStep::Finish(outcome) => break outcome,
        };
    };
    assert_eq!(outcome, Ok(()));
    assert_eq!(writes, 2);
    assert_eq!(writes_ok, 1);
    assert_eq!(connects, 1);
    assert_eq!(state.connection("B"), Some(6));
}

#[test]
fn no_third_attempt() {
    let mut state = knows_bob();
    state.register("B", 5);
    let mut writes = 0;
    let mut connects = 0;
    let mut next_handle = 6;
    let mut step = send_to_peer("B", &state);
    let outcome = loop {
        step = match step {
            SendStep::Write { handle: _, attempt } => {
                writes += 1;
                after_write(&mut state, "B", attempt, false)
            }
            SendStep::Connect { attempt, .. } => {
                connects += 1;
                state.register("B", next_handle);
                next_handle += 1;
                after_connect(&state, "B", attempt, true)
            }
            SendStep::Finish(outcome) => break outcome,
        };
    };
    assert_eq!(outcome, Err(SendError::WriteFailed));
    assert_eq!(writes, 2);
    assert_eq!(connects, 1);
    assert_eq!(state.connection("B"), None);
}

#[test]
fn dead_socket_of_a_peer_that_is_no_longer_known() {
    let mut state = SharedState::new();
    state.register("B", 5);
    let step = after_write(&mut state, "B", Attempt::First, false);
    assert!(is_finish(&step, Err(SendError::UnknownPeer)));
    assert_eq!(state.connection("B"), None);
}

#[test]
fn failed_write_evicts_only_the_target() {
    let mut state = knows_bob();
    state.register("B", 5);
    state.register("C", 9);
    after_write(&mut state, "B", Attempt::Second, false);
    assert_eq!(state.connection("B"), None);
    assert_eq!(state.connection("C"), Some(9));
    assert!(state.peers.contains_key("B"));
}

#[test]
fn send_to_an_unknown_peer_touches_nothing() {
    let state = SharedState::new();
    let step = send_to_peer("X", &state);
    assert!(is_finish(&step, Err(SendError::UnknownPeer)));
    assert_eq!(state.peers.len(), 0);
    assert_eq!(state.connections.len(), 0);
}

#[test]
fn send_to_a_known_peer_without_a_connection_connects() {
    let mut state = knows_bob();
    assert!(is_connect(&send_to_peer("B", &state), "192.168.1.7", 9999, Attempt::First));
    assert_eq!(state.connections.len(), 0);
    state.register("B", 3);
    assert!(is_write(&send_to_peer("B", &state), 3, Attempt::First));
    assert!(is_finish(&send_to_peer("C", &state), Err(SendError::UnknownPeer)));
}

#[test]
fn error_texts() {
    assert_eq!(SendError::UnknownPeer.message(), "Peer not known");
    assert_eq!(SendError::ConnectFailed.message(), "Could not connect to peer");
    assert_eq!(SendError::NotConnected.message(), "Not connected to peer");
    assert_eq!(SendError::WriteFailed.message(), "Write to peer failed");
}
