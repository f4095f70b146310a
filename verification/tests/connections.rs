use gustavio::db::Database;
use gustavio::ipc::UiEvent;
use gustavio::network::{
    connect_to_peer, handle_connection, handle_frame, listen_address, peer_address, perform, Effect,
    Event, Outward, Phase, Session, TCP_PORT,
};
use gustavio::protocol::TcpMessage;
use gustavio::state::SharedState;

fn hello(id: &str) -> TcpMessage {
    TcpMessage::Hello { peer_id: id.to_string(), username: format!("user-{}", id) }
}

fn direct(id: &str) -> TcpMessage {
    TcpMessage::DirectMessage {
        id: id.to_string(),
        from_id: "A".to_string(),
        from_name: "Alice".to_string(),
        content: "hi".to_string(),
        timestamp: "T1".to_string(),
    }
}

fn established(state: &mut SharedState, remote: &str, handle: u64) -> Session {
    let mut s = Session::new(handle);
    handle_connection(&mut s, state, "ME", "Me", Event::Ready);
    handle_connection(&mut s, state, "ME", "Me", Event::Frame(hello(remote)));
    assert_eq!(s.phase, Phase::Established);
    s
}

#[test]
fn register_overwrites_and_reports_the_old_handle() {
    let mut state = SharedState::new();
    assert_eq!(state.connection("B"), None);
    assert_eq!(state.register("B", 1), None);
    assert_eq!(state.connection("B"), Some(1));
    assert_eq!(state.register("B", 2), Some(1));
    assert_eq!(state.connection("B"), Some(2));
    assert_eq!(state.connections.len(), 1);
    assert!(state.is_reachable("B", 0, 10000));
    assert!(!state.is_reachable("C", 0, 10000));
}

#[test]
fn release_needs_the_same_handle() {
    let mut state = SharedState::new();
    state.register("B", 1);
    state.register("B", 2);
    assert!(!state.release("B", 1));
    assert_eq!(state.connection("B"), Some(2));
    assert!(state.release("B", 2));
    assert_eq!(state.connection("B"), None);
    assert!(!state.release("B", 2));
    assert!(!state.release("C", 2));
}

#[test]
fn evict_removes_whatever_is_there() {
    let mut state = SharedState::new();
    state.register("B", 1);
    state.register("C", 5);
    state.evict("B");
    assert_eq!(state.connection("B"), None);
    assert_eq!(state.connection("C"), Some(5));
    state.evict("B");
    assert_eq!(state.connections.len(), 1);
}

#[test]
fn connection_table_has_one_entry_per_peer() {
    let mut state = SharedState::new();
    for h in 0..20u64 {
        let peer = format!("node{}", h % 3);
        state.register(&peer, h);
    }
    assert_eq!(state.connections.len(), 3);
    assert_eq!(state.connection("node0"), Some(18));
    assert_eq!(state.connection("node1"), Some(19));
    assert_eq!(state.connection("node2"), Some(17));
}

#[test]
fn handshake_on_the_accepting_side() {
    let mut state = SharedState::new();
    let mut s = Session::new(7);
    assert_eq!(s.phase, Phase::Opening);
    assert_eq!(s.handle, 7);
    assert_eq!(s.remote, "");

    let effects = handle_connection(&mut s, &mut state, "A", "Alice", Event::Ready);
    assert_eq!(s.phase, Phase::AwaitingHello);
    assert_eq!(effects.len(), 1);
    match &effects[0] {
        Effect::Reply(TcpMessage::Hello { peer_id, username }) => {
            assert_eq!(peer_id, "A");
            assert_eq!(username, "Alice");
        }
        other => panic!("unexpected {:?}", other),
    }
    assert_eq!(state.connections.len(), 0);

    let effects = handle_connection(&mut s, &mut state, "A", "Alice", Event::Frame(hello("B")));
    assert_eq!(effects.len(), 0);
    assert_eq!(s.phase, Phase::Established);
    assert_eq!(s.remote, "B");
    assert_eq!(state.connection("B"), Some(7));
}

#[test]
fn first_line_must_be_hello() {
    for event in [Event::Frame(direct("M1")), Event::Unreadable, Event::Ended, Event::Ready] {
        let mut state = SharedState::new();
        let mut s = Session::new(7);
        handle_connection(&mut s, &mut state, "A", "Alice", Event::Ready);
        let effects = handle_connection(&mut s, &mut state, "A", "Alice", event);
        assert_eq!(effects.len(), 0);
        assert_eq!(s.phase, Phase::Closed);
        assert_eq!(state.connections.len(), 0);
    }
}

#[test]
fn socket_that_never_opened_closes() {
    for event in [Event::Ended, Event::Unreadable, Event::Frame(hello("B"))] {
        let mut state = SharedState::new();
        let mut s = Session::new(7);
        let effects = handle_connection(&mut s, &mut state, "A", "Alice", event);
        assert_eq!(effects.len(), 0);
        assert_eq!(s.phase, Phase::Closed);
        assert_eq!(state.connections.len(), 0);
    }
}

#[test]
fn closed_is_terminal() {
    let mut state = SharedState::new();
    let mut s = established(&mut state, "B", 7);
    handle_connection(&mut s, &mut state, "A", "Alice", Event::Ended);
    assert_eq!(s.phase, Phase::Closed);
    for event in [Event::Ready, Event::Frame(hello("B")), Event::Frame(direct("M1")), Event::Ended] {
        let effects = handle_connection(&mut s, &mut state, "A", "Alice", event);
        assert_eq!(effects.len(), 0);
        assert_eq!(s.phase, Phase::Closed);
    }
    assert_eq!(state.connections.len(), 0);
}

#[test]
fn malformed_line_is_dropped_and_the_connection_goes_on() {
    let mut state = SharedState::new();
    let mut s = established(&mut state, "B", 7);
    let effects = handle_connection(&mut s, &mut state, "A", "Alice", Event::Unreadable);
    assert_eq!(effects.len(), 0);
    assert_eq!(s.phase, Phase::Established);
    let effects = handle_connection(&mut s, &mut state, "A", "Alice", Event::Frame(direct("M1")));
    assert_eq!(effects.len(), 4);
    assert_eq!(state.connection("B"), Some(7));
}

#[test]
fn hello_in_mid_stream_is_ignored() {
    let mut state = SharedState::new();
    let mut s = established(&mut state, "B", 7);
    let effects = handle_connection(&mut s, &mut state, "A", "Alice", Event::Frame(hello("C")));
    assert_eq!(effects.len(), 0);
    assert_eq!(s.phase, Phase::Established);
    assert_eq!(s.remote, "B");
    assert_eq!(state.connection("B"), Some(7));
    assert_eq!(state.connection("C"), None);
}

#[test]
fn end_of_stream_removes_the_own_entry() {
    let mut state = SharedState::new();
    let mut s = established(&mut state, "B", 7);
    handle_connection(&mut s, &mut state, "A", "Alice", Event::Ended);
    assert_eq!(s.phase, Phase::Closed);
    assert_eq!(state.connection("B"), None);
}

#[test]
fn end_of_a_superseded_connection_keeps_the_survivor() {
    let mut state = SharedState::new();
    let mut first = established(&mut state, "B", 1);
    let mut second = established(&mut state, "B", 2);
    assert_eq!(state.connection("B"), Some(2));
    handle_connection(&mut first, &mut state, "A", "Alice", Event::Ended);
    assert_eq!(first.phase, Phase::Closed);
    assert_eq!(state.connection("B"), Some(2));
    handle_connection(&mut second, &mut state, "A", "Alice", Event::Ended);
    assert_eq!(state.connection("B"), None);
}

#[test]
fn direct_message_is_stored_shown_and_confirmed() {
    let effects = handle_frame(&direct("M1"));
    assert_eq!(effects.len(), 4);
    match &effects[0] {
        Effect::StoreMessage(row) => {
            assert_eq!(row.id, "M1");
            assert_eq!(row.conversation_id, "A");
            assert_eq!(row.from_id, "A");
            assert_eq!(row.from_name, "Alice");
            assert_eq!(row.content, "hi");
            assert_eq!(row.timestamp, "T1");
            assert!(!row.is_group);
            assert_eq!(row.status, "delivered");
        }
        other => panic!("unexpected {:?}", other),
    }
    match &effects[1] {
        Effect::ShowMessage(row) => {
            assert_eq!(row.id, "M1");
            assert_eq!(row.conversation_id, "A");
            assert_eq!(row.status, "delivered");
        }
        other => panic!("unexpected {:?}", other),
    }
    assert!(matches!(effects[2], Effect::RequestAttention));
    match &effects[3] {
        Effect::Reply(TcpMessage::Ack { message_id, status }) => {
            assert_eq!(message_id, "M1");
            assert_eq!(status, "delivered");
        }
        other => panic!("unexpected {:?}", other),
    }
    let replies = effects.iter().filter(|e| matches!(e, Effect::Reply(_))).count();
    assert_eq!(replies, 1);
}

#[test]
fn group_message_is_stored_in_the_conversation_of_its_group() {
    let frame = TcpMessage::GroupMessage {
        id: "M2".to_string(),
        group_id: "G1".to_string(),
        from_id: "A".to_string(),
        from_name: "Alice".to_string(),
        content: "ping".to_string(),
        timestamp: "T2".to_string(),
    };
    let effects = handle_frame(&frame);
    assert_eq!(effects.len(), 4);
    match &effects[0] {
        Effect::StoreMessage(row) => {
            assert_eq!(row.id, "M2");
            assert_eq!(row.conversation_id, "G1");
            assert_eq!(row.from_id, "A");
            assert_eq!(row.content, "ping");
            assert_eq!(row.timestamp, "T2");
            assert!(row.is_group);
            assert_eq!(row.status, "delivered");
        }
        other => panic!("unexpected {:?}", other),
    }
    assert!(matches!(effects[1], Effect::ShowMessage(_)));
    assert!(matches!(effects[2], Effect::RequestAttention));
    match &effects[3] {
        Effect::Reply(TcpMessage::Ack { message_id, status }) => {
            assert_eq!(message_id, "M2");
            assert_eq!(status, "delivered");
        }
        other => panic!("unexpected {:?}", other),
    }
}

#[test]
fn ack_updates_the_status_once() {
    let frame = TcpMessage::Ack { message_id: "M1".to_string(), status: "delivered".to_string() };
    let effects = handle_frame(&frame);
    assert_eq!(effects.len(), 2);
    match &effects[0] {
        Effect::UpdateStatus { message_id, status } => {
            assert_eq!(message_id, "M1");
            assert_eq!(status, "delivered");
        }
        other => panic!("unexpected {:?}", other),
    }
    match &effects[1] {
        Effect::ShowAck { message_id, status } => {
            assert_eq!(message_id, "M1");
            assert_eq!(status, "delivered");
        }
        other => panic!("unexpected {:?}", other),
    }
}

#[test]
fn group_create_stores_the_group_and_every_member() {
    let frame = TcpMessage::GroupCreate {
        group_id: "G1".to_string(),
        name: "dev".to_string(),
        creator_id: "A".to_string(),
        members: vec!["A".to_string(), "B".to_string(), "C".to_string()],
    };
    let effects = handle_frame(&frame);
    assert_eq!(effects.len(), 5);
    match &effects[0] {
        Effect::CreateGroup { group_id, name, creator_id } => {
            assert_eq!(group_id, "G1");
            assert_eq!(name, "dev");
            assert_eq!(creator_id, "A");
        }
        other => panic!("unexpected {:?}", other),
    }
    for (i, who) in ["A", "B", "C"].iter().enumerate() {
        match &effects[i + 1] {
            Effect::AddMember { group_id, peer_id } => {
                assert_eq!(group_id, "G1");
                assert_eq!(peer_id, who);
            }
            other => panic!("unexpected {:?}", other),
        }
    }
    assert!(matches!(effects[4], Effect::ShowGroups));

    let empty = TcpMessage::GroupCreate {
        group_id: "G2".to_string(),
        name: "solo".to_string(),
        creator_id: "A".to_string(),
        members: vec![],
    };
    let effects = handle_frame(&empty);
    assert_eq!(effects.len(), 2);
    assert!(matches!(effects[0], Effect::CreateGroup { .. }));
    assert!(matches!(effects[1], Effect::ShowGroups));
}

#[test]
fn membership_frames_change_one_membership() {
    let add =
        TcpMessage::GroupMemberAdd { group_id: "G1".to_string(), peer_id: "D".to_string() };
    let effects = handle_frame(&add);
    assert_eq!(effects.len(), 1);
    match &effects[0] {
        Effect::AddMember { group_id, peer_id } => {
            assert_eq!(group_id, "G1");
            assert_eq!(peer_id, "D");
        }
        other => panic!("unexpected {:?}", other),
    }
    let remove =
        TcpMessage::GroupMemberRemove { group_id: "G1".to_string(), peer_id: "D".to_string() };
    let effects = handle_frame(&remove);
    assert_eq!(effects.len(), 1);
    match &effects[0] {
        Effect::RemoveMember { group_id, peer_id } => {
            assert_eq!(group_id, "G1");
            assert_eq!(peer_id, "D");
        }
        other => panic!("unexpected {:?}", other),
    }
    assert_eq!(handle_frame(&hello("B")).len(), 0);
}

fn carry_out(db: &mut Database, frame: &TcpMessage) -> Vec<Outward> {
    let mut out = Vec::new();
    for effect in handle_frame(frame) {
        if let Some(o) = perform(db, effect) {
            out.push(o);
        }
    }
    out
}

#[test]
fn dm_happy_path_at_the_receiver_and_back_at_the_sender() {
    let mut at_bob = Database::open(":memory:").unwrap();
    let mut at_alice = Database::open(":memory:").unwrap();
    let sent = gustavio::db::MessageRow {
        id: "M1".to_string(),
        conversation_id: "B".to_string(),
        from_id: "A".to_string(),
        from_name: "Alice".to_string(),
        content: "hi".to_string(),
        timestamp: "T1".to_string(),
        is_group: false,
        status: "sent".to_string(),
    };
    at_alice.insert_message(&sent).unwrap();

    let out = carry_out(&mut at_bob, &direct("M1"));
    assert_eq!(out.len(), 3);
    match &out[0] {
        Outward::Emit(UiEvent::IncomingMessage(row)) => assert_eq!(row.id, "M1"),
        other => panic!("unexpected {:?}", other),
    }
    assert!(matches!(out[1], Outward::RequestAttention));
    let ack = match &out[2] {
        Outward::Reply(frame) => frame.clone(),
        other => panic!("unexpected {:?}", other),
    };
    let stored = at_bob.load_history("A", 200);
    assert_eq!(stored.len(), 1);
    assert_eq!(stored[0].id, "M1");
    assert_eq!(stored[0].conversation_id, "A");
    assert_eq!(stored[0].from_id, "A");
    assert_eq!(stored[0].from_name, "Alice");
    assert_eq!(stored[0].content, "hi");
    assert_eq!(stored[0].timestamp, "T1");
    assert!(!stored[0].is_group);
    assert_eq!(stored[0].status, "delivered");

    let out = carry_out(&mut at_alice, &ack);
    assert_eq!(out.len(), 1);
    match &out[0] {
        Outward::Emit(UiEvent::MessageAck { message_id, status }) => {
            assert_eq!(message_id, "M1");
            assert_eq!(status, "delivered");
        }
        other => panic!("unexpected {:?}", other),
    }
    let rows = at_alice.load_history("B", 200);
    assert_eq!(rows.len(), 1);
    assert_eq!(rows[0].status, "delivered");
}

#[test]
fn same_frame_twice_is_stored_once() {
    let mut at_bob = Database::open(":memory:").unwrap();
    carry_out(&mut at_bob, &direct("M1"));
    carry_out(&mut at_bob, &direct("M1"));
    let stored = at_bob.load_history("A", 200);
    assert_eq!(stored.len(), 1);
    assert_eq!(stored[0].id, "M1");
}

#[test]
fn group_fan_out_at_the_members() {
    let create = TcpMessage::GroupCreate {
        group_id: "G1".to_string(),
        name: "dev".to_string(),
        creator_id: "A".to_string(),
        members: vec!["A".to_string(), "B".to_string(), "C".to_string()],
    };
    let ping = TcpMessage::GroupMessage {
        id: "M2".to_string(),
        group_id: "G1".to_string(),
        from_id: "A".to_string(),
        from_name: "Alice".to_string(),
        content: "ping".to_string(),
        timestamp: "T2".to_string(),
    };
    for _member in ["B", "C"] {
        let mut db = Database::open(":memory:").unwrap();
        let out = carry_out(&mut db, &create);
        assert_eq!(out.len(), 1);
        match &out[0] {
            Outward::Emit(UiEvent::GroupList(groups)) => {
                assert_eq!(groups.len(), 1);
                assert_eq!(groups[0].group_id, "G1");
                assert_eq!(groups[0].name, "dev");
                assert_eq!(groups[0].creator_id, "A");
            }
            other => panic!("unexpected {:?}", other),
        }
        let mut members = db.get_group_members("G1");
        members.sort();
        assert_eq!(members, vec!["A".to_string(), "B".to_string(), "C".to_string()]);
        carry_out(&mut db, &create);
        assert_eq!(db.get_group_members("G1").len(), 3);
        assert_eq!(db.get_groups().len(), 1);

        carry_out(&mut db, &ping);
        let stored = db.load_history("G1", 200);
        assert_eq!(stored.len(), 1);
        assert_eq!(stored[0].id, "M2");
        assert_eq!(stored[0].conversation_id, "G1");
        assert!(stored[0].is_group);
        assert_eq!(stored[0].content, "ping");
    }
}

#[test]
fn membership_frames_change_the_store() {
    let mut db = Database::open(":memory:").unwrap();
    let add = TcpMessage::GroupMemberAdd { group_id: "G1".to_string(), peer_id: "D".to_string() };
    assert_eq!(carry_out(&mut db, &add).len(), 0);
    assert_eq!(carry_out(&mut db, &add).len(), 0);
    assert_eq!(db.get_group_members("G1"), vec!["D".to_string()]);
    let remove =
        TcpMessage::GroupMemberRemove { group_id: "G1".to_string(), peer_id: "D".to_string() };
    carry_out(&mut db, &remove);
    carry_out(&mut db, &remove);
    assert_eq!(db.get_group_members("G1").len(), 0);
}

#[test]
fn addresses_are_host_colon_port() {
    assert_eq!(TCP_PORT, 9999);
    assert_eq!(listen_address(), "0.0.0.0:9999");
    assert_eq!(peer_address("192.168.1.7", 9999), "192.168.1.7:9999");
    assert_eq!(peer_address("10.0.0.2", 0), "10.0.0.2:0");
    assert_eq!(peer_address("10.0.0.2", 7), "10.0.0.2:7");
    assert_eq!(peer_address("10.0.0.2", 10), "10.0.0.2:10");
    assert_eq!(peer_address("10.0.0.2", 1005), "10.0.0.2:1005");
    assert_eq!(peer_address("h", 65535), "h:65535");
    assert_eq!(peer_address("", 80), ":80");
}

#[test]
fn connecting_side_starts_like_the_accepting_one() {
    let (address, mut s) = connect_to_peer("192.168.1.7", 9999, 42);
    assert_eq!(address, "192.168.1.7:9999");
    assert_eq!(s.phase, Phase::Opening);
    assert_eq!(s.handle, 42);
    let mut state = SharedState::new();
    let effects = handle_connection(&mut s, &mut state, "A", "Alice", Event::Ready);
    assert!(matches!(effects[0], Effect::Reply(TcpMessage::Hello { .. })));
    handle_connection(&mut s, &mut state, "A", "Alice", Event::Frame(hello("B")));
    assert_eq!(state.connection("B"), Some(42));

    let (_, mut failed) = connect_to_peer("192.168.1.8", 9999, 43);
    handle_connection(&mut failed, &mut state, "A", "Alice", Event::Ended);
    assert_eq!(failed.phase, Phase::Closed);
    assert_eq!(state.connections.len(), 1);
}
