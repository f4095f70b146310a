use gustavio::db::Database;
use gustavio::discovery::{
    announce_packet, goodbye_packet, handle_packet, peer_list, persist_announce, reap,
    ANNOUNCE_INTERVAL_MS, DISCOVERY_PORT, MAX_PACKET_BYTES, PEER_TIMEOUT_MS, REAPER_INTERVAL_MS,
};
use gustavio::protocol::UdpPacket;
use gustavio::state::{fresh, PeerInfo, SharedState};

fn announce(id: &str, name: &str, port: u16) -> UdpPacket {
    UdpPacket::Announce { peer_id: id.to_string(), username: name.to_string(), tcp_port: port }
}

#[test]
fn discovery_constants() {
    assert_eq!(DISCOVERY_PORT, 5555);
    assert_eq!(ANNOUNCE_INTERVAL_MS, 3000);
    assert_eq!(PEER_TIMEOUT_MS, 10000);
    assert_eq!(REAPER_INTERVAL_MS, 5000);
    assert_eq!(MAX_PACKET_BYTES, 2048);
}

#[test]
fn packets_carry_what_they_are_given() {
    match announce_packet("A", "Alice", 9999) {
        UdpPacket::Announce { peer_id, username, tcp_port } => {
            assert_eq!(peer_id, "A");
            assert_eq!(username, "Alice");
            assert_eq!(tcp_port, 9999);
        }
        _ => panic!("not an announce"),
    }
    match goodbye_packet("A") {
        UdpPacket::Goodbye { peer_id } => assert_eq!(peer_id, "A"),
        _ => panic!("not a goodbye"),
    }
}

#[test]
fn announce_of_another_peer_creates_its_record() {
    let mut state = SharedState::new();
    let notify = handle_packet(&mut state, "A", announce("B", "Bob", 9999), "192.168.1.7", 1000);
    assert!(notify);
    assert_eq!(state.peers.len(), 1);
    let b = state.peers.get("B").unwrap();
    assert_eq!(b.peer_id, "B");
    assert_eq!(b.username, "Bob");
    assert_eq!(b.ip, "192.168.1.7");
    assert_eq!(b.tcp_port, 9999);
    assert_eq!(b.last_seen, 1000);
    assert!(state.is_reachable("B", 1000, PEER_TIMEOUT_MS));
    assert!(state.is_reachable("B", 10999, PEER_TIMEOUT_MS));
    assert!(!state.is_reachable("B", 11000, PEER_TIMEOUT_MS));
    assert!(!state.is_reachable("C", 1000, PEER_TIMEOUT_MS));
    state.register("B", 4);
    assert!(state.is_reachable("B", 11000, PEER_TIMEOUT_MS));
}

#[test]
fn announce_refreshes_the_record() {
    let mut state = SharedState::new();
    handle_packet(&mut state, "A", announce("B", "Bob", 9999), "192.168.1.7", 1000);
    let notify = handle_packet(&mut state, "A", announce("B", "Bobby", 9998), "192.168.1.9", 4000);
    assert!(notify);
    assert_eq!(state.peers.len(), 1);
    let b = state.peers.get("B").unwrap();
    assert_eq!(b.username, "Bobby");
    assert_eq!(b.ip, "192.168.1.9");
    assert_eq!(b.tcp_port, 9998);
    assert_eq!(b.last_seen, 4000);
}

#[test]
fn own_announce_is_suppressed() {
    let mut state = SharedState::new();
    let notify = handle_packet(&mut state, "A", announce("A", "Alice", 9999), "192.168.1.5", 1000);
    assert!(!notify);
    assert_eq!(state.peers.len(), 0);
    assert!(!state.peers.contains_key("A"));
}

#[test]
fn own_announce_is_suppressed_whatever_address_it_comes_from() {
    let mut state = SharedState::new();
    handle_packet(&mut state, "A", announce("B", "Bob", 9999), "10.0.0.2", 1);
    for ip in ["10.0.0.1", "192.168.56.1", "127.0.0.1"] {
        let notify = handle_packet(&mut state, "A", announce("A", "Alice", 9999), ip, 2);
        assert!(!notify);
    }
    assert_eq!(state.peers.len(), 1);
    assert!(!state.peers.contains_key("A"));
}

#[test]
fn goodbye_removes_the_record() {
    let mut state = SharedState::new();
    handle_packet(&mut state, "A", announce("B", "Bob", 9999), "10.0.0.2", 1);
    handle_packet(&mut state, "A", announce("C", "Carol", 9999), "10.0.0.3", 2);
    let notify =
        handle_packet(&mut state, "A", UdpPacket::Goodbye { peer_id: "B".to_string() }, "10.0.0.2", 3);
    assert!(notify);
    assert!(!state.peers.contains_key("B"));
    assert!(state.peers.contains_key("C"));
    let again =
        handle_packet(&mut state, "A", UdpPacket::Goodbye { peer_id: "B".to_string() }, "10.0.0.2", 4);
    assert!(again);
    assert_eq!(state.peers.len(), 1);
}

fn peer(last_seen: u64) -> PeerInfo {
    PeerInfo {
        peer_id: "B".to_string(),
        username: "Bob".to_string(),
        ip: "10.0.0.2".to_string(),
        tcp_port: 9999,
        last_seen,
    }
}

#[test]
fn freshness_is_strict_at_the_timeout() {
    assert!(fresh(&peer(1000), 1000, 10000));
    assert!(fresh(&peer(1000), 10999, 10000));
    assert!(!fresh(&peer(1000), 11000, 10000));
    assert!(!fresh(&peer(1000), 20000, 10000));
    assert!(fresh(&peer(5000), 1000, 10000));
    assert!(!fresh(&peer(5000), 1000, 0));
    assert!(!fresh(&peer(0), u64::MAX, u64::MAX));
    assert!(fresh(&peer(1), u64::MAX, u64::MAX));
}

#[test]
fn reaper_evicts_the_stale_only() {
    let mut state = SharedState::new();
    handle_packet(&mut state, "A", announce("B", "Bob", 9999), "10.0.0.2", 1000);
    handle_packet(&mut state, "A", announce("C", "Carol", 9999), "10.0.0.3", 6000);
    handle_packet(&mut state, "A", announce("D", "Dan", 9999), "10.0.0.4", 2000);
    assert!(!reap(&mut state, 10999, PEER_TIMEOUT_MS));
    assert_eq!(state.peers.len(), 3);
    assert!(reap(&mut state, 12000, PEER_TIMEOUT_MS));
    assert_eq!(state.peers.len(), 1);
    assert!(state.peers.contains_key("C"));
    assert_eq!(state.peers.get("C").unwrap().ip, "10.0.0.3");
    assert!(!reap(&mut state, 12000, PEER_TIMEOUT_MS));
    assert!(reap(&mut state, 16000, PEER_TIMEOUT_MS));
    assert_eq!(state.peers.len(), 0);
    assert!(!reap(&mut state, 99000, PEER_TIMEOUT_MS));
}

#[test]
fn silent_peer_is_gone_within_timeout_plus_one_interval() {
    let mut state = SharedState::new();
    let last_announce: u64 = 7300;
    handle_packet(&mut state, "A", announce("C", "Carol", 9999), "10.0.0.3", last_announce);
    let mut now: u64 = 0;
    let mut gone_at: Option<u64> = None;
    while now <= 40000 {
        reap(&mut state, now, PEER_TIMEOUT_MS);
        if !state.peers.contains_key("C") {
            gone_at = Some(now);
            break;
        }
        now += REAPER_INTERVAL_MS;
    }
    let gone_at = gone_at.unwrap();
    assert_eq!(gone_at, 20000);
    assert!(gone_at >= last_announce + PEER_TIMEOUT_MS);
    assert!(gone_at < last_announce + PEER_TIMEOUT_MS + REAPER_INTERVAL_MS);
}

#[test]
fn two_peers_list_each_other() {
    let mut at_a = SharedState::new();
    let mut at_b = SharedState::new();
    let from_a = announce_packet("A", "Alice", 9999);
    let from_b = announce_packet("B", "Bob", 9999);
    for (pkt, ip) in [(from_a.clone(), "10.0.0.1"), (from_b.clone(), "10.0.0.2")] {
        handle_packet(&mut at_a, "A", pkt.clone(), ip, 3000);
        handle_packet(&mut at_b, "B", pkt, ip, 3000);
    }
    let list_a = peer_list(&at_a);
    let list_b = peer_list(&at_b);
    assert_eq!(list_a.len(), 1);
    assert_eq!(list_a[0].peer_id, "B");
    assert_eq!(list_a[0].username, "Bob");
    assert_eq!(list_a[0].ip, "10.0.0.2");
    assert_eq!(list_b.len(), 1);
    assert_eq!(list_b[0].peer_id, "A");
    assert_eq!(list_b[0].ip, "10.0.0.1");
}

#[test]
fn churn_drops_the_peer_that_was_killed() {
    let mut at_a = SharedState::new();
    handle_packet(&mut at_a, "A", announce("B", "Bob", 9999), "10.0.0.2", 0);
    handle_packet(&mut at_a, "A", announce("C", "Carol", 9999), "10.0.0.3", 0);
    let mut now = 3000;
    while now <= 15000 {
        handle_packet(&mut at_a, "A", announce("B", "Bob", 9999), "10.0.0.2", now);
        now += 3000;
    }
    let changed = reap(&mut at_a, 15000, PEER_TIMEOUT_MS);
    assert!(changed);
    let list = peer_list(&at_a);
    assert_eq!(list.len(), 1);
    assert_eq!(list[0].peer_id, "B");
}

#[test]
fn peer_list_keeps_the_order_of_first_appearance() {
    let mut state = SharedState::new();
    handle_packet(&mut state, "A", announce("C", "Carol", 1), "10.0.0.3", 1);
    handle_packet(&mut state, "A", announce("B", "Bob", 2), "10.0.0.2", 2);
    handle_packet(&mut state, "A", announce("C", "Caroline", 3), "10.0.0.33", 3);
    let list = peer_list(&state);
    assert_eq!(list.len(), 2);
    assert_eq!(list[0].peer_id, "C");
    assert_eq!(list[0].username, "Caroline");
    assert_eq!(list[0].ip, "10.0.0.33");
    assert_eq!(list[1].peer_id, "B");
    assert_eq!(peer_list(&SharedState::new()).len(), 0);
}

#[test]
fn announcements_of_others_are_stored() {
    let mut db = Database::open(":memory:").unwrap();
    assert!(persist_announce(&mut db, "A", &announce("B", "Bob", 9999), "10.0.0.2"));
    assert!(persist_announce(&mut db, "A", &announce("B", "Bob", 9999), "10.0.0.2"));
    assert!(!persist_announce(&mut db, "A", &announce("A", "Alice", 9999), "10.0.0.1"));
    assert!(!persist_announce(&mut db, "A", &goodbye_packet("B"), "10.0.0.2"));
}
