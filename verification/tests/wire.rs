use gustavio::protocol::{clone_strings, frame_line, payload_of_line, TcpMessage, UdpPacket};

#[test]
fn frame_ends_with_one_line_feed() {
    assert_eq!(frame_line("{\"type\":\"Hello\"}".to_string()), "{\"type\":\"Hello\"}\n");
    assert_eq!(frame_line(String::new()), "\n");
    assert_eq!(frame_line("a\n".to_string()), "a\n\n");
}

#[test]
fn line_is_trimmed_and_blank_lines_are_skipped() {
    assert_eq!(payload_of_line("{\"type\":\"Hello\"}\n"), Some("{\"type\":\"Hello\"}".to_string()));
    assert_eq!(payload_of_line("  {}\r\n"), Some("{}".to_string()));
    assert_eq!(payload_of_line("\n"), None);
    assert_eq!(payload_of_line(""), None);
    assert_eq!(payload_of_line(" \t\u{0b}\u{0c}\r\n"), None);
    assert_eq!(payload_of_line("a b"), Some("a b".to_string()));
    assert_eq!(payload_of_line("\u{1680}x\u{202f}\u{205f}"), Some("x".to_string()));
    assert_eq!(payload_of_line("\u{1c}x\u{1f}"), Some("\u{1c}x\u{1f}".to_string()));
}

#[test]
fn copies_keep_every_field() {
    let v = vec!["A".to_string(), "".to_string(), "C".to_string()];
    assert_eq!(clone_strings(&v), v);
    let frame = TcpMessage::GroupCreate {
        group_id: "G1".to_string(),
        name: "dev".to_string(),
        creator_id: "A".to_string(),
        members: v.clone(),
    };
    match frame.clone() {
        TcpMessage::GroupCreate { group_id, name, creator_id, members } => {
            assert_eq!(group_id, "G1");
            assert_eq!(name, "dev");
            assert_eq!(creator_id, "A");
            assert_eq!(members, v);
        }
        other => panic!("unexpected {:?}", other),
    }
    let pkt = UdpPacket::Announce {
        peer_id: "A".to_string(),
        username: "Alice".to_string(),
        tcp_port: 9999,
    };
    match pkt.clone() {
        UdpPacket::Announce { peer_id, username, tcp_port } => {
            assert_eq!(peer_id, "A");
            assert_eq!(username, "Alice");
            assert_eq!(tcp_port, 9999);
        }
        other => panic!("unexpected {:?}", other),
    }
}
