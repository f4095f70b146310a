//! The two tagged unions that travel between peers: presence packets over
//! UDP and frames over TCP, with their mathematical values and the framing
//! of one frame per line.

use vstd::prelude::*;
use vstd::string::*;

verus! {

/// A presence packet.
#[derive(Debug)]
pub enum UdpPacket {
    Announce { peer_id: String, username: String, tcp_port: u16 },
    Goodbye { peer_id: String },
}

/// The mathematical value of a [`UdpPacket`].
pub enum UdpPacketView {
    Announce { peer_id: Seq<char>, username: Seq<char>, tcp_port: u16 },
    Goodbye { peer_id: Seq<char> },
}

impl View for UdpPacket {
    type V = UdpPacketView;

    open spec fn view(&self) -> UdpPacketView {
        match *self {
            UdpPacket::Announce { peer_id, username, tcp_port } => UdpPacketView::Announce {
                peer_id: peer_id@,
                username: username@,
                tcp_port,
            },
            UdpPacket::Goodbye { peer_id } => UdpPacketView::Goodbye { peer_id: peer_id@ },
        }
    }
}

impl Clone for UdpPacket {
    fn clone(&self) -> (res: UdpPacket)
        ensures
            res@ == self@,
    {
        match self {
            UdpPacket::Announce { peer_id, username, tcp_port } => UdpPacket::Announce {
                peer_id: peer_id.clone(),
                username: username.clone(),
                tcp_port: *tcp_port,
            },
            UdpPacket::Goodbye { peer_id } => UdpPacket::Goodbye { peer_id: peer_id.clone() },
        }
    }
}

/// A frame of the message protocol.
#[derive(Debug)]
pub enum TcpMessage {
    Hello { peer_id: String, username: String },
    DirectMessage { id: String, from_id: String, from_name: String, content: String, timestamp: String },
    GroupMessage {
        id: String,
        group_id: String,
        from_id: String,
        from_name: String,
        content: String,
        timestamp: String,
    },
    Ack { message_id: String, status: String },
    GroupCreate { group_id: String, name: String, creator_id: String, members: Vec<String> },
    GroupMemberAdd { group_id: String, peer_id: String },
    GroupMemberRemove { group_id: String, peer_id: String },
}

/// The mathematical value of a [`TcpMessage`].
pub enum TcpMessageView {
    Hello { peer_id: Seq<char>, username: Seq<char> },
    DirectMessage {
        id: Seq<char>,
        from_id: Seq<char>,
        from_name: Seq<char>,
        content: Seq<char>,
        timestamp: Seq<char>,
    },
    GroupMessage {
        id: Seq<char>,
        group_id: Seq<char>,
        from_id: Seq<char>,
        from_name: Seq<char>,
        content: Seq<char>,
        timestamp: Seq<char>,
    },
    Ack { message_id: Seq<char>, status: Seq<char> },
    GroupCreate { group_id: Seq<char>, name: Seq<char>, creator_id: Seq<char>, members: Seq<Seq<char>> },
    GroupMemberAdd { group_id: Seq<char>, peer_id: Seq<char> },
    GroupMemberRemove { group_id: Seq<char>, peer_id: Seq<char> },
}

/// The texts that a list of strings holds, in order.
pub open spec fn texts(v: Seq<String>) -> Seq<Seq<char>> {
    Seq::new(v.len(), |i: int| v[i]@)
}

impl View for TcpMessage {
    type V = TcpMessageView;

    open spec fn view(&self) -> TcpMessageView {
        match *self {
            TcpMessage::Hello { peer_id, username } => TcpMessageView::Hello {
                peer_id: peer_id@,
                username: username@,
            },
            TcpMessage::DirectMessage { id, from_id, from_name, content, timestamp } => {
                TcpMessageView::DirectMessage {
                    id: id@,
                    from_id: from_id@,
                    from_name: from_name@,
                    content: content@,
                    timestamp: timestamp@,
                }
            },
            TcpMessage::GroupMessage { id, group_id, from_id, from_name, content, timestamp } => {
                TcpMessageView::GroupMessage {
                    id: id@,
                    group_id: group_id@,
                    from_id: from_id@,
                    from_name: from_name@,
                    content: content@,
                    timestamp: timestamp@,
                }
            },
            TcpMessage::Ack { message_id, status } => TcpMessageView::Ack {
                message_id: message_id@,
                status: status@,
            },
            TcpMessage::GroupCreate { group_id, name, creator_id, members } => {
                TcpMessageView::GroupCreate {
                    group_id: group_id@,
                    name: name@,
                    creator_id: creator_id@,
                    members: texts(members@),
                }
            },
            TcpMessage::GroupMemberAdd { group_id, peer_id } => TcpMessageView::GroupMemberAdd {
                group_id: group_id@,
                peer_id: peer_id@,
            },
            TcpMessage::GroupMemberRemove { group_id, peer_id } => TcpMessageView::GroupMemberRemove {
                group_id: group_id@,
                peer_id: peer_id@,
            },
        }
    }
}

/// A copy of a list of strings.
pub fn clone_strings(v: &Vec<String>) -> (res: Vec<String>)
    ensures
        texts(res@) == texts(v@),
{
    let mut out: Vec<String> = Vec::new();
    let mut i: usize = 0;
    while i < v.len()
        invariant
            i <= v.len(),
            out.len() == i,
            forall|k: int| 0 <= k < i ==> out[k]@ == v[k]@,
        decreases v.len() - i,
    {
        out.push(v[i].clone());
        i += 1;
    }
    assert(texts(out@) =~= texts(v@));
    out
}

impl Clone for TcpMessage {
    fn clone(&self) -> (res: TcpMessage)
        ensures
            res@ == self@,
    {
        match self {
            TcpMessage::Hello { peer_id, username } => TcpMessage::Hello {
                peer_id: peer_id.clone(),
                username: username.clone(),
            },
            TcpMessage::DirectMessage { id, from_id, from_name, content, timestamp } => {
                TcpMessage::DirectMessage {
                    id: id.clone(),
                    from_id: from_id.clone(),
                    from_name: from_name.clone(),
                    content: content.clone(),
                    timestamp: timestamp.clone(),
                }
            },
            TcpMessage::GroupMessage { id, group_id, from_id, from_name, content, timestamp } => {
                TcpMessage::GroupMessage {
                    id: id.clone(),
                    group_id: group_id.clone(),
                    from_id: from_id.clone(),
                    from_name: from_name.clone(),
                    content: content.clone(),
                    timestamp: timestamp.clone(),
                }
            },
            TcpMessage::Ack { message_id, status } => TcpMessage::Ack {
                message_id: message_id.clone(),
                status: status.clone(),
            },
            TcpMessage::GroupCreate { group_id, name, creator_id, members } => {
                TcpMessage::GroupCreate {
                    group_id: group_id.clone(),
                    name: name.clone(),
                    creator_id: creator_id.clone(),
                    members: clone_strings(members),
                }
            },
            TcpMessage::GroupMemberAdd { group_id, peer_id } => TcpMessage::GroupMemberAdd {
                group_id: group_id.clone(),
                peer_id: peer_id.clone(),
            },
            TcpMessage::GroupMemberRemove { group_id, peer_id } => TcpMessage::GroupMemberRemove {
                group_id: group_id.clone(),
                peer_id: peer_id.clone(),
            },
        }
    }
}

/// The bytes' worth of text that carries one frame on the wire: the
/// frame's JSON followed by a line feed.
pub open spec fn framed(json: Seq<char>) -> Seq<char> {
    json.push('\n')
}

/// Terminates one serialized frame with a line feed, which separates the
/// frames on a connection.
pub fn frame_line(json: String) -> (line: String)
    ensures
        line@ == framed(json@),
{
    let mut line = json;
    proof {
        reveal_strlit("\n");
    }
    line.append("\n");
    assert(line@ =~= framed(json@));
    line
}

/// The characters that `char::is_whitespace` takes for white space.
pub open spec fn is_white(c: char) -> bool {
    let n = c as u32;
    ||| 0x09 <= n <= 0x0D
    ||| n == 0x20
    ||| n == 0x85
    ||| n == 0xA0
    ||| n == 0x1680
    ||| 0x2000 <= n <= 0x200A
    ||| n == 0x2028
    ||| n == 0x2029
    ||| n == 0x202F
    ||| n == 0x205F
    ||| n == 0x3000
}

/// `s` without the white space at its start.
pub open spec fn trim_start_of(s: Seq<char>) -> Seq<char>
    decreases s.len(),
{
    if s.len() > 0 && is_white(s[0]) {
        trim_start_of(s.subrange(1, s.len() as int))
    } else {
        s
    }
}

/// `s` without the white space at its end.
pub open spec fn trim_end_of(s: Seq<char>) -> Seq<char>
    decreases s.len(),
{
    if s.len() > 0 && is_white(s.last()) {
        trim_end_of(s.drop_last())
    } else {
        s
    }
}

/// `s` without the white space at its start and at its end.
pub open spec fn trim_of(s: Seq<char>) -> Seq<char> {
    trim_end_of(trim_start_of(s))
}

/// `str::trim`: the text without leading and trailing white space.
#[verifier::external_body]
pub(crate) fn trim(s: &str) -> (t: &str)
    ensures
        t@ == trim_of(s@),
{
    s.trim()
}

/// What a line that was read holds once the white space around it is
/// gone: none for a blank line, which is skipped.
pub fn payload_of_line(line: &str) -> (payload: Option<String>)
    ensures
        payload matches Some(p) ==> p@ == trim_of(line@) && p@.len() > 0,
        payload is None <==> trim_of(line@).len() == 0,
{
    let t = trim(line);
    if t.unicode_len() == 0 {
        None
    } else {
        Some(String::from_str(t))
    }
}

} // verus!
