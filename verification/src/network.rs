//! The life of one connection: the exchange of `Hello` frames, the
//! registration in the connection table, and what each frame that
//! arrives asks for.

use vstd::prelude::*;
use vstd::string::*;
use crate::db::{
    add_member_statement, are_group_rows, create_group_statement, groups_statement,
    insert_message_statement, remove_member_statement, status_delivered,
    update_status_statement, Database, MessageRow, MessageRowView,
};
use crate::ipc::{UiEvent, UiEventView};
use crate::protocol::{texts, TcpMessage, TcpMessageView};
use crate::sqlite::QueryView;
use crate::state::{ConnectionHandle, SharedState};

verus! {

/// The TCP port on which peers accept connections.
pub const TCP_PORT: u16 = 9999;

/// What a frame that arrived asks of the store, the frontend, the window
/// and the connection it came on, in the order in which it is done.
#[derive(Debug)]
pub enum Effect {
    /// Insert the row, unless a row of that id is stored already.
    StoreMessage(MessageRow),
    /// Show the row to the user (`incoming_message`).
    ShowMessage(MessageRow),
    /// Flash or bounce the window if it is not focused.
    RequestAttention,
    /// Write the frame on the connection that the frame came on.
    Reply(TcpMessage),
    /// Set the status of the stored message.
    UpdateStatus { message_id: String, status: String },
    /// Tell the frontend of the new status (`message_ack`).
    ShowAck { message_id: String, status: String },
    /// Store the group, unless one of that id is stored already.
    CreateGroup { group_id: String, name: String, creator_id: String },
    /// Make the peer a member of the group.
    AddMember { group_id: String, peer_id: String },
    /// End the peer's membership of the group.
    RemoveMember { group_id: String, peer_id: String },
    /// Send the stored groups to the frontend (`group_list`).
    ShowGroups,
}

/// The mathematical value of an [`Effect`].
pub enum EffectView {
    StoreMessage(MessageRowView),
    ShowMessage(MessageRowView),
    RequestAttention,
    Reply(TcpMessageView),
    UpdateStatus { message_id: Seq<char>, status: Seq<char> },
    ShowAck { message_id: Seq<char>, status: Seq<char> },
    CreateGroup { group_id: Seq<char>, name: Seq<char>, creator_id: Seq<char> },
    AddMember { group_id: Seq<char>, peer_id: Seq<char> },
    RemoveMember { group_id: Seq<char>, peer_id: Seq<char> },
    ShowGroups,
}

impl View for Effect {
    type V = EffectView;

    open spec fn view(&self) -> EffectView {
        match *self {
            Effect::StoreMessage(row) => EffectView::StoreMessage(row@),
            Effect::ShowMessage(row) => EffectView::ShowMessage(row@),
            Effect::RequestAttention => EffectView::RequestAttention,
            Effect::Reply(frame) => EffectView::Reply(frame@),
            Effect::UpdateStatus { message_id, status } => EffectView::UpdateStatus {
                message_id: message_id@,
                status: status@,
            },
            Effect::ShowAck { message_id, status } => EffectView::ShowAck {
                message_id: message_id@,
                status: status@,
            },
            Effect::CreateGroup { group_id, name, creator_id } => EffectView::CreateGroup {
                group_id: group_id@,
                name: name@,
                creator_id: creator_id@,
            },
            Effect::AddMember { group_id, peer_id } => EffectView::AddMember {
                group_id: group_id@,
                peer_id: peer_id@,
            },
            Effect::RemoveMember { group_id, peer_id } => EffectView::RemoveMember {
                group_id: group_id@,
                peer_id: peer_id@,
            },
            Effect::ShowGroups => EffectView::ShowGroups,
        }
    }
}

impl DeepView for Effect {
    type V = EffectView;

    open spec fn deep_view(&self) -> EffectView {
        self@
    }
}

/// The row under which a message that came in is stored: a direct
/// message in the conversation with its sender, a group message in that
/// of its group, both as delivered.
pub open spec fn incoming_row(frame: TcpMessageView) -> MessageRowView
    recommends
        frame is DirectMessage || frame is GroupMessage,
{
    match frame {
        TcpMessageView::DirectMessage { id, from_id, from_name, content, timestamp } => {
            MessageRowView {
                id,
                conversation_id: from_id,
                from_id,
                from_name,
                content,
                timestamp,
                is_group: false,
                status: status_delivered(),
            }
        },
        TcpMessageView::GroupMessage { id, group_id, from_id, from_name, content, timestamp } => {
            MessageRowView {
                id,
                conversation_id: group_id,
                from_id,
                from_name,
                content,
                timestamp,
                is_group: true,
                status: status_delivered(),
            }
        },
        _ => arbitrary(),
    }
}

/// The confirmation that answers the message `id`.
pub open spec fn delivered_ack(id: Seq<char>) -> TcpMessageView {
    TcpMessageView::Ack { message_id: id, status: status_delivered() }
}

/// What a message that came in asks for: store it, show it, call for the
/// user's attention, confirm it to the sender.
pub open spec fn message_effects(frame: TcpMessageView, id: Seq<char>) -> Seq<EffectView> {
    seq![
        EffectView::StoreMessage(incoming_row(frame)),
        EffectView::ShowMessage(incoming_row(frame)),
        EffectView::RequestAttention,
        EffectView::Reply(delivered_ack(id)),
    ]
}

/// What the frame `frame` asks for on an established connection.
pub open spec fn frame_effects(frame: TcpMessageView) -> Seq<EffectView> {
    match frame {
        TcpMessageView::Hello { .. } => Seq::empty(),
        TcpMessageView::DirectMessage { id, .. } => message_effects(frame, id),
        TcpMessageView::GroupMessage { id, .. } => message_effects(frame, id),
        TcpMessageView::Ack { message_id, status } => seq![
            EffectView::UpdateStatus { message_id, status },
            EffectView::ShowAck { message_id, status },
        ],
        TcpMessageView::GroupCreate { group_id, name, creator_id, members } => {
            seq![EffectView::CreateGroup { group_id, name, creator_id }] + Seq::new(
                members.len(),
                |i: int| EffectView::AddMember { group_id, peer_id: members[i] },
            ) + seq![EffectView::ShowGroups]
        },
        TcpMessageView::GroupMemberAdd { group_id, peer_id } => seq![
            EffectView::AddMember { group_id, peer_id },
        ],
        TcpMessageView::GroupMemberRemove { group_id, peer_id } => seq![
            EffectView::RemoveMember { group_id, peer_id },
        ],
    }
}

/// The effects of a message that came in, for the row `row` and the
/// message id `id`.
fn message_effects_of(row: MessageRow, id: &String) -> (effects: Vec<Effect>)
    ensures
        effects.deep_view() == seq![
            EffectView::StoreMessage(row@),
            EffectView::ShowMessage(row@),
            EffectView::RequestAttention,
            EffectView::Reply(delivered_ack(id@)),
        ],
{
    let shown = row.clone();
    let ack = TcpMessage::Ack { message_id: id.clone(), status: String::from_str("delivered") };
    let mut effects: Vec<Effect> = Vec::new();
    effects.push(Effect::StoreMessage(row));
    effects.push(Effect::ShowMessage(shown));
    effects.push(Effect::RequestAttention);
    effects.push(Effect::Reply(ack));
    assert(effects.deep_view() =~= seq![
        EffectView::StoreMessage(row@),
        EffectView::ShowMessage(row@),
        EffectView::RequestAttention,
        EffectView::Reply(delivered_ack(id@)),
    ]);
    effects
}

/// Decides what a frame that arrived on an established connection asks
/// for. A `Hello` in mid-stream asks for nothing.
pub fn handle_frame(frame: &TcpMessage) -> (effects: Vec<Effect>)
    ensures
        effects.deep_view() == frame_effects(frame@),
{
    match frame {
        TcpMessage::Hello { .. } => {
            let effects: Vec<Effect> = Vec::new();
            assert(effects.deep_view() =~= Seq::<EffectView>::empty());
            effects
        },
        TcpMessage::DirectMessage { id, from_id, from_name, content, timestamp } => {
            let row = MessageRow {
                id: id.clone(),
                conversation_id: from_id.clone(),
                from_id: from_id.clone(),
                from_name: from_name.clone(),
                content: content.clone(),
                timestamp: timestamp.clone(),
                is_group: false,
                status: String::from_str("delivered"),
            };
            message_effects_of(row, id)
        },
        TcpMessage::GroupMessage { id, group_id, from_id, from_name, content, timestamp } => {
            let row = MessageRow {
                id: id.clone(),
                conversation_id: group_id.clone(),
                from_id: from_id.clone(),
                from_name: from_name.clone(),
                content: content.clone(),
                timestamp: timestamp.clone(),
                is_group: true,
                status: String::from_str("delivered"),
            };
            message_effects_of(row, id)
        },
        TcpMessage::Ack { message_id, status } => {
            let mut effects: Vec<Effect> = Vec::new();
            effects.push(
                Effect::UpdateStatus { message_id: message_id.clone(), status: status.clone() },
            );
            effects.push(Effect::ShowAck { message_id: message_id.clone(), status: status.clone() });
            assert(effects.deep_view() =~= frame_effects(frame@));
            effects
        },
        TcpMessage::GroupCreate { group_id, name, creator_id, members } => {
            let mut effects: Vec<Effect> = Vec::new();
            effects.push(
                Effect::CreateGroup {
                    group_id: group_id.clone(),
                    name: name.clone(),
                    creator_id: creator_id.clone(),
                },
            );
            let ghost head = seq![
                EffectView::CreateGroup { group_id: group_id@, name: name@, creator_id: creator_id@ },
            ];
            let ghost names = texts(members@);
            let mut i: usize = 0;
            while i < members.len()
                invariant
                    i <= members.len(),
                    names == texts(members@),
                    effects.len() == i + 1,
                    head.len() == 1,
                    effects[0]@ == head[0],
                    forall|k: int|
                        0 <= k < i ==> #[trigger] effects[k + 1]@ == (EffectView::AddMember {
                            group_id: group_id@,
                            peer_id: names[k],
                        }),
                decreases members.len() - i,
            {
                effects.push(
                    Effect::AddMember { group_id: group_id.clone(), peer_id: members[i].clone() },
                );
                i += 1;
            }
            effects.push(Effect::ShowGroups);
            proof {
                let adds = Seq::new(
                    names.len(),
                    |k: int| EffectView::AddMember { group_id: group_id@, peer_id: names[k] },
                );
                let want = head + adds + seq![EffectView::ShowGroups];
                assert(effects.deep_view().len() == want.len());
                assert forall|k: int| 0 <= k < want.len() implies effects.deep_view()[k]
                    == want[k] by {
                    if k == 0 {
                    } else if k <= names.len() {
                        assert(effects[(k - 1) + 1]@ == adds[k - 1]);
                    } else {
                    }
                }
                assert(effects.deep_view() =~= want);
            }
            effects
        },
        TcpMessage::GroupMemberAdd { group_id, peer_id } => {
            let mut effects: Vec<Effect> = Vec::new();
            effects.push(Effect::AddMember { group_id: group_id.clone(), peer_id: peer_id.clone() });
            assert(effects.deep_view() =~= frame_effects(frame@));
            effects
        },
        TcpMessage::GroupMemberRemove { group_id, peer_id } => {
            let mut effects: Vec<Effect> = Vec::new();
            effects.push(
                Effect::RemoveMember { group_id: group_id.clone(), peer_id: peer_id.clone() },
            );
            assert(effects.deep_view() =~= frame_effects(frame@));
            effects
        },
    }
}

/// Where a connection stands. Only an established connection carries
/// messages, and a closed one stays closed.
#[derive(Clone, Copy, PartialEq, Eq, Debug, Structural)]
pub enum Phase {
    Opening,
    AwaitingHello,
    Established,
    Closed,
}

/// One connection as its handler sees it: its phase, the handle of its
/// write side, and, once established, the id of the peer at the other end.
#[derive(Debug)]
pub struct Session {
    pub phase: Phase,
    pub handle: ConnectionHandle,
    pub remote: String,
}

/// What happened on a connection.
#[derive(Debug)]
pub enum Event {
    /// The socket is open: accepted, or connected.
    Ready,
    /// A line arrived and was decoded.
    Frame(TcpMessage),
    /// A line arrived that is no frame.
    Unreadable,
    /// The stream ended, or reading or the first write failed.
    Ended,
}

/// The mathematical value of an [`Event`].
pub enum EventView {
    Ready,
    Frame(TcpMessageView),
    Unreadable,
    Ended,
}

impl View for Event {
    type V = EventView;

    open spec fn view(&self) -> EventView {
        match *self {
            Event::Ready => EventView::Ready,
            Event::Frame(frame) => EventView::Frame(frame@),
            Event::Unreadable => EventView::Unreadable,
            Event::Ended => EventView::Ended,
        }
    }
}

/// Whether `event` is the `Hello` that completes the handshake.
pub open spec fn is_hello(event: EventView) -> bool {
    event is Frame && event->Frame_0 is Hello
}

/// The phase after `event`: an open socket awaits the peer's `Hello`; the
/// first line must be that `Hello`, anything else closes; an established
/// connection lives until its stream ends.
pub open spec fn next_phase(phase: Phase, event: EventView) -> Phase {
    match phase {
        Phase::Opening => if event is Ready {
            Phase::AwaitingHello
        } else {
            Phase::Closed
        },
        Phase::AwaitingHello => if is_hello(event) {
            Phase::Established
        } else {
            Phase::Closed
        },
        Phase::Established => if event is Ended {
            Phase::Closed
        } else {
            Phase::Established
        },
        Phase::Closed => Phase::Closed,
    }
}

/// What `event` asks for in `phase`: the local `Hello` as soon as the
/// socket is open, and on an established connection what the frame asks.
pub open spec fn connection_effects(
    phase: Phase,
    event: EventView,
    my_peer_id: Seq<char>,
    my_username: Seq<char>,
) -> Seq<EffectView> {
    match (phase, event) {
        (Phase::Opening, EventView::Ready) => seq![
            EffectView::Reply(TcpMessageView::Hello { peer_id: my_peer_id, username: my_username }),
        ],
        (Phase::Established, EventView::Frame(frame)) => frame_effects(frame),
        _ => Seq::empty(),
    }
}

/// The connection table after `event`: the handshake's `Hello` files the
/// connection under the remote peer's id, in place of any entry that was
/// there; the end of an established connection removes the entry of its
/// peer if that entry still is this connection.
pub open spec fn connections_after(
    connections: Map<Seq<char>, ConnectionHandle>,
    phase: Phase,
    handle: ConnectionHandle,
    remote: Seq<char>,
    event: EventView,
) -> Map<Seq<char>, ConnectionHandle> {
    match phase {
        Phase::AwaitingHello => if is_hello(event) {
            connections.insert(event->Frame_0->Hello_peer_id, handle)
        } else {
            connections
        },
        Phase::Established => if event is Ended && connections.contains_key(remote)
            && connections[remote] == handle {
            connections.remove(remote)
        } else {
            connections
        },
        _ => connections,
    }
}

/// The remote peer's id after `event`: learnt from the handshake's `Hello`.
pub open spec fn remote_after(phase: Phase, remote: Seq<char>, event: EventView) -> Seq<char> {
    if phase == Phase::AwaitingHello && is_hello(event) {
        event->Frame_0->Hello_peer_id
    } else {
        remote
    }
}

impl Session {
    /// A connection whose socket is being opened, with the handle of its
    /// write side.
    pub fn new(handle: ConnectionHandle) -> (c: Session)
        ensures
            c.phase == Phase::Opening,
            c.handle == handle,
            c.remote@ == Seq::<char>::empty(),
    {
        Session { phase: Phase::Opening, handle, remote: String::new() }
    }
}

/// One step of a connection's handler, the same on the accepting and on
/// the connecting side: moves the connection to its next phase, keeps the
/// connection table, and returns what is to be done, in order.
pub fn handle_connection(
    conn: &mut Session,
    state: &mut SharedState,
    my_peer_id: &str,
    my_username: &str,
    event: Event,
) -> (effects: Vec<Effect>)
    requires
        old(state).wf(),
    ensures
        final(state).wf(),
        final(state).peers == old(state).peers,
        final(conn).handle == old(conn).handle,
        final(conn).phase == next_phase(old(conn).phase, event@),
        final(conn).remote@ == remote_after(old(conn).phase, old(conn).remote@, event@),
        final(state).connections@ == connections_after(
            old(state).connections@,
            old(conn).phase,
            old(conn).handle,
            old(conn).remote@,
            event@,
        ),
        effects.deep_view() == connection_effects(
            old(conn).phase,
            event@,
            my_peer_id@,
            my_username@,
        ),
{
    let mut effects: Vec<Effect> = Vec::new();
    assert(effects.deep_view() =~= Seq::<EffectView>::empty());
    match conn.phase {
        Phase::Opening => {
            match event {
                Event::Ready => {
                    conn.phase = Phase::AwaitingHello;
                    effects.push(
                        Effect::Reply(
                            TcpMessage::Hello {
                                peer_id: String::from_str(my_peer_id),
                                username: String::from_str(my_username),
                            },
                        ),
                    );
                    assert(effects.deep_view() =~= connection_effects(
                        Phase::Opening,
                        event@,
                        my_peer_id@,
                        my_username@,
                    ));
                },
                _ => {
                    conn.phase = Phase::Closed;
                },
            }
        },
        Phase::AwaitingHello => {
            match event {
                Event::Frame(TcpMessage::Hello { peer_id, username: _ }) => {
                    state.register(peer_id.as_str(), conn.handle);
                    conn.remote = peer_id;
                    conn.phase = Phase::Established;
                },
                _ => {
                    conn.phase = Phase::Closed;
                },
            }
        },
        Phase::Established => {
            match event {
                Event::Frame(frame) => {
                    effects = handle_frame(&frame);
                },
                Event::Ended => {
                    state.release(conn.remote.as_str(), conn.handle);
                    conn.phase = Phase::Closed;
                },
                _ => {},
            }
        },
        Phase::Closed => {},
    }
    effects
}

/// A connection is registered only by a `Hello` that arrives while the
/// handshake is awaited: no other step adds an entry to the connection
/// table, and a step that moves to `Established` has filed the connection
/// under the peer that the `Hello` named.
pub proof fn lemma_registered_after_hello(
    connections: Map<Seq<char>, ConnectionHandle>,
    phase: Phase,
    handle: ConnectionHandle,
    remote: Seq<char>,
    event: EventView,
)
    ensures
        !(phase == Phase::AwaitingHello && is_hello(event)) ==> connections_after(
            connections,
            phase,
            handle,
            remote,
            event,
        ).dom().subset_of(connections.dom()),
        phase != Phase::Established && next_phase(phase, event) == Phase::Established ==> {
            let after = connections_after(connections, phase, handle, remote, event);
            let peer = remote_after(phase, remote, event);
            after.contains_key(peer) && after[peer] == handle
        },
        next_phase(Phase::Closed, event) == Phase::Closed,
{
}

/// The end of a connection that was superseded leaves the entry of the
/// connection that took its place.
pub proof fn lemma_superseded_end_keeps_survivor(
    connections: Map<Seq<char>, ConnectionHandle>,
    peer: Seq<char>,
    first: ConnectionHandle,
    second: ConnectionHandle,
)
    requires
        first != second,
    ensures
        connections_after(
            connections.insert(peer, first).insert(peer, second),
            Phase::Established,
            first,
            peer,
            EventView::Ended,
        ) == connections.insert(peer, second),
{
    assert(connections.insert(peer, first).insert(peer, second) =~= connections.insert(
        peer,
        second,
    ));
}

/// A delivered direct message is confirmed exactly once: among the
/// things that the frame asks for there is exactly one reply, the
/// confirmation of its id as delivered; and among those that this
/// confirmation asks for at the sender there is exactly one change of
/// status, of that message to delivered, and no reply.
pub proof fn lemma_ack_round_trip(
    id: Seq<char>,
    from_id: Seq<char>,
    from_name: Seq<char>,
    content: Seq<char>,
    timestamp: Seq<char>,
)
    ensures
        ({
            let frame = TcpMessageView::DirectMessage { id, from_id, from_name, content, timestamp };
            let at_receiver = frame_effects(frame);
            let at_sender = frame_effects(delivered_ack(id));
            &&& at_receiver.len() == 4
            &&& at_receiver[3] == EffectView::Reply(delivered_ack(id))
            &&& forall|i: int| 0 <= i < 3 ==> !(#[trigger] at_receiver[i] is Reply)
            &&& at_sender.len() == 2
            &&& at_sender[0] == (EffectView::UpdateStatus {
                message_id: id,
                status: status_delivered(),
            })
            &&& !(at_sender[1] is UpdateStatus)
            &&& forall|i: int| 0 <= i < 2 ==> !(#[trigger] at_sender[i] is Reply)
        }),
{
}

/// What leaves the engine when an effect is carried out.
#[derive(Debug)]
pub enum Outward {
    /// An event for the frontend.
    Emit(UiEvent),
    /// A frame for the connection that the effect's frame came on.
    Reply(TcpMessage),
    /// The call for the user's attention.
    RequestAttention,
}

/// The mathematical value of an [`Outward`].
pub enum OutwardView {
    Emit(UiEventView),
    Reply(TcpMessageView),
    RequestAttention,
}

impl View for Outward {
    type V = OutwardView;

    open spec fn view(&self) -> OutwardView {
        match *self {
            Outward::Emit(event) => OutwardView::Emit(event@),
            Outward::Reply(frame) => OutwardView::Reply(frame@),
            Outward::RequestAttention => OutwardView::RequestAttention,
        }
    }
}

/// What leaves the engine for `effect`: nothing for a change of the
/// store; the event, the frame or the call that the effect names; and
/// for the groups a list of rows that the store gave.
pub open spec fn performed(effect: EffectView, out: Option<OutwardView>) -> bool {
    match effect {
        EffectView::ShowMessage(row) => out == Some(
            OutwardView::Emit(UiEventView::IncomingMessage(row)),
        ),
        EffectView::RequestAttention => out == Some(OutwardView::RequestAttention),
        EffectView::Reply(frame) => out == Some(OutwardView::Reply(frame)),
        EffectView::ShowAck { message_id, status } => out == Some(
            OutwardView::Emit(UiEventView::MessageAck { message_id, status }),
        ),
        EffectView::ShowGroups => out matches Some(OutwardView::Emit(UiEventView::GroupList(groups)))
            && are_group_rows(groups),
        _ => out is None,
    }
}

/// The statements that `effect` hands to the store: one for each change
/// of the store that it asks for, none for the rest.
pub open spec fn effect_statements(effect: EffectView) -> Seq<QueryView> {
    match effect {
        EffectView::StoreMessage(row) => seq![insert_message_statement(row)],
        EffectView::UpdateStatus { message_id, status } => seq![
            update_status_statement(message_id, status),
        ],
        EffectView::CreateGroup { group_id, name, creator_id } => seq![
            create_group_statement(group_id, name, creator_id),
        ],
        EffectView::AddMember { group_id, peer_id } => seq![add_member_statement(group_id, peer_id)],
        EffectView::RemoveMember { group_id, peer_id } => seq![
            remove_member_statement(group_id, peer_id),
        ],
        _ => Seq::empty(),
    }
}

/// The queries that `effect` hands to the store: the query for all
/// groups where the groups are to be shown, none for the rest.
pub open spec fn effect_queries(effect: EffectView) -> Seq<QueryView> {
    match effect {
        EffectView::ShowGroups => seq![groups_statement()],
        _ => Seq::empty(),
    }
}

/// Carries out one effect: hands the store the statement or the query
/// that the effect asks for, and returns what is to leave the engine. A
/// failure of the store is not reported to the peer: the frame is
/// dropped as far as the store is concerned, and the connection goes on.
pub fn perform(db: &mut Database, effect: Effect) -> (out: Option<Outward>)
    ensures
        performed(
            effect@,
            match out {
                Some(o) => Some(o@),
                None => None,
            },
        ),
        final(db).issued() == old(db).issued() + effect_statements(effect@),
        final(db).asked() == old(db).asked() + effect_queries(effect@),
{
    let out = match effect {
        Effect::StoreMessage(row) => {
            let _ = db.insert_message(&row);
            None
        },
        Effect::ShowMessage(row) => Some(Outward::Emit(UiEvent::IncomingMessage(row))),
        Effect::RequestAttention => Some(Outward::RequestAttention),
        Effect::Reply(frame) => Some(Outward::Reply(frame)),
        Effect::UpdateStatus { message_id, status } => {
            let _ = db.update_message_status(message_id.as_str(), status.as_str());
            None
        },
        Effect::ShowAck { message_id, status } => Some(
            Outward::Emit(UiEvent::MessageAck { message_id, status }),
        ),
        Effect::CreateGroup { group_id, name, creator_id } => {
            let _ = db.create_group(group_id.as_str(), name.as_str(), creator_id.as_str());
            None
        },
        Effect::AddMember { group_id, peer_id } => {
            let _ = db.add_group_member(group_id.as_str(), peer_id.as_str());
            None
        },
        Effect::RemoveMember { group_id, peer_id } => {
            let _ = db.remove_group_member(group_id.as_str(), peer_id.as_str());
            None
        },
        Effect::ShowGroups => {
            let groups = db.get_groups();
            Some(Outward::Emit(UiEvent::GroupList(groups)))
        },
    };
    assert(db.issued() =~= old(db).issued() + effect_statements(effect@));
    assert(db.asked() =~= old(db).asked() + effect_queries(effect@));
    out
}

/// The decimal digit of `d`.
pub open spec fn digit(d: nat) -> char
    recommends
        d < 10,
{
    (('0' as nat) + d) as char
}

/// The number `n` in decimal, without leading zeros.
pub open spec fn decimal(n: nat) -> Seq<char>
    decreases n,
{
    if n < 10 {
        seq![digit(n)]
    } else {
        decimal(n / 10).push(digit(n % 10))
    }
}

/// The text of one decimal digit.
fn digit_text(d: u16) -> (text: &'static str)
    requires
        d < 10,
    ensures
        text@ == seq![digit(d as nat)],
{
    proof {
        reveal_strlit("0");
        reveal_strlit("1");
        reveal_strlit("2");
        reveal_strlit("3");
        reveal_strlit("4");
        reveal_strlit("5");
        reveal_strlit("6");
        reveal_strlit("7");
        reveal_strlit("8");
        reveal_strlit("9");
    }
    let text = if d == 0 {
        "0"
    } else if d == 1 {
        "1"
    } else if d == 2 {
        "2"
    } else if d == 3 {
        "3"
    } else if d == 4 {
        "4"
    } else if d == 5 {
        "5"
    } else if d == 6 {
        "6"
    } else if d == 7 {
        "7"
    } else if d == 8 {
        "8"
    } else {
        "9"
    };
    assert(text@ =~= seq![digit(d as nat)]);
    text
}

/// Writes `n` in decimal behind `out`.
fn push_decimal(out: &mut String, n: u16)
    ensures
        final(out)@ == old(out)@ + decimal(n as nat),
    decreases n,
{
    if n >= 10 {
        push_decimal(out, n / 10);
    }
    out.append(digit_text(n % 10));
    assert(out@ =~= old(out)@ + decimal(n as nat));
}

/// The address of the port `port` at the host `ip`, as a socket takes
/// it: the host, a colon, the port in decimal.
pub open spec fn address_of(ip: Seq<char>, port: u16) -> Seq<char> {
    ip.push(':') + decimal(port as nat)
}

/// The address at which a peer accepts connections.
pub fn peer_address(ip: &str, port: u16) -> (address: String)
    ensures
        address@ == address_of(ip@, port),
{
    let mut address = String::from_str(ip);
    proof {
        reveal_strlit(":");
    }
    address.append(":");
    push_decimal(&mut address, port);
    assert(address@ =~= address_of(ip@, port));
    address
}

/// The address on which the listener accepts connections: every
/// interface, the port of the message protocol.
pub fn listen_address() -> (address: String)
    ensures
        address@ == address_of("0.0.0.0"@, TCP_PORT),
{
    peer_address("0.0.0.0", TCP_PORT)
}

/// What the connecting side starts from: the address to connect to, and
/// the session of the connection that is being opened, which from there
/// on is handled as an accepted one is.
pub fn connect_to_peer(peer_ip: &str, peer_tcp_port: u16, handle: ConnectionHandle) -> (r: (
    String,
    Session,
))
    ensures
        r.0@ == address_of(peer_ip@, peer_tcp_port),
        r.1.phase == Phase::Opening,
        r.1.handle == handle,
        r.1.remote@ == Seq::<char>::empty(),
{
    (peer_address(peer_ip, peer_tcp_port), Session::new(handle))
}

} // verus!
