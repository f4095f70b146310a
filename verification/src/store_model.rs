//! What the statements of the store are written to mean: an abstract
//! store, the change that each statement stands for, and the laws that
//! hold of a store that is changed by these statements alone. That the
//! database realises this meaning is not proved here; the laws say what
//! the engine relies on when it hands a statement over.

use vstd::prelude::*;
use vstd::string::*;
use crate::db::{
    add_member_statement, create_group_statement, insert_message_statement,
    remove_member_statement, set_config_statement, status_delivered, update_status_statement,
    upsert_peer_statement, GroupRowView, MessageRowView, ADD_MEMBER_SQL,
    CREATE_GROUP_SQL, INSERT_MESSAGE_SQL, REMOVE_MEMBER_SQL, SET_CONFIG_SQL, UPDATE_STATUS_SQL,
    UPSERT_PEER_SQL,
};
use crate::backend::{
    completion_statements, outgoing_status, resolved_id, with_status, PendingView, KEY_PEER_ID,
};
use crate::delivery::SendError;
use crate::network::{
    delivered_ack, effect_statements, frame_effects, incoming_row, EffectView,
};
use crate::protocol::TcpMessageView;
use crate::sqlite::{QueryView, SqlParamView};

verus! {

/// What the store keeps of a peer.
pub struct StoredPeer {
    pub username: Seq<char>,
    pub last_ip: Seq<char>,
    pub last_seen: Seq<char>,
}

/// The store: one value per configuration key, one record per peer, one
/// row per message id, one group per group id, and the memberships as a
/// set of pairs of group and peer.
pub struct Store {
    pub config: Map<Seq<char>, Seq<char>>,
    pub peers: Map<Seq<char>, StoredPeer>,
    pub messages: Map<Seq<char>, MessageRowView>,
    pub groups: Map<Seq<char>, GroupRowView>,
    pub members: Set<(Seq<char>, Seq<char>)>,
}

/// A change of the store.
pub enum Write {
    SetConfig { key: Seq<char>, value: Seq<char> },
    InsertMessage(MessageRowView),
    UpdateStatus { id: Seq<char>, status: Seq<char> },
    UpsertPeer { peer_id: Seq<char>, username: Seq<char>, ip: Seq<char>, seen_at: Seq<char> },
    CreateGroup(GroupRowView),
    AddMember { group_id: Seq<char>, peer_id: Seq<char> },
    RemoveMember { group_id: Seq<char>, peer_id: Seq<char> },
    /// A statement that is none of the store's own.
    Unknown,
}

/// The text of the parameter at position `i`; empty for a number.
pub open spec fn text_param(params: Seq<SqlParamView>, i: int) -> Seq<char> {
    match params[i] {
        SqlParamView::Text(s) => s,
        SqlParamView::Integer(_) => Seq::empty(),
    }
}

/// The change that a statement stands for, by its text and the number
/// of its parameters.
pub open spec fn write_of(q: QueryView) -> Write {
    let p = q.params;
    if q.sql == SET_CONFIG_SQL@ && p.len() == 2 {
        Write::SetConfig { key: text_param(p, 0), value: text_param(p, 1) }
    } else if q.sql == INSERT_MESSAGE_SQL@ && p.len() == 8 {
        Write::InsertMessage(
            MessageRowView {
                id: text_param(p, 0),
                conversation_id: text_param(p, 1),
                from_id: text_param(p, 2),
                from_name: text_param(p, 3),
                content: text_param(p, 4),
                timestamp: text_param(p, 5),
                is_group: p[6] == SqlParamView::Integer(1),
                status: text_param(p, 7),
            },
        )
    } else if q.sql == UPDATE_STATUS_SQL@ && p.len() == 2 {
        Write::UpdateStatus { id: text_param(p, 0), status: text_param(p, 1) }
    } else if q.sql == UPSERT_PEER_SQL@ && p.len() == 4 {
        Write::UpsertPeer {
            peer_id: text_param(p, 0),
            username: text_param(p, 1),
            ip: text_param(p, 2),
            seen_at: text_param(p, 3),
        }
    } else if q.sql == CREATE_GROUP_SQL@ && p.len() == 3 {
        Write::CreateGroup(
            GroupRowView {
                group_id: text_param(p, 0),
                name: text_param(p, 1),
                creator_id: text_param(p, 2),
            },
        )
    } else if q.sql == ADD_MEMBER_SQL@ && p.len() == 2 {
        Write::AddMember { group_id: text_param(p, 0), peer_id: text_param(p, 1) }
    } else if q.sql == REMOVE_MEMBER_SQL@ && p.len() == 2 {
        Write::RemoveMember { group_id: text_param(p, 0), peer_id: text_param(p, 1) }
    } else {
        Write::Unknown
    }
}

/// The store after one change. A configuration value and a peer's
/// record replace what was there; a message and a group are stored only
/// if their id is new; a status is set only on a message that is
/// stored; a membership is added to or taken from a set.
pub open spec fn applied(s: Store, w: Write) -> Store {
    match w {
        Write::SetConfig { key, value } => Store { config: s.config.insert(key, value), ..s },
        Write::InsertMessage(m) => if s.messages.contains_key(m.id) {
            s
        } else {
            Store { messages: s.messages.insert(m.id, m), ..s }
        },
        Write::UpdateStatus { id, status } => if s.messages.contains_key(id) {
            Store {
                messages: s.messages.insert(id, MessageRowView { status, ..s.messages[id] }),
                ..s
            }
        } else {
            s
        },
        Write::UpsertPeer { peer_id, username, ip, seen_at } => Store {
            peers: s.peers.insert(
                peer_id,
                StoredPeer { username, last_ip: ip, last_seen: seen_at },
            ),
            ..s
        },
        Write::CreateGroup(g) => if s.groups.contains_key(g.group_id) {
            s
        } else {
            Store { groups: s.groups.insert(g.group_id, g), ..s }
        },
        Write::AddMember { group_id, peer_id } => Store {
            members: s.members.insert((group_id, peer_id)),
            ..s
        },
        Write::RemoveMember { group_id, peer_id } => Store {
            members: s.members.remove((group_id, peer_id)),
            ..s
        },
        Write::Unknown => s,
    }
}

/// The store after the statements `issued`, oldest first.
pub open spec fn stored(s: Store, issued: Seq<QueryView>) -> Store
    decreases issued.len(),
{
    if issued.len() == 0 {
        s
    } else {
        applied(stored(s, issued.drop_last()), write_of(issued.last()))
    }
}

/// Each statement of the store stands for the change it is named after,
/// with the values it was built from.
pub proof fn lemma_statements_mean_their_writes(
    m: MessageRowView,
    a: Seq<char>,
    b: Seq<char>,
    c: Seq<char>,
    d: Seq<char>,
)
    ensures
        write_of(set_config_statement(a, b)) == (Write::SetConfig { key: a, value: b }),
        write_of(insert_message_statement(m)) == Write::InsertMessage(m),
        write_of(update_status_statement(a, b)) == (Write::UpdateStatus { id: a, status: b }),
        write_of(upsert_peer_statement(a, b, c, d)) == (Write::UpsertPeer {
            peer_id: a,
            username: b,
            ip: c,
            seen_at: d,
        }),
        write_of(create_group_statement(a, b, c)) == Write::CreateGroup(
            GroupRowView { group_id: a, name: b, creator_id: c },
        ),
        write_of(add_member_statement(a, b)) == (Write::AddMember { group_id: a, peer_id: b }),
        write_of(remove_member_statement(a, b)) == (Write::RemoveMember {
            group_id: a,
            peer_id: b,
        }),
{
    reveal_strlit(
        "INSERT INTO config (key, value) VALUES (?1, ?2) ON CONFLICT(key) DO UPDATE SET value = ?2",
    );
    reveal_strlit(
        "INSERT OR IGNORE INTO messages (id, conversation_id, from_id, from_name, content, timestamp, is_group, status) VALUES (?1, ?2, ?3, ?4, ?5, ?6, ?7, ?8)",
    );
    reveal_strlit("UPDATE messages SET status = ?2 WHERE id = ?1");
    reveal_strlit(
        "INSERT INTO peers (peer_id, username, last_ip, last_seen) VALUES (?1, ?2, ?3, ?4) ON CONFLICT(peer_id) DO UPDATE SET username=?2, last_ip=?3, last_seen=?4",
    );
    reveal_strlit("INSERT OR IGNORE INTO groups (group_id, name, creator_id) VALUES (?1, ?2, ?3)");
    reveal_strlit("INSERT OR IGNORE INTO group_members (group_id, peer_id) VALUES (?1, ?2)");
    reveal_strlit("DELETE FROM group_members WHERE group_id = ?1 AND peer_id = ?2");
    assert(SET_CONFIG_SQL@.len() == 89);
    assert(INSERT_MESSAGE_SQL@.len() == 150);
    assert(UPDATE_STATUS_SQL@.len() == 45);
    assert(UPSERT_PEER_SQL@.len() == 154);
    assert(CREATE_GROUP_SQL@.len() == 77);
    assert(ADD_MEMBER_SQL@.len() == 71);
    assert(REMOVE_MEMBER_SQL@.len() == 62);
    let im = insert_message_statement(m);
    assert(write_of(im)->InsertMessage_0 == m);
}

/// The store after two runs of statements, one after the other.
pub proof fn lemma_stored_concat(s: Store, first: Seq<QueryView>, second: Seq<QueryView>)
    ensures
        stored(s, first + second) == stored(stored(s, first), second),
    decreases second.len(),
{
    if second.len() == 0 {
        assert(first + second =~= first);
    } else {
        lemma_stored_concat(s, first, second.drop_last());
        assert((first + second).drop_last() =~= first + second.drop_last());
        assert((first + second).last() == second.last());
    }
}

/// Inserting a message is idempotent: the second insertion of a row, or
/// the insertion of any row under an id that is stored, changes nothing.
pub proof fn lemma_insert_message_idempotent(s: Store, m: MessageRowView, again: MessageRowView)
    requires
        again.id == m.id,
    ensures
        applied(applied(s, Write::InsertMessage(m)), Write::InsertMessage(again)) == applied(
            s,
            Write::InsertMessage(m),
        ),
        applied(s, Write::InsertMessage(m)).messages.contains_key(m.id),
        s.messages.contains_key(m.id) ==> applied(s, Write::InsertMessage(m)) == s,
{
}

/// The status of a stored message is that of its latest update: a
/// duplicate insertion after the update does not bring the old status
/// back, and the other fields of the row never change.
pub proof fn lemma_status_follows_latest_update(
    s: Store,
    m: MessageRowView,
    status: Seq<char>,
    again: MessageRowView,
)
    requires
        again.id == m.id,
    ensures
        ({
            let inserted = applied(s, Write::InsertMessage(m));
            let updated = applied(inserted, Write::UpdateStatus { id: m.id, status });
            let after = applied(updated, Write::InsertMessage(again));
            &&& after == updated
            &&& after.messages[m.id] == (MessageRowView { status, ..inserted.messages[m.id] })
            &&& after.messages.dom() == inserted.messages.dom()
        }),
{
    let inserted = applied(s, Write::InsertMessage(m));
    let updated = applied(inserted, Write::UpdateStatus { id: m.id, status });
    assert(updated.messages.dom() =~= inserted.messages.dom());
}

/// Membership is a set: adding a member twice is adding it once, and
/// removing a peer that is no member changes nothing, as does removing
/// a member twice.
pub proof fn lemma_membership_idempotent(s: Store, group_id: Seq<char>, peer_id: Seq<char>)
    ensures
        ({
            let add = Write::AddMember { group_id, peer_id };
            let remove = Write::RemoveMember { group_id, peer_id };
            &&& applied(applied(s, add), add) == applied(s, add)
            &&& applied(s, add).members.contains((group_id, peer_id))
            &&& (!s.members.contains((group_id, peer_id)) ==> applied(s, remove) == s)
            &&& applied(applied(s, remove), remove) == applied(s, remove)
            &&& !applied(s, remove).members.contains((group_id, peer_id))
        }),
{
    let add = Write::AddMember { group_id, peer_id };
    let remove = Write::RemoveMember { group_id, peer_id };
    assert(applied(applied(s, add), add).members =~= applied(s, add).members);
    assert(applied(applied(s, remove), remove).members =~= applied(s, remove).members);
    if !s.members.contains((group_id, peer_id)) {
        assert(applied(s, remove).members =~= s.members);
    }
}

/// Creating a group never overwrites one: under an id that is stored
/// the group stays as it is.
pub proof fn lemma_create_group_idempotent(s: Store, g: GroupRowView, again: GroupRowView)
    requires
        again.group_id == g.group_id,
    ensures
        applied(applied(s, Write::CreateGroup(g)), Write::CreateGroup(again)) == applied(
            s,
            Write::CreateGroup(g),
        ),
{
}

/// The statements that effects hand to the store when they are carried
/// out in order.
pub open spec fn effects_statements(effects: Seq<EffectView>) -> Seq<QueryView>
    decreases effects.len(),
{
    if effects.len() == 0 {
        Seq::empty()
    } else {
        effects_statements(effects.drop_last()) + effect_statements(effects.last())
    }
}

/// The statements of two runs of effects are those of the first,
/// followed by those of the second.
pub proof fn lemma_effects_statements_concat(first: Seq<EffectView>, second: Seq<EffectView>)
    ensures
        effects_statements(first + second) == effects_statements(first) + effects_statements(
            second,
        ),
    decreases second.len(),
{
    if second.len() == 0 {
        assert(first + second =~= first);
        assert(effects_statements(first) + Seq::<QueryView>::empty() =~= effects_statements(first));
    } else {
        lemma_effects_statements_concat(first, second.drop_last());
        assert((first + second).drop_last() =~= first + second.drop_last());
        assert((first + second).last() == second.last());
        assert(effects_statements(first + second) =~= effects_statements(first)
            + effects_statements(second));
    }
}

/// The statements that a frame hands to the store when its effects are
/// carried out, in order.
pub open spec fn frame_statements(frame: TcpMessageView) -> Seq<QueryView> {
    effects_statements(frame_effects(frame))
}

/// A message that arrives is stored by one statement, the insertion of
/// its row as delivered.
pub proof fn lemma_message_frame_statements(frame: TcpMessageView)
    requires
        frame is DirectMessage || frame is GroupMessage,
    ensures
        frame_statements(frame) == seq![insert_message_statement(incoming_row(frame))],
{
    let effects = frame_effects(frame);
    assert(effects.len() == 4);
    reveal_with_fuel(effects_statements, 5);
    assert(effects.drop_last().drop_last().drop_last().drop_last() =~= Seq::<EffectView>::empty());
    let one = effects.drop_last().drop_last().drop_last();
    let two = effects.drop_last().drop_last();
    let three = effects.drop_last();
    assert(one.last() == effects[0]);
    assert(two.last() == effects[1]);
    assert(three.last() == effects[2]);
    assert(effects.last() == effects[3]);
    assert(effects_statements(one) =~= seq![insert_message_statement(incoming_row(frame))]);
    assert(effects_statements(two) =~= seq![insert_message_statement(incoming_row(frame))]);
    assert(effects_statements(three) =~= seq![insert_message_statement(incoming_row(frame))]);
    assert(effects_statements(effects) =~= seq![insert_message_statement(incoming_row(frame))]);
}

/// The statements that add the peers `members` to the group `group_id`.
pub open spec fn add_statements(group_id: Seq<char>, members: Seq<Seq<char>>) -> Seq<QueryView> {
    Seq::new(members.len(), |i: int| add_member_statement(group_id, members[i]))
}

/// The creation of a group that a peer announces is stored by the
/// statement that creates the group, followed by one statement per
/// member.
pub proof fn lemma_group_create_statements(
    group_id: Seq<char>,
    name: Seq<char>,
    creator_id: Seq<char>,
    members: Seq<Seq<char>>,
)
    ensures
        frame_statements(TcpMessageView::GroupCreate { group_id, name, creator_id, members })
            == seq![create_group_statement(group_id, name, creator_id)] + add_statements(
            group_id,
            members,
        ),
{
    let head = seq![EffectView::CreateGroup { group_id, name, creator_id }];
    let adds = Seq::new(members.len(), |i: int| EffectView::AddMember { group_id, peer_id: members[i] });
    let tail = seq![EffectView::ShowGroups];
    lemma_adds(group_id, members);
    lemma_effects_statements_concat(head + adds, tail);
    lemma_effects_statements_concat(head, adds);
    reveal_with_fuel(effects_statements, 2);
    assert(head.drop_last() =~= Seq::<EffectView>::empty());
    assert(tail.drop_last() =~= Seq::<EffectView>::empty());
    assert(effects_statements(head) =~= seq![create_group_statement(group_id, name, creator_id)]);
    assert(effects_statements(tail) =~= Seq::<QueryView>::empty());
    assert(effects_statements(head + adds + tail) =~= seq![
        create_group_statement(group_id, name, creator_id),
    ] + add_statements(group_id, members));
}

/// The effects that add members hand one statement each to the store.
proof fn lemma_adds(group_id: Seq<char>, members: Seq<Seq<char>>)
    ensures
        effects_statements(
            Seq::new(members.len(), |i: int| EffectView::AddMember { group_id, peer_id: members[i] }),
        ) == add_statements(group_id, members),
    decreases members.len(),
{
    let adds = Seq::new(members.len(), |i: int| EffectView::AddMember { group_id, peer_id: members[i] });
    if members.len() == 0 {
        assert(effects_statements(adds) =~= add_statements(group_id, members));
    } else {
        let fewer = members.drop_last();
        lemma_adds(group_id, fewer);
        assert(adds.drop_last() =~= Seq::new(
            fewer.len(),
            |i: int| EffectView::AddMember { group_id, peer_id: fewer[i] },
        ));
        assert(adds.last() == EffectView::AddMember { group_id, peer_id: members.last() });
        assert(effects_statements(adds) =~= add_statements(group_id, members));
    }
}

/// Adding members changes nothing but the memberships, to which it adds
/// the pair of the group with each of the peers.
pub proof fn lemma_members_added(s: Store, group_id: Seq<char>, members: Seq<Seq<char>>)
    ensures
        ({
            let after = stored(s, add_statements(group_id, members));
            &&& after.config == s.config
            &&& after.peers == s.peers
            &&& after.messages == s.messages
            &&& after.groups == s.groups
            &&& forall|pair: (Seq<char>, Seq<char>)| #[trigger]
                after.members.contains(pair) <==> (s.members.contains(pair) || (pair.0 == group_id
                    && members.contains(pair.1)))
        }),
    decreases members.len(),
{
    let stmts = add_statements(group_id, members);
    if members.len() > 0 {
        let fewer = members.drop_last();
        lemma_members_added(s, group_id, fewer);
        assert(stmts.drop_last() =~= add_statements(group_id, fewer));
        assert(stmts.last() == add_member_statement(group_id, members.last()));
        lemma_statements_mean_their_writes(arbitrary(), group_id, members.last(), group_id, group_id);
        let before = stored(s, add_statements(group_id, fewer));
        let after = stored(s, stmts);
        assert(after == applied(
            before,
            Write::AddMember { group_id, peer_id: members.last() },
        ));
        assert forall|pair: (Seq<char>, Seq<char>)| #[trigger]
            after.members.contains(pair) <==> (s.members.contains(pair) || (pair.0 == group_id
                && members.contains(pair.1))) by {
            if pair.0 == group_id && members.contains(pair.1) {
                let i = choose|i: int| 0 <= i < members.len() && members[i] == pair.1;
                if i < fewer.len() {
                    assert(fewer[i] == pair.1);
                }
            }
            if pair.0 == group_id && fewer.contains(pair.1) {
                let i = choose|i: int| 0 <= i < fewer.len() && fewer[i] == pair.1;
                assert(members[i] == pair.1);
            }
            if pair == (group_id, members.last()) {
                assert(members[members.len() - 1] == pair.1);
            }
        }
    }
}

/// A peer that handles the announcement of a group stores the group and
/// the membership of every peer that the announcement names; and if it
/// handles the announcement again, nothing changes.
pub proof fn lemma_group_create_converges(
    s: Store,
    group_id: Seq<char>,
    name: Seq<char>,
    creator_id: Seq<char>,
    members: Seq<Seq<char>>,
)
    ensures
        ({
            let frame = TcpMessageView::GroupCreate { group_id, name, creator_id, members };
            let once = stored(s, frame_statements(frame));
            let twice = stored(once, frame_statements(frame));
            &&& once.groups.contains_key(group_id)
            &&& (!s.groups.contains_key(group_id) ==> once.groups[group_id] == (GroupRowView {
                group_id,
                name,
                creator_id,
            }))
            &&& forall|i: int|
                0 <= i < members.len() ==> once.members.contains((group_id, #[trigger] members[i]))
            &&& twice.groups == once.groups
            &&& twice.members == once.members
        }),
{
    let frame = TcpMessageView::GroupCreate { group_id, name, creator_id, members };
    let create = seq![create_group_statement(group_id, name, creator_id)];
    let adds = add_statements(group_id, members);
    let g = GroupRowView { group_id, name, creator_id };
    lemma_group_create_statements(group_id, name, creator_id, members);
    lemma_statements_mean_their_writes(arbitrary(), group_id, name, creator_id, group_id);
    reveal_with_fuel(stored, 2);
    assert(create.drop_last() =~= Seq::<QueryView>::empty());
    assert(create.last() == create_group_statement(group_id, name, creator_id));

    let created = stored(s, create);
    assert(created == applied(s, Write::CreateGroup(g)));
    lemma_stored_concat(s, create, adds);
    lemma_members_added(created, group_id, members);
    let once = stored(s, create + adds);

    let created_again = stored(once, create);
    assert(created_again == applied(once, Write::CreateGroup(g)));
    assert(created_again == once);
    lemma_stored_concat(once, create, adds);
    lemma_members_added(once, group_id, members);
    let twice = stored(once, create + adds);
    assert forall|i: int| 0 <= i < members.len() implies once.members.contains(
        (group_id, #[trigger] members[i]),
    ) by {
        assert(members.contains(members[i]));
    }
    assert(twice.members =~= once.members);
}

/// A confirmation that arrives hands one statement to the store: the
/// change of the status of the message it names.
pub proof fn lemma_ack_frame_statements(message_id: Seq<char>, status: Seq<char>)
    ensures
        frame_statements(TcpMessageView::Ack { message_id, status }) == seq![
            update_status_statement(message_id, status),
        ],
{
    let effects = frame_effects(TcpMessageView::Ack { message_id, status });
    reveal_with_fuel(effects_statements, 3);
    assert(effects.len() == 2);
    assert(effects.drop_last().drop_last() =~= Seq::<EffectView>::empty());
    assert(effects.drop_last().last() == effects[0]);
    assert(effects.last() == effects[1]);
    assert(effects_statements(effects.drop_last()) =~= seq![
        update_status_statement(message_id, status),
    ]);
    assert(effects_statements(effects) =~= seq![update_status_statement(message_id, status)]);
}

/// The life of a direct message at its sender: when the delivery is
/// over, the row is stored as sent if the peer accepted the frame and as
/// failed if not; when the peer's confirmation arrives, the row is
/// delivered, and nothing else of it has changed.
pub proof fn lemma_direct_message_lifecycle(
    s: Store,
    row: MessageRowView,
    outcomes: Seq<Result<(), SendError>>,
)
    requires
        !s.messages.contains_key(row.id),
    ensures
        ({
            let after_send = stored(s, completion_statements(PendingView::Direct(row), outcomes));
            let after_ack = stored(after_send, frame_statements(delivered_ack(row.id)));
            &&& after_send.messages.contains_key(row.id)
            &&& after_send.messages[row.id] == with_status(row, outgoing_status(outcomes))
            &&& after_ack.messages.contains_key(row.id)
            &&& after_ack.messages[row.id] == with_status(row, status_delivered())
            &&& after_ack.messages.dom() == after_send.messages.dom()
        }),
{
    let stored_row = with_status(row, outgoing_status(outcomes));
    let first = seq![insert_message_statement(stored_row)];
    let second = seq![update_status_statement(row.id, status_delivered())];
    assert(completion_statements(PendingView::Direct(row), outcomes) == first);
    lemma_ack_frame_statements(row.id, status_delivered());
    lemma_statements_mean_their_writes(stored_row, row.id, status_delivered(), row.id, row.id);
    reveal_with_fuel(stored, 2);
    assert(first.drop_last() =~= Seq::<QueryView>::empty());
    assert(first.last() == insert_message_statement(stored_row));
    assert(second.drop_last() =~= Seq::<QueryView>::empty());
    assert(second.last() == update_status_statement(row.id, status_delivered()));
    let after_send = stored(s, first);
    let after_ack = stored(after_send, second);
    assert(after_ack.messages.dom() =~= after_send.messages.dom());
}

/// The identifier survives a restart: once the identifier that the
/// first run resolved is stored under its key, a later run that reads
/// the key resolves the same identifier, whatever it could have minted.
pub proof fn lemma_identity_survives_restart(
    s: Store,
    first_fresh: Seq<char>,
    second_fresh: Seq<char>,
)
    ensures
        ({
            let key = KEY_PEER_ID@;
            let found = if s.config.contains_key(key) {
                Some(s.config[key])
            } else {
                None
            };
            let first = resolved_id(found, first_fresh);
            let after = if found is None {
                stored(s, seq![set_config_statement(key, first)])
            } else {
                s
            };
            &&& after.config.contains_key(key)
            &&& resolved_id(Some(after.config[key]), second_fresh) == first
        }),
{
    let key = KEY_PEER_ID@;
    let one = seq![set_config_statement(key, first_fresh)];
    lemma_statements_mean_their_writes(arbitrary(), key, first_fresh, key, key);
    reveal_with_fuel(stored, 2);
    assert(one.drop_last() =~= Seq::<QueryView>::empty());
    assert(one.last() == set_config_statement(key, first_fresh));
}

/// The same message frame handled twice leaves what handling it once
/// leaves: one row under its id, delivered unless a row of that id was
/// stored before.
pub proof fn lemma_duplicate_frame_stored_once(s: Store, frame: TcpMessageView)
    requires
        frame is DirectMessage || frame is GroupMessage,
    ensures
        ({
            let once = stored(s, frame_statements(frame));
            let twice = stored(s, frame_statements(frame) + frame_statements(frame));
            let row = incoming_row(frame);
            &&& twice == once
            &&& once.messages.contains_key(row.id)
            &&& (!s.messages.contains_key(row.id) ==> once.messages[row.id] == row
                && row.status == status_delivered())
        }),
{
    let row = incoming_row(frame);
    let one = seq![insert_message_statement(row)];
    lemma_message_frame_statements(frame);
    lemma_stored_concat(s, one, one);
    lemma_statements_mean_their_writes(row, row.id, row.id, row.id, row.id);
    assert(one.drop_last() =~= Seq::<QueryView>::empty());
    assert(one.last() == insert_message_statement(row));
    reveal_with_fuel(stored, 3);
    let once = stored(s, one);
    assert(once == applied(s, Write::InsertMessage(row)));
    assert(stored(once, one) == applied(once, Write::InsertMessage(row)));
    lemma_insert_message_idempotent(s, row, row);
}

} // verus!
