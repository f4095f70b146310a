//! The command dispatcher: what the engine does at startup, what each
//! command of the frontend asks for, and what is stored and shown once a
//! delivery is over.

use vstd::prelude::*;
use vstd::string::*;
use crate::db::{
    add_member_statement, are_first_columns, are_group_rows, are_message_rows,
    create_group_statement, get_config_statement, group_members_statement, groups_statement,
    insert_message_statement, is_first_column, load_history_statement, set_config_statement,
    status_failed, status_sent, Database, DbError, GroupRow, GroupRowView, MessageRow,
    MessageRowView, HISTORY_LIMIT,
};
use crate::delivery::{error_text, SendError};
use crate::discovery::{list_item, peer_list, PeerListItemView};
use crate::ipc::{IpcCommand, IpcCommandView, UiEvent, UiEventView};
use crate::protocol::{texts, TcpMessage, TcpMessageView};
use crate::sqlite::QueryView;
use crate::stamp::{new_uuid, now_rfc3339};
use crate::state::SharedState;

verus! {

/// The configuration key of the peer's identifier.
pub const KEY_PEER_ID: &'static str = "peer_id";

/// The configuration key of the user's name.
pub const KEY_USERNAME: &'static str = "username";

/// The peer's identifier: the stored one, or, if none is stored, the
/// fresh one.
pub open spec fn resolved_id(stored: Option<Seq<char>>, fresh: Seq<char>) -> Seq<char> {
    match stored {
        Some(id) => id,
        None => fresh,
    }
}

/// Picks the peer's identifier and says whether it is new and is to be
/// stored.
pub fn resolve_peer_id(stored: Option<String>, fresh: String) -> (r: (String, bool))
    ensures
        r.0@ == resolved_id(
            match stored {
                Some(id) => Some(id@),
                None => None,
            },
            fresh@,
        ),
        r.1 == (stored is None),
{
    match stored {
        Some(id) => (id, false),
        None => (fresh, true),
    }
}

/// The identifier is minted once: a run that finds the identifier that
/// an earlier run stored takes it, whatever fresh identifier it could
/// have minted itself.
pub proof fn lemma_identity_stable(
    stored: Option<Seq<char>>,
    first_fresh: Seq<char>,
    second_fresh: Seq<char>,
)
    ensures
        resolved_id(Some(resolved_id(stored, first_fresh)), second_fresh) == resolved_id(
            stored,
            first_fresh,
        ),
{
}

/// What the engine knows and asks for once it has started.
#[derive(Debug)]
pub struct Startup {
    pub peer_id: String,
    pub username: Option<String>,
    /// Whether discovery and the listener are to be started: if the user
    /// has a name.
    pub start_networking: bool,
    /// The events for the frontend, in order.
    pub events: Vec<UiEvent>,
}

/// The view of an optional text.
pub open spec fn text_of(s: Option<String>) -> Option<Seq<char>> {
    match s {
        Some(t) => Some(t@),
        None => None,
    }
}

/// The events of a start: the configuration, and the groups if the user
/// has a name.
pub open spec fn startup_events(
    peer_id: Seq<char>,
    username: Option<Seq<char>>,
    groups: Seq<GroupRowView>,
) -> Seq<UiEventView> {
    if username is Some {
        seq![UiEventView::ConfigLoaded { peer_id, username }, UiEventView::GroupList(groups)]
    } else {
        seq![UiEventView::ConfigLoaded { peer_id, username }]
    }
}

/// A copy of an optional text.
fn clone_text(s: &Option<String>) -> (r: Option<String>)
    ensures
        text_of(r) == text_of(*s),
{
    match s {
        Some(t) => Some(t.clone()),
        None => None,
    }
}

/// What a start with this identity and these stored groups asks for.
pub fn plan_startup(peer_id: String, username: Option<String>, groups: Vec<GroupRow>) -> (s: Startup)
    ensures
        s.peer_id@ == peer_id@,
        text_of(s.username) == text_of(username),
        s.start_networking == (username is Some),
        s.events.deep_view() == startup_events(peer_id@, text_of(username), groups.deep_view()),
{
    let mut events: Vec<UiEvent> = Vec::new();
    events.push(UiEvent::ConfigLoaded { peer_id: peer_id.clone(), username: clone_text(&username) });
    let start_networking = username.is_some();
    if start_networking {
        events.push(UiEvent::GroupList(groups));
    }
    assert(events.deep_view() =~= startup_events(
        peer_id@,
        text_of(username),
        groups.deep_view(),
    ));
    Startup { peer_id, username, start_networking, events }
}

/// Settles the peer's identifier once the store has been asked for it:
/// an identifier that is stored is kept and nothing is handed to the
/// store; if none is stored, the fresh one is handed to the store under
/// its key, and it is the identifier if the store took it.
pub fn settle_peer_id(db: &mut Database, stored: Option<String>, fresh: String) -> (r: Result<
    String,
    DbError,
>)
    ensures
        final(db).asked() == old(db).asked(),
        match stored {
            Some(id) => {
                &&& r matches Ok(kept) && kept@ == id@
                &&& final(db).issued() == old(db).issued()
            },
            None => {
                &&& r matches Ok(minted) ==> minted@ == fresh@
                &&& final(db).issued() == old(db).issued().push(
                    set_config_statement(KEY_PEER_ID@, fresh@),
                )
            },
        },
{
    let (peer_id, minted) = resolve_peer_id(stored, fresh);
    if minted {
        match db.set_config(KEY_PEER_ID, peer_id.as_str()) {
            Ok(()) => Ok(peer_id),
            Err(e) => Err(e),
        }
    } else {
        Ok(peer_id)
    }
}

/// The queries of a start that got through: for the identifier, for the
/// user's name, and for the groups if the user has a name.
pub open spec fn startup_queries(named: bool) -> Seq<QueryView> {
    if named {
        seq![
            get_config_statement(KEY_PEER_ID@),
            get_config_statement(KEY_USERNAME@),
            groups_statement(),
        ]
    } else {
        seq![get_config_statement(KEY_PEER_ID@), get_config_statement(KEY_USERNAME@)]
    }
}

/// The start of the engine on an open database: asks the store for the
/// identifier and settles it (see [`settle_peer_id`]); asks for the
/// user's name; asks for the groups if there is a name; and plans the
/// rest. An identifier that was not handed to the store came from it,
/// as do the name and the groups. Fails if a new identifier cannot be
/// stored.
pub fn startup(db: &mut Database) -> (r: Result<Startup, DbError>)
    ensures
        match r {
            Ok(s) => {
                &&& s.start_networking == (s.username is Some)
                &&& final(db).asked() == old(db).asked() + startup_queries(s.username is Some)
                &&& (s.username matches Some(name) ==> is_first_column(name@))
                &&& exists|groups: Seq<GroupRowView>|
                    #[trigger] are_group_rows(groups) && s.events.deep_view() == startup_events(
                        s.peer_id@,
                        text_of(s.username),
                        groups,
                    )
                &&& ({
                    ||| final(db).issued() == old(db).issued() && is_first_column(s.peer_id@)
                    ||| final(db).issued() == old(db).issued().push(
                        set_config_statement(KEY_PEER_ID@, s.peer_id@),
                    )
                })
            },
            Err(_) => {
                &&& final(db).asked() == old(db).asked().push(get_config_statement(KEY_PEER_ID@))
                &&& exists|id: Seq<char>|
                    final(db).issued() == old(db).issued().push(
                        #[trigger] set_config_statement(KEY_PEER_ID@, id),
                    )
            },
        },
{
    let stored = db.get_config(KEY_PEER_ID);
    let fresh = new_uuid();
    let peer_id = match settle_peer_id(db, stored, fresh) {
        Ok(id) => id,
        Err(e) => {
            assert(db.issued() == old(db).issued().push(
                set_config_statement(KEY_PEER_ID@, fresh@),
            ));
            return Err(e);
        },
    };
    let username = db.get_config(KEY_USERNAME);
    let groups = if username.is_some() {
        db.get_groups()
    } else {
        Vec::new()
    };
    let ghost listed = groups.deep_view();
    proof {
        assert(db.asked() =~= old(db).asked() + startup_queries(username is Some));
        assert(are_group_rows(listed));
    }
    let s = plan_startup(peer_id, username, groups);
    Ok(s)
}

/// What is stored and shown when a delivery is over.
#[derive(Debug)]
pub enum Pending {
    /// A direct message, whose row awaits its status.
    Direct(MessageRow),
    /// A group message, whose row awaits its status.
    Group(MessageRow),
    /// A group that was created here, with the groups that are stored.
    GroupCreation { group_id: String, groups: Vec<GroupRow> },
}

/// The mathematical value of a [`Pending`].
pub enum PendingView {
    Direct(MessageRowView),
    Group(MessageRowView),
    GroupCreation { group_id: Seq<char>, groups: Seq<GroupRowView> },
}

impl View for Pending {
    type V = PendingView;

    open spec fn view(&self) -> PendingView {
        match *self {
            Pending::Direct(row) => PendingView::Direct(row@),
            Pending::Group(row) => PendingView::Group(row@),
            Pending::GroupCreation { group_id, groups } => PendingView::GroupCreation {
                group_id: group_id@,
                groups: groups.deep_view(),
            },
        }
    }
}

/// What a command asks of the surroundings of the dispatcher.
#[derive(Debug)]
pub enum Reaction {
    /// Send the event to the frontend.
    Emit(UiEvent),
    /// Start discovery and the listener.
    StartNetworking { peer_id: String, username: String },
    /// Deliver the frame to each target, one after the other, going on
    /// after a failure; then report the outcomes with what is pending.
    Send { targets: Vec<String>, frame: TcpMessage, pending: Pending },
    /// Tell the window to stay on top, or not to.
    SetAlwaysOnTop(bool),
}

/// The mathematical value of a [`Reaction`].
pub enum ReactionView {
    Emit(UiEventView),
    StartNetworking { peer_id: Seq<char>, username: Seq<char> },
    Send { targets: Seq<Seq<char>>, frame: TcpMessageView, pending: PendingView },
    SetAlwaysOnTop(bool),
}

impl View for Reaction {
    type V = ReactionView;

    open spec fn view(&self) -> ReactionView {
        match *self {
            Reaction::Emit(event) => ReactionView::Emit(event@),
            Reaction::StartNetworking { peer_id, username } => ReactionView::StartNetworking {
                peer_id: peer_id@,
                username: username@,
            },
            Reaction::Send { targets, frame, pending } => ReactionView::Send {
                targets: texts(targets@),
                frame: frame@,
                pending: pending@,
            },
            Reaction::SetAlwaysOnTop(enabled) => ReactionView::SetAlwaysOnTop(enabled),
        }
    }
}

impl DeepView for Reaction {
    type V = ReactionView;

    open spec fn deep_view(&self) -> ReactionView {
        self@
    }
}

/// The members of a group to whom a frame goes: all but the sender, in
/// their order.
pub open spec fn others(members: Seq<Seq<char>>, me: Seq<char>) -> Seq<Seq<char>>
    decreases members.len(),
{
    if members.len() == 0 {
        Seq::empty()
    } else if members.last() == me {
        others(members.drop_last(), me)
    } else {
        others(members.drop_last(), me).push(members.last())
    }
}

/// The sender is none of the targets, every other member is one, and
/// nobody else is.
pub proof fn lemma_others(members: Seq<Seq<char>>, me: Seq<char>)
    ensures
        !others(members, me).contains(me),
        forall|m: Seq<char>|
            #[trigger] others(members, me).contains(m) <==> (members.contains(m) && m != me),
    decreases members.len(),
{
    if members.len() > 0 {
        let rest = members.drop_last();
        let last = members.last();
        lemma_others(rest, me);
        let got = others(members, me);
        assert forall|m: Seq<char>| #[trigger] got.contains(m) <==> (members.contains(m) && m
            != me) by {
            if got.contains(m) {
                let i = choose|i: int| 0 <= i < got.len() && got[i] == m;
                if last != me && i == got.len() - 1 {
                    assert(members[members.len() - 1] == m);
                } else {
                    assert(others(rest, me)[i] == m);
                    assert(others(rest, me).contains(m));
                    let j = choose|j: int| 0 <= j < rest.len() && rest[j] == m;
                    assert(members[j] == m);
                }
            }
            if members.contains(m) && m != me {
                let j = choose|j: int| 0 <= j < members.len() && members[j] == m;
                if j == members.len() - 1 {
                    assert(got[got.len() - 1] == m);
                } else {
                    assert(rest[j] == m);
                    assert(others(rest, me).contains(m));
                    let i = choose|i: int| 0 <= i < others(rest, me).len() && others(rest, me)[i]
                        == m;
                    assert(got[i] == m);
                }
            }
        }
        if got.contains(me) {
            assert(members.contains(me) && me != me);
        }
    }
}

/// Picks the members to whom a frame of the group goes.
pub fn fan_out_targets(members: &Vec<String>, me: &str) -> (targets: Vec<String>)
    ensures
        texts(targets@) == others(texts(members@), me@),
{
    let me = String::from_str(me);
    let ghost all = texts(members@);
    let mut targets: Vec<String> = Vec::new();
    let mut i: usize = 0;
    assert(all.subrange(0, 0) =~= Seq::<Seq<char>>::empty());
    assert(texts(targets@) =~= Seq::<Seq<char>>::empty());
    while i < members.len()
        invariant
            i <= members.len(),
            all == texts(members@),
            texts(targets@) == others(all.subrange(0, i as int), me@),
        decreases members.len() - i,
    {
        let ghost before = texts(targets@);
        proof {
            assert(all.subrange(0, i + 1).drop_last() =~= all.subrange(0, i as int));
            assert(all.subrange(0, i + 1).last() == members[i as int]@);
        }
        if !(members[i] == me) {
            targets.push(members[i].clone());
            assert(texts(targets@) =~= before.push(members[i as int]@));
        }
        i += 1;
    }
    assert(all.subrange(0, members.len() as int) =~= all);
    targets
}

/// Whether any recipient accepted the frame.
pub open spec fn any_accepted(outcomes: Seq<Result<(), SendError>>) -> bool {
    exists|i: int| 0 <= i < outcomes.len() && #[trigger] outcomes[i] is Ok
}

/// The status under which an outgoing message is stored: sent if a
/// recipient accepted it, failed if none did.
pub open spec fn outgoing_status(outcomes: Seq<Result<(), SendError>>) -> Seq<char> {
    if any_accepted(outcomes) {
        status_sent()
    } else {
        status_failed()
    }
}

/// Decides the status of an outgoing message from the outcomes of its
/// deliveries.
pub fn status_after(outcomes: &Vec<Result<(), SendError>>) -> (status: String)
    ensures
        status@ == outgoing_status(outcomes@),
{
    let mut i: usize = 0;
    while i < outcomes.len()
        invariant
            i <= outcomes.len(),
            forall|k: int| 0 <= k < i ==> !(#[trigger] outcomes[k] is Ok),
        decreases outcomes.len() - i,
    {
        if outcomes[i].is_ok() {
            return String::from_str("sent");
        }
        i += 1;
    }
    String::from_str("failed")
}

/// The row `row` with the status `status`.
pub open spec fn with_status(row: MessageRowView, status: Seq<char>) -> MessageRowView {
    MessageRowView { status, ..row }
}

/// The text of the error event for a direct message that was not
/// delivered.
pub open spec fn send_failed_text(e: SendError) -> Seq<char> {
    "Send failed: "@ + error_text(e)
}

/// The row that is stored when the delivery of a message is over; none
/// for the creation of a group.
pub open spec fn completion_row(
    pending: PendingView,
    outcomes: Seq<Result<(), SendError>>,
) -> Option<MessageRowView> {
    match pending {
        PendingView::Direct(row) => Some(with_status(row, outgoing_status(outcomes))),
        PendingView::Group(row) => Some(with_status(row, outgoing_status(outcomes))),
        PendingView::GroupCreation { .. } => None,
    }
}

/// The events for the frontend when a delivery is over. The user sees
/// the own message at once, with its status, and before it the error if
/// a direct message was not delivered; the failures of a group's
/// recipients are not shown. A new group is followed by the list of
/// groups and by its own id.
pub open spec fn completion_events(
    pending: PendingView,
    outcomes: Seq<Result<(), SendError>>,
) -> Seq<UiEventView> {
    match pending {
        PendingView::Direct(row) => {
            let shown = UiEventView::IncomingMessage(with_status(row, outgoing_status(outcomes)));
            if outcomes.len() > 0 && outcomes[0] is Err {
                seq![UiEventView::Error(send_failed_text(outcomes[0]->Err_0)), shown]
            } else {
                seq![shown]
            }
        },
        PendingView::Group(row) => seq![
            UiEventView::IncomingMessage(with_status(row, outgoing_status(outcomes))),
        ],
        PendingView::GroupCreation { group_id, groups } => seq![
            UiEventView::GroupList(groups),
            UiEventView::GroupCreated(group_id),
        ],
    }
}

/// What is stored and what is shown when a delivery is over, from the
/// outcomes of the deliveries to the targets, in the targets' order.
pub fn plan_completion(pending: Pending, outcomes: &Vec<Result<(), SendError>>) -> (r: (
    Option<MessageRow>,
    Vec<UiEvent>,
))
    ensures
        match r.0 {
            Some(row) => completion_row(pending@, outcomes@) == Some(row@),
            None => completion_row(pending@, outcomes@) is None,
        },
        r.1.deep_view() == completion_events(pending@, outcomes@),
{
    let mut events: Vec<UiEvent> = Vec::new();
    match pending {
        Pending::Direct(row) => {
            let mut row = row;
            row.status = status_after(outcomes);
            if outcomes.len() > 0 {
                match &outcomes[0] {
                    Err(e) => {
                        let mut text = String::from_str("Send failed: ");
                        let detail = e.message();
                        text.append(detail.as_str());
                        events.push(UiEvent::Error(text));
                    },
                    Ok(_) => {},
                }
            }
            events.push(UiEvent::IncomingMessage(row.clone()));
            assert(events.deep_view() =~= completion_events(pending@, outcomes@));
            (Some(row), events)
        },
        Pending::Group(row) => {
            let mut row = row;
            row.status = status_after(outcomes);
            events.push(UiEvent::IncomingMessage(row.clone()));
            assert(events.deep_view() =~= completion_events(pending@, outcomes@));
            (Some(row), events)
        },
        Pending::GroupCreation { group_id, groups } => {
            events.push(UiEvent::GroupList(groups));
            events.push(UiEvent::GroupCreated(group_id));
            assert(events.deep_view() =~= completion_events(pending@, outcomes@));
            (None, events)
        },
    }
}

/// The statements that the end of a delivery hands to the store: the
/// insertion of the message's row.
pub open spec fn completion_statements(
    pending: PendingView,
    outcomes: Seq<Result<(), SendError>>,
) -> Seq<QueryView> {
    match completion_row(pending, outcomes) {
        Some(row) => seq![insert_message_statement(row)],
        None => Seq::empty(),
    }
}

/// Ends a delivery: stores the message with its status and returns the
/// events for the frontend. A failure of the store does not keep the
/// events back.
pub fn complete_send(db: &mut Database, pending: Pending, outcomes: &Vec<Result<(), SendError>>) -> (events:
    Vec<UiEvent>)
    ensures
        events.deep_view() == completion_events(pending@, outcomes@),
        final(db).issued() == old(db).issued() + completion_statements(pending@, outcomes@),
        final(db).asked() == old(db).asked(),
{
    let (row, events) = plan_completion(pending, outcomes);
    match row {
        Some(row) => {
            let _ = db.insert_message(&row);
        },
        None => {},
    }
    assert(db.issued() =~= old(db).issued() + completion_statements(pending@, outcomes@));
    events
}

/// The row of an outgoing message before its delivery: in the
/// conversation `conversation_id`, from this peer, with the status that
/// a delivery that succeeds leaves.
pub open spec fn outgoing_row(
    id: Seq<char>,
    conversation_id: Seq<char>,
    from_id: Seq<char>,
    from_name: Seq<char>,
    content: Seq<char>,
    timestamp: Seq<char>,
    is_group: bool,
) -> MessageRowView {
    MessageRowView {
        id,
        conversation_id,
        from_id,
        from_name,
        content,
        timestamp,
        is_group,
        status: status_sent(),
    }
}

/// What the command to send a direct message asks for: the delivery of
/// one frame to the peer, and then the row in the conversation with that
/// peer.
pub open spec fn send_message_reaction(
    my_id: Seq<char>,
    my_name: Seq<char>,
    target: Seq<char>,
    content: Seq<char>,
    id: Seq<char>,
    timestamp: Seq<char>,
) -> ReactionView {
    ReactionView::Send {
        targets: seq![target],
        frame: TcpMessageView::DirectMessage {
            id,
            from_id: my_id,
            from_name: my_name,
            content,
            timestamp,
        },
        pending: PendingView::Direct(
            outgoing_row(id, target, my_id, my_name, content, timestamp, false),
        ),
    }
}

/// Plans the delivery of a direct message with the fresh id `id`, written
/// at `timestamp`.
pub fn plan_send_message(
    my_id: &str,
    my_name: &str,
    target: &str,
    content: &str,
    id: String,
    timestamp: String,
) -> (r: Reaction)
    ensures
        r@ == send_message_reaction(my_id@, my_name@, target@, content@, id@, timestamp@),
{
    let row = MessageRow {
        id: id.clone(),
        conversation_id: String::from_str(target),
        from_id: String::from_str(my_id),
        from_name: String::from_str(my_name),
        content: String::from_str(content),
        timestamp: timestamp.clone(),
        is_group: false,
        status: String::from_str("sent"),
    };
    let frame = TcpMessage::DirectMessage {
        id,
        from_id: String::from_str(my_id),
        from_name: String::from_str(my_name),
        content: String::from_str(content),
        timestamp,
    };
    let mut targets: Vec<String> = Vec::new();
    targets.push(String::from_str(target));
    assert(texts(targets@) =~= seq![target@]);
    Reaction::Send { targets, frame, pending: Pending::Direct(row) }
}

/// What the command to send a group message asks for: the delivery of
/// one frame to every member but the sender, and then the row in the
/// conversation of the group.
pub open spec fn send_group_reaction(
    my_id: Seq<char>,
    my_name: Seq<char>,
    group_id: Seq<char>,
    content: Seq<char>,
    members: Seq<Seq<char>>,
    id: Seq<char>,
    timestamp: Seq<char>,
) -> ReactionView {
    ReactionView::Send {
        targets: others(members, my_id),
        frame: TcpMessageView::GroupMessage {
            id,
            group_id,
            from_id: my_id,
            from_name: my_name,
            content,
            timestamp,
        },
        pending: PendingView::Group(
            outgoing_row(id, group_id, my_id, my_name, content, timestamp, true),
        ),
    }
}

/// Plans the delivery of a group message to the stored members of the
/// group.
pub fn plan_send_group_message(
    my_id: &str,
    my_name: &str,
    group_id: &str,
    content: &str,
    members: &Vec<String>,
    id: String,
    timestamp: String,
) -> (r: Reaction)
    ensures
        r@ == send_group_reaction(
            my_id@,
            my_name@,
            group_id@,
            content@,
            texts(members@),
            id@,
            timestamp@,
        ),
{
    let row = MessageRow {
        id: id.clone(),
        conversation_id: String::from_str(group_id),
        from_id: String::from_str(my_id),
        from_name: String::from_str(my_name),
        content: String::from_str(content),
        timestamp: timestamp.clone(),
        is_group: true,
        status: String::from_str("sent"),
    };
    let frame = TcpMessage::GroupMessage {
        id,
        group_id: String::from_str(group_id),
        from_id: String::from_str(my_id),
        from_name: String::from_str(my_name),
        content: String::from_str(content),
        timestamp,
    };
    let targets = fan_out_targets(members, my_id);
    Reaction::Send { targets, frame, pending: Pending::Group(row) }
}

/// The members of a new group: its creator and those it named.
pub open spec fn founding_members(my_id: Seq<char>, members: Seq<Seq<char>>) -> Seq<Seq<char>> {
    seq![my_id] + members
}

/// What the command to create a group asks for, once the group is stored
/// here: the delivery of its creation, with all members, to every member
/// but the creator, and then the list of groups and the new id.
pub open spec fn create_group_reaction(
    my_id: Seq<char>,
    name: Seq<char>,
    members: Seq<Seq<char>>,
    group_id: Seq<char>,
    groups: Seq<GroupRowView>,
) -> ReactionView {
    ReactionView::Send {
        targets: others(members, my_id),
        frame: TcpMessageView::GroupCreate {
            group_id,
            name,
            creator_id: my_id,
            members: founding_members(my_id, members),
        },
        pending: PendingView::GroupCreation { group_id, groups },
    }
}

/// The creator and the members it named.
pub fn with_creator(my_id: &str, members: &Vec<String>) -> (all: Vec<String>)
    ensures
        texts(all@) == founding_members(my_id@, texts(members@)),
{
    let mut all: Vec<String> = Vec::new();
    all.push(String::from_str(my_id));
    let mut i: usize = 0;
    while i < members.len()
        invariant
            i <= members.len(),
            all.len() == i + 1,
            all[0]@ == my_id@,
            forall|k: int| 0 <= k < i ==> #[trigger] all[k + 1]@ == members[k]@,
        decreases members.len() - i,
    {
        all.push(members[i].clone());
        i += 1;
    }
    proof {
        let want = founding_members(my_id@, texts(members@));
        assert(texts(all@).len() == want.len());
        assert forall|k: int| 0 <= k < want.len() implies texts(all@)[k] == want[k] by {
            if k > 0 {
                assert(all[(k - 1) + 1]@ == members[k - 1]@);
            }
        }
        assert(texts(all@) =~= want);
    }
    all
}

/// Plans the announcement of a group that was created here under the
/// fresh id `group_id`; `groups` are the groups that are stored now.
pub fn plan_create_group(
    my_id: &str,
    name: &str,
    members: &Vec<String>,
    group_id: String,
    groups: Vec<GroupRow>,
) -> (r: Reaction)
    ensures
        r@ == create_group_reaction(
            my_id@,
            name@,
            texts(members@),
            group_id@,
            groups.deep_view(),
        ),
{
    let frame = TcpMessage::GroupCreate {
        group_id: group_id.clone(),
        name: String::from_str(name),
        creator_id: String::from_str(my_id),
        members: with_creator(my_id, members),
    };
    let targets = fan_out_targets(members, my_id);
    Reaction::Send { targets, frame, pending: Pending::GroupCreation { group_id, groups } }
}

/// What the dispatcher keeps between two commands.
#[derive(Debug)]
pub struct Dispatcher {
    pub peer_id: String,
    pub networking_started: bool,
}

/// What the command to set the user's name asks for, once the name is
/// stored: the start of the networking if it does not run yet, and the
/// configuration for the frontend.
pub open spec fn set_username_reactions(
    my_id: Seq<char>,
    networking_started: bool,
    username: Seq<char>,
) -> Seq<ReactionView> {
    let shown = ReactionView::Emit(
        UiEventView::ConfigLoaded { peer_id: my_id, username: Some(username) },
    );
    if networking_started {
        seq![shown]
    } else {
        seq![ReactionView::StartNetworking { peer_id: my_id, username }, shown]
    }
}

/// The peer list as the frontend receives it.
pub open spec fn peer_items(state: SharedState) -> Seq<PeerListItemView> {
    Seq::new(state.peers.value_seq().len(), |i: int| list_item(state.peers.value_seq()[i]@))
}

/// Whether `name` is the user's name as the store gave it: the text of
/// the first column of a row of the answer, or empty where there was
/// none.
pub open spec fn is_stored_name(name: Seq<char>) -> bool {
    name.len() == 0 || is_first_column(name)
}

/// What a command asks for. A message gets a fresh id and the present
/// time, and is sent under the user's name as the store gave it; a group
/// message goes to the members that the store gave; a new group gets a
/// fresh id; the history and the groups are rows that the store gave.
pub open spec fn dispatched(
    cmd: IpcCommandView,
    my_id: Seq<char>,
    networking_started: bool,
    state: SharedState,
    reactions: Seq<ReactionView>,
) -> bool {
    match cmd {
        IpcCommandView::SetUsername { username } => reactions == set_username_reactions(
            my_id,
            networking_started,
            username,
        ),
        IpcCommandView::SendMessage { peer_id, content } => exists|
            name: Seq<char>,
            id: Seq<char>,
            timestamp: Seq<char>,
        |
            is_stored_name(name) && reactions == seq![
                #[trigger] send_message_reaction(my_id, name, peer_id, content, id, timestamp),
            ],
        IpcCommandView::SendGroupMessage { group_id, content } => exists|
            name: Seq<char>,
            members: Seq<Seq<char>>,
            id: Seq<char>,
            timestamp: Seq<char>,
        |
            is_stored_name(name) && are_first_columns(members) && reactions == seq![
                #[trigger] send_group_reaction(
                    my_id,
                    name,
                    group_id,
                    content,
                    members,
                    id,
                    timestamp,
                ),
            ],
        IpcCommandView::LoadHistory { .. } => exists|rows: Seq<MessageRowView>|
            #[trigger] are_message_rows(rows) && reactions == seq![
                ReactionView::Emit(UiEventView::History(rows)),
            ],
        IpcCommandView::CreateGroup { name, members } => exists|
            group_id: Seq<char>,
            groups: Seq<GroupRowView>,
        |
            are_group_rows(groups) && reactions == seq![
                #[trigger] create_group_reaction(my_id, name, members, group_id, groups),
            ],
        IpcCommandView::GetPeers => reactions == seq![
            ReactionView::Emit(UiEventView::PeerList(peer_items(state))),
        ],
        IpcCommandView::GetGroups => exists|groups: Seq<GroupRowView>|
            #[trigger] are_group_rows(groups) && reactions == seq![
                ReactionView::Emit(UiEventView::GroupList(groups)),
            ],
        IpcCommandView::MarkRead { .. } => reactions == Seq::<ReactionView>::empty(),
        IpcCommandView::SetAlwaysOnTop { enabled } => reactions == seq![
            ReactionView::SetAlwaysOnTop(enabled),
        ],
    }
}

/// The queries that a command hands to the store, in order: the user's
/// name for a message; the name and the group's members for a group
/// message; the first messages of the conversation, as many as a
/// request for history gets; the groups after a group was created and
/// when they are asked for.
pub open spec fn dispatch_queries(cmd: IpcCommandView) -> Seq<QueryView> {
    match cmd {
        IpcCommandView::SendMessage { .. } => seq![get_config_statement(KEY_USERNAME@)],
        IpcCommandView::SendGroupMessage { group_id, .. } => seq![
            get_config_statement(KEY_USERNAME@),
            group_members_statement(group_id),
        ],
        IpcCommandView::LoadHistory { conversation_id } => seq![
            load_history_statement(conversation_id, HISTORY_LIMIT),
        ],
        IpcCommandView::CreateGroup { .. } => seq![groups_statement()],
        IpcCommandView::GetGroups => seq![groups_statement()],
        _ => Seq::empty(),
    }
}

/// The statements that a command hands to the store: the user's name
/// for the command that sets it; for a new group the group, its creator
/// as a member and each member that the command names, under the id that
/// the announcement carries; none for the other commands, whose messages
/// are stored when their delivery is over.
pub open spec fn dispatch_statements(
    cmd: IpcCommandView,
    my_id: Seq<char>,
    reactions: Seq<ReactionView>,
) -> Seq<QueryView> {
    match cmd {
        IpcCommandView::SetUsername { username } => seq![
            set_config_statement(KEY_USERNAME@, username),
        ],
        IpcCommandView::CreateGroup { name, members } => {
            if reactions.len() == 1 && reactions[0] is Send
                && reactions[0]->Send_frame is GroupCreate {
                let group_id = reactions[0]->Send_frame->GroupCreate_group_id;
                seq![
                    create_group_statement(group_id, name, my_id),
                    add_member_statement(group_id, my_id),
                ] + Seq::new(members.len(), |i: int| add_member_statement(group_id, members[i]))
            } else {
                Seq::empty()
            }
        },
        _ => Seq::empty(),
    }
}

/// The stored name of the user; empty if none is stored or it cannot be
/// read. The database is handed the query for the name's key, and a
/// name that is not empty is the text of the first column of a row of
/// the answer.
fn stored_username(db: &mut Database) -> (name: String)
    ensures
        final(db).asked() == old(db).asked().push(get_config_statement(KEY_USERNAME@)),
        final(db).issued() == old(db).issued(),
        is_stored_name(name@),
{
    match db.get_config(KEY_USERNAME) {
        Some(name) => name,
        None => String::new(),
    }
}

/// Carries out one command of the frontend as far as the store is
/// concerned, and returns what is left to do, in order. A failure of the
/// store does not stop the command.
pub fn dispatch(ctx: &mut Dispatcher, db: &mut Database, state: &SharedState, cmd: IpcCommand) -> (reactions:
    Vec<Reaction>)
    requires
        state.wf(),
    ensures
        final(ctx).peer_id@ == old(ctx).peer_id@,
        final(ctx).networking_started == (old(ctx).networking_started || cmd is SetUsername),
        dispatched(
            cmd@,
            old(ctx).peer_id@,
            old(ctx).networking_started,
            *state,
            reactions.deep_view(),
        ),
        final(db).issued() == old(db).issued() + dispatch_statements(
            cmd@,
            old(ctx).peer_id@,
            reactions.deep_view(),
        ),
        final(db).asked() == old(db).asked() + dispatch_queries(cmd@),
{
    let mut reactions: Vec<Reaction> = Vec::new();
    assert(reactions.deep_view() =~= Seq::<ReactionView>::empty());
    let ghost before = db.issued();
    let ghost asked_before = db.asked();
    assert(before + Seq::<QueryView>::empty() =~= before);
    assert(asked_before + Seq::<QueryView>::empty() =~= asked_before);
    match cmd {
        IpcCommand::SetUsername { username } => {
            let _ = db.set_config(KEY_USERNAME, username.as_str());
            if !ctx.networking_started {
                reactions.push(
                    Reaction::StartNetworking {
                        peer_id: ctx.peer_id.clone(),
                        username: username.clone(),
                    },
                );
                ctx.networking_started = true;
            }
            reactions.push(
                Reaction::Emit(
                    UiEvent::ConfigLoaded { peer_id: ctx.peer_id.clone(), username: Some(username) },
                ),
            );
            assert(reactions.deep_view() =~= set_username_reactions(
                old(ctx).peer_id@,
                old(ctx).networking_started,
                username@,
            ));
            assert(db.issued() =~= before + seq![set_config_statement(KEY_USERNAME@, username@)]);
        },
        IpcCommand::SendMessage { peer_id, content } => {
            let timestamp = now_rfc3339();
            let id = new_uuid();
            let name = stored_username(db);
            let r = plan_send_message(
                ctx.peer_id.as_str(),
                name.as_str(),
                peer_id.as_str(),
                content.as_str(),
                id,
                timestamp,
            );
            reactions.push(r);
            assert(reactions.deep_view() =~= seq![
                send_message_reaction(ctx.peer_id@, name@, peer_id@, content@, id@, timestamp@),
            ]);
            assert(db.asked() =~= asked_before + dispatch_queries(cmd@));
        },
        IpcCommand::SendGroupMessage { group_id, content } => {
            let timestamp = now_rfc3339();
            let id = new_uuid();
            let name = stored_username(db);
            let members = db.get_group_members(group_id.as_str());
            let r = plan_send_group_message(
                ctx.peer_id.as_str(),
                name.as_str(),
                group_id.as_str(),
                content.as_str(),
                &members,
                id,
                timestamp,
            );
            reactions.push(r);
            assert(reactions.deep_view() =~= seq![
                send_group_reaction(
                    ctx.peer_id@,
                    name@,
                    group_id@,
                    content@,
                    texts(members@),
                    id@,
                    timestamp@,
                ),
            ]);
            assert(db.asked() =~= asked_before + dispatch_queries(cmd@));
        },
        IpcCommand::LoadHistory { conversation_id } => {
            let rows = db.load_history(conversation_id.as_str(), HISTORY_LIMIT);
            let ghost shown = rows.deep_view();
            reactions.push(Reaction::Emit(UiEvent::History(rows)));
            assert(reactions.deep_view() =~= seq![ReactionView::Emit(UiEventView::History(shown))]);
            assert(db.asked() =~= asked_before + dispatch_queries(cmd@));
        },
        IpcCommand::CreateGroup { name, members } => {
            let group_id = new_uuid();
            let _ = db.create_group(group_id.as_str(), name.as_str(), ctx.peer_id.as_str());
            let _ = db.add_group_member(group_id.as_str(), ctx.peer_id.as_str());
            let ghost head = before + seq![
                create_group_statement(group_id@, name@, ctx.peer_id@),
                add_member_statement(group_id@, ctx.peer_id@),
            ];
            let ghost named = texts(members@);
            assert(db.issued() =~= head + Seq::new(
                0,
                |k: int| add_member_statement(group_id@, named[k]),
            ));
            let mut i: usize = 0;
            while i < members.len()
                invariant
                    i <= members.len(),
                    named == texts(members@),
                    db.asked() == asked_before,
                    db.issued() == head + Seq::new(
                        i as nat,
                        |k: int| add_member_statement(group_id@, named[k]),
                    ),
                decreases members.len() - i,
            {
                let _ = db.add_group_member(group_id.as_str(), members[i].as_str());
                assert(db.issued() =~= head + Seq::new(
                    (i + 1) as nat,
                    |k: int| add_member_statement(group_id@, named[k]),
                ));
                i += 1;
            }
            let groups = db.get_groups();
            let ghost listed = groups.deep_view();
            let r = plan_create_group(
                ctx.peer_id.as_str(),
                name.as_str(),
                &members,
                group_id,
                groups,
            );
            reactions.push(r);
            assert(reactions.deep_view() =~= seq![
                create_group_reaction(ctx.peer_id@, name@, texts(members@), group_id@, listed),
            ]);
            assert(db.issued() =~= before + dispatch_statements(
                cmd@,
                old(ctx).peer_id@,
                reactions.deep_view(),
            ));
            assert(db.asked() =~= asked_before + dispatch_queries(cmd@));
        },
        IpcCommand::GetPeers => {
            let list = peer_list(state);
            assert(list.deep_view() =~= peer_items(*state));
            reactions.push(Reaction::Emit(UiEvent::PeerList(list)));
            assert(reactions.deep_view() =~= seq![
                ReactionView::Emit(UiEventView::PeerList(peer_items(*state))),
            ]);
        },
        IpcCommand::GetGroups => {
            let groups = db.get_groups();
            let ghost listed = groups.deep_view();
            reactions.push(Reaction::Emit(UiEvent::GroupList(groups)));
            assert(reactions.deep_view() =~= seq![
                ReactionView::Emit(UiEventView::GroupList(listed)),
            ]);
            assert(db.asked() =~= asked_before + dispatch_queries(cmd@));
        },
        IpcCommand::MarkRead { conversation_id: _ } => {},
        IpcCommand::SetAlwaysOnTop { enabled } => {
            reactions.push(Reaction::SetAlwaysOnTop(enabled));
            assert(reactions.deep_view() =~= seq![ReactionView::SetAlwaysOnTop(enabled)]);
        },
    }
    reactions
}

} // verus!
