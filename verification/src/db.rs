//! The local store: its rows, its statements, how a row of a result is
//! read, and the operations on the database file.

use vstd::prelude::*;
use vstd::string::*;
use crate::protocol::texts;
use crate::stamp::now_rfc3339;
use crate::sqlite::{
    asked_on, column_of, error_message, execute, execute_batch, int_column, issued_on,
    open_connection, query_map_all, text_column, Column, Query, QueryView, SqlParam, SqlParamView,
};

verus! {

/// A stored message.
#[derive(Debug)]
pub struct MessageRow {
    pub id: String,
    pub conversation_id: String,
    pub from_id: String,
    pub from_name: String,
    pub content: String,
    pub timestamp: String,
    pub is_group: bool,
    pub status: String,
}

/// The mathematical value of a [`MessageRow`].
pub struct MessageRowView {
    pub id: Seq<char>,
    pub conversation_id: Seq<char>,
    pub from_id: Seq<char>,
    pub from_name: Seq<char>,
    pub content: Seq<char>,
    pub timestamp: Seq<char>,
    pub is_group: bool,
    pub status: Seq<char>,
}

impl View for MessageRow {
    type V = MessageRowView;

    open spec fn view(&self) -> MessageRowView {
        MessageRowView {
            id: self.id@,
            conversation_id: self.conversation_id@,
            from_id: self.from_id@,
            from_name: self.from_name@,
            content: self.content@,
            timestamp: self.timestamp@,
            is_group: self.is_group,
            status: self.status@,
        }
    }
}

impl DeepView for MessageRow {
    type V = MessageRowView;

    open spec fn deep_view(&self) -> MessageRowView {
        self@
    }
}

impl Clone for MessageRow {
    fn clone(&self) -> (res: MessageRow)
        ensures
            res@ == self@,
    {
        MessageRow {
            id: self.id.clone(),
            conversation_id: self.conversation_id.clone(),
            from_id: self.from_id.clone(),
            from_name: self.from_name.clone(),
            content: self.content.clone(),
            timestamp: self.timestamp.clone(),
            is_group: self.is_group,
            status: self.status.clone(),
        }
    }
}

/// A stored group.
#[derive(Debug)]
pub struct GroupRow {
    pub group_id: String,
    pub name: String,
    pub creator_id: String,
}

/// The mathematical value of a [`GroupRow`].
pub struct GroupRowView {
    pub group_id: Seq<char>,
    pub name: Seq<char>,
    pub creator_id: Seq<char>,
}

impl View for GroupRow {
    type V = GroupRowView;

    open spec fn view(&self) -> GroupRowView {
        GroupRowView { group_id: self.group_id@, name: self.name@, creator_id: self.creator_id@ }
    }
}

impl DeepView for GroupRow {
    type V = GroupRowView;

    open spec fn deep_view(&self) -> GroupRowView {
        self@
    }
}

impl Clone for GroupRow {
    fn clone(&self) -> (res: GroupRow)
        ensures
            res@ == self@,
    {
        GroupRow {
            group_id: self.group_id.clone(),
            name: self.name.clone(),
            creator_id: self.creator_id.clone(),
        }
    }
}

/// The status of a message that was handed to the transport.
pub open spec fn status_sent() -> Seq<char> {
    "sent"@
}

/// The status of a message whose receipt was confirmed, and of every
/// message that came in.
pub open spec fn status_delivered() -> Seq<char> {
    "delivered"@
}

/// The status of a message that could not be handed to any recipient.
pub open spec fn status_failed() -> Seq<char> {
    "failed"@
}

/// The tables of the store and the index on the messages. Every
/// statement creates only what is not there, so running the schema twice
/// changes nothing.
pub const SCHEMA_SQL: &'static str =
    "CREATE TABLE IF NOT EXISTS config (key TEXT PRIMARY KEY, value TEXT NOT NULL); CREATE TABLE IF NOT EXISTS peers (peer_id TEXT PRIMARY KEY, username TEXT NOT NULL, last_ip TEXT, last_seen TEXT); CREATE TABLE IF NOT EXISTS messages (id TEXT PRIMARY KEY, conversation_id TEXT NOT NULL, from_id TEXT NOT NULL, from_name TEXT NOT NULL, content TEXT NOT NULL, timestamp TEXT NOT NULL, is_group INTEGER NOT NULL DEFAULT 0, status TEXT NOT NULL DEFAULT 'sent'); CREATE INDEX IF NOT EXISTS idx_messages_conv ON messages(conversation_id, timestamp); CREATE TABLE IF NOT EXISTS groups (group_id TEXT PRIMARY KEY, name TEXT NOT NULL, creator_id TEXT NOT NULL); CREATE TABLE IF NOT EXISTS group_members (group_id TEXT NOT NULL, peer_id TEXT NOT NULL, PRIMARY KEY (group_id, peer_id));";

/// Reads the value of a configuration key.
pub const GET_CONFIG_SQL: &'static str = "SELECT value FROM config WHERE key = ?1";

/// Sets a configuration key, whether or not it had a value.
pub const SET_CONFIG_SQL: &'static str =
    "INSERT INTO config (key, value) VALUES (?1, ?2) ON CONFLICT(key) DO UPDATE SET value = ?2";

/// Inserts a message unless a message of its id is stored.
pub const INSERT_MESSAGE_SQL: &'static str =
    "INSERT OR IGNORE INTO messages (id, conversation_id, from_id, from_name, content, timestamp, is_group, status) VALUES (?1, ?2, ?3, ?4, ?5, ?6, ?7, ?8)";

/// Reads the first messages of a conversation, oldest first.
pub const LOAD_HISTORY_SQL: &'static str =
    "SELECT id, conversation_id, from_id, from_name, content, timestamp, is_group, status FROM messages WHERE conversation_id = ?1 ORDER BY timestamp ASC LIMIT ?2";

/// Sets the status of a message.
pub const UPDATE_STATUS_SQL: &'static str = "UPDATE messages SET status = ?2 WHERE id = ?1";

/// Stores or refreshes what is known of a peer.
pub const UPSERT_PEER_SQL: &'static str =
    "INSERT INTO peers (peer_id, username, last_ip, last_seen) VALUES (?1, ?2, ?3, ?4) ON CONFLICT(peer_id) DO UPDATE SET username=?2, last_ip=?3, last_seen=?4";

/// Stores a group unless a group of its id is stored.
pub const CREATE_GROUP_SQL: &'static str =
    "INSERT OR IGNORE INTO groups (group_id, name, creator_id) VALUES (?1, ?2, ?3)";

/// Makes a peer a member of a group unless it is one.
pub const ADD_MEMBER_SQL: &'static str =
    "INSERT OR IGNORE INTO group_members (group_id, peer_id) VALUES (?1, ?2)";

/// Ends a peer's membership of a group.
pub const REMOVE_MEMBER_SQL: &'static str =
    "DELETE FROM group_members WHERE group_id = ?1 AND peer_id = ?2";

/// Reads all groups.
pub const GET_GROUPS_SQL: &'static str = "SELECT group_id, name, creator_id FROM groups";

/// Reads the members of a group.
pub const GET_MEMBERS_SQL: &'static str = "SELECT peer_id FROM group_members WHERE group_id = ?1";

/// The number of rows that a request for a conversation's history asks for.
pub const HISTORY_LIMIT: i64 = 200;

/// The statement `sql` with the texts `values` for its placeholders.
pub open spec fn text_statement(sql: Seq<char>, values: Seq<Seq<char>>) -> QueryView {
    QueryView { sql, params: Seq::new(values.len(), |i: int| SqlParamView::Text(values[i])) }
}

/// The query for the value of a configuration key.
pub open spec fn get_config_statement(key: Seq<char>) -> QueryView {
    QueryView { sql: GET_CONFIG_SQL@, params: seq![SqlParamView::Text(key)] }
}

/// The statement that sets a configuration key.
pub open spec fn set_config_statement(key: Seq<char>, value: Seq<char>) -> QueryView {
    QueryView {
        sql: SET_CONFIG_SQL@,
        params: seq![SqlParamView::Text(key), SqlParamView::Text(value)],
    }
}

/// The parameters of the statement that inserts the row `m`: its fields
/// in the order of the columns, the flag as 1 or 0.
pub open spec fn message_params(m: MessageRowView) -> Seq<SqlParamView> {
    seq![
        SqlParamView::Text(m.id),
        SqlParamView::Text(m.conversation_id),
        SqlParamView::Text(m.from_id),
        SqlParamView::Text(m.from_name),
        SqlParamView::Text(m.content),
        SqlParamView::Text(m.timestamp),
        SqlParamView::Integer(if m.is_group { 1i64 } else { 0i64 }),
        SqlParamView::Text(m.status),
    ]
}

/// The statement that inserts a message unless its id is stored.
pub open spec fn insert_message_statement(m: MessageRowView) -> QueryView {
    QueryView { sql: INSERT_MESSAGE_SQL@, params: message_params(m) }
}

/// The query for the first `limit` messages of a conversation.
pub open spec fn load_history_statement(conversation_id: Seq<char>, limit: i64) -> QueryView {
    QueryView {
        sql: LOAD_HISTORY_SQL@,
        params: seq![SqlParamView::Text(conversation_id), SqlParamView::Integer(limit)],
    }
}

/// The statement that sets the status of a message.
pub open spec fn update_status_statement(id: Seq<char>, status: Seq<char>) -> QueryView {
    QueryView {
        sql: UPDATE_STATUS_SQL@,
        params: seq![SqlParamView::Text(id), SqlParamView::Text(status)],
    }
}

/// The statement that stores or refreshes a peer.
pub open spec fn upsert_peer_statement(
    peer_id: Seq<char>,
    username: Seq<char>,
    ip: Seq<char>,
    seen_at: Seq<char>,
) -> QueryView {
    QueryView {
        sql: UPSERT_PEER_SQL@,
        params: seq![
            SqlParamView::Text(peer_id),
            SqlParamView::Text(username),
            SqlParamView::Text(ip),
            SqlParamView::Text(seen_at),
        ],
    }
}

/// The statement that stores a group unless its id is stored.
pub open spec fn create_group_statement(
    group_id: Seq<char>,
    name: Seq<char>,
    creator_id: Seq<char>,
) -> QueryView {
    QueryView {
        sql: CREATE_GROUP_SQL@,
        params: seq![
            SqlParamView::Text(group_id),
            SqlParamView::Text(name),
            SqlParamView::Text(creator_id),
        ],
    }
}

/// The statement that makes a peer a member of a group.
pub open spec fn add_member_statement(group_id: Seq<char>, peer_id: Seq<char>) -> QueryView {
    QueryView {
        sql: ADD_MEMBER_SQL@,
        params: seq![SqlParamView::Text(group_id), SqlParamView::Text(peer_id)],
    }
}

/// The statement that ends a peer's membership of a group.
pub open spec fn remove_member_statement(group_id: Seq<char>, peer_id: Seq<char>) -> QueryView {
    QueryView {
        sql: REMOVE_MEMBER_SQL@,
        params: seq![SqlParamView::Text(group_id), SqlParamView::Text(peer_id)],
    }
}

/// The query for the members of a group.
pub open spec fn group_members_statement(group_id: Seq<char>) -> QueryView {
    QueryView { sql: GET_MEMBERS_SQL@, params: seq![SqlParamView::Text(group_id)] }
}

/// The query for all groups.
pub open spec fn groups_statement() -> QueryView {
    QueryView { sql: GET_GROUPS_SQL@, params: Seq::empty() }
}

/// Builds the statement `sql` with text values for its placeholders.
pub fn text_query(sql: &str, values: Vec<String>) -> (q: Query)
    ensures
        q@ == text_statement(sql@, texts(values@)),
{
    let mut values = values;
    let ghost given = values@;
    let mut params: Vec<SqlParam> = Vec::new();
    while values.len() > 0
        invariant
            params.len() + values.len() == given.len(),
            forall|k: int| 0 <= k < params.len() ==> params[k]@ == SqlParamView::Text(given[k]@),
            forall|k: int| 0 <= k < values.len() ==> values[k] == given[params.len() + k],
        decreases values.len(),
    {
        let v = values.remove(0);
        params.push(SqlParam::Text(v));
    }
    let q = Query { sql: String::from_str(sql), params };
    assert(q@.params =~= text_statement(sql@, texts(given)).params);
    q
}

/// Builds the query for the value of the configuration key `key`.
pub fn get_config_query(key: &str) -> (q: Query)
    ensures
        q@ == get_config_statement(key@),
{
    let q = text_query(GET_CONFIG_SQL, vec![String::from_str(key)]);
    assert(q@.params =~= get_config_statement(key@).params);
    q
}

/// Builds the statement that sets the configuration key `key` to `value`.
pub fn set_config_query(key: &str, value: &str) -> (q: Query)
    ensures
        q@ == set_config_statement(key@, value@),
{
    let q = text_query(SET_CONFIG_SQL, vec![String::from_str(key), String::from_str(value)]);
    assert(q@.params =~= set_config_statement(key@, value@).params);
    q
}

/// Builds the statement that inserts the row `msg`.
pub fn insert_message_query(msg: &MessageRow) -> (q: Query)
    ensures
        q@ == insert_message_statement(msg@),
{
    let mut params: Vec<SqlParam> = Vec::new();
    params.push(SqlParam::Text(msg.id.clone()));
    params.push(SqlParam::Text(msg.conversation_id.clone()));
    params.push(SqlParam::Text(msg.from_id.clone()));
    params.push(SqlParam::Text(msg.from_name.clone()));
    params.push(SqlParam::Text(msg.content.clone()));
    params.push(SqlParam::Text(msg.timestamp.clone()));
    params.push(SqlParam::Integer(if msg.is_group { 1 } else { 0 }));
    params.push(SqlParam::Text(msg.status.clone()));
    let q = Query { sql: String::from_str(INSERT_MESSAGE_SQL), params };
    assert(q@.params =~= message_params(msg@));
    q
}

/// Builds the query for the first `limit` messages of a conversation.
pub fn load_history_query(conversation_id: &str, limit: i64) -> (q: Query)
    ensures
        q@ == load_history_statement(conversation_id@, limit),
{
    let mut params: Vec<SqlParam> = Vec::new();
    params.push(SqlParam::Text(String::from_str(conversation_id)));
    params.push(SqlParam::Integer(limit));
    let q = Query { sql: String::from_str(LOAD_HISTORY_SQL), params };
    assert(q@.params =~= load_history_statement(conversation_id@, limit).params);
    q
}

/// Builds the statement that sets the status of the message `id`.
pub fn update_status_query(id: &str, status: &str) -> (q: Query)
    ensures
        q@ == update_status_statement(id@, status@),
{
    let q = text_query(UPDATE_STATUS_SQL, vec![String::from_str(id), String::from_str(status)]);
    assert(q@.params =~= update_status_statement(id@, status@).params);
    q
}

/// Builds the statement that stores or refreshes what is known of a
/// peer, seen at `seen_at`.
pub fn upsert_peer_query(peer_id: &str, username: &str, ip: &str, seen_at: &str) -> (q: Query)
    ensures
        q@ == upsert_peer_statement(peer_id@, username@, ip@, seen_at@),
{
    let q = text_query(
        UPSERT_PEER_SQL,
        vec![
            String::from_str(peer_id),
            String::from_str(username),
            String::from_str(ip),
            String::from_str(seen_at),
        ],
    );
    assert(q@.params =~= upsert_peer_statement(peer_id@, username@, ip@, seen_at@).params);
    q
}

/// Builds the statement that stores a group.
pub fn create_group_query(group_id: &str, name: &str, creator_id: &str) -> (q: Query)
    ensures
        q@ == create_group_statement(group_id@, name@, creator_id@),
{
    let q = text_query(
        CREATE_GROUP_SQL,
        vec![String::from_str(group_id), String::from_str(name), String::from_str(creator_id)],
    );
    assert(q@.params =~= create_group_statement(group_id@, name@, creator_id@).params);
    q
}

/// Builds the statement that makes a peer a member of a group.
pub fn add_member_query(group_id: &str, peer_id: &str) -> (q: Query)
    ensures
        q@ == add_member_statement(group_id@, peer_id@),
{
    let q = text_query(ADD_MEMBER_SQL, vec![String::from_str(group_id), String::from_str(peer_id)]);
    assert(q@.params =~= add_member_statement(group_id@, peer_id@).params);
    q
}

/// Builds the statement that ends a peer's membership of a group.
pub fn remove_member_query(group_id: &str, peer_id: &str) -> (q: Query)
    ensures
        q@ == remove_member_statement(group_id@, peer_id@),
{
    let q = text_query(
        REMOVE_MEMBER_SQL,
        vec![String::from_str(group_id), String::from_str(peer_id)],
    );
    assert(q@.params =~= remove_member_statement(group_id@, peer_id@).params);
    q
}

/// Builds the query for the members of a group.
pub fn group_members_query(group_id: &str) -> (q: Query)
    ensures
        q@ == group_members_statement(group_id@),
{
    let q = text_query(GET_MEMBERS_SQL, vec![String::from_str(group_id)]);
    assert(q@.params =~= group_members_statement(group_id@).params);
    q
}

/// Builds the query for all groups.
pub fn groups_query() -> (q: Query)
    ensures
        q@ == groups_statement(),
{
    let q = Query { sql: String::from_str(GET_GROUPS_SQL), params: Vec::new() };
    assert(q@.params =~= Seq::<SqlParamView>::empty());
    q
}

/// The text of column `idx`, if the column holds text.
pub open spec fn text_at(row: &rusqlite::Row<'_>, idx: usize) -> Option<Seq<char>> {
    match column_of(row, idx) {
        Column::Text(s) => Some(s),
        _ => None,
    }
}

/// The flag in column `idx`: any integer of 32 bits but zero stands for
/// true.
pub open spec fn flag_at(row: &rusqlite::Row<'_>, idx: usize) -> Option<bool> {
    match column_of(row, idx) {
        Column::Integer(v) => if i32::MIN <= v <= i32::MAX {
            Some(v != 0)
        } else {
            None
        },
        _ => None,
    }
}

/// The message that a row of the history query holds: its eight columns
/// in the order of the query, if each has the type of its field.
pub open spec fn message_of(row: &rusqlite::Row<'_>) -> Option<MessageRowView> {
    if text_at(row, 0) is Some && text_at(row, 1) is Some && text_at(row, 2) is Some && text_at(
        row,
        3,
    ) is Some && text_at(row, 4) is Some && text_at(row, 5) is Some && flag_at(row, 6) is Some
        && text_at(row, 7) is Some {
        Some(
            MessageRowView {
                id: text_at(row, 0)->0,
                conversation_id: text_at(row, 1)->0,
                from_id: text_at(row, 2)->0,
                from_name: text_at(row, 3)->0,
                content: text_at(row, 4)->0,
                timestamp: text_at(row, 5)->0,
                is_group: flag_at(row, 6)->0,
                status: text_at(row, 7)->0,
            },
        )
    } else {
        None
    }
}

/// The group that a row of the groups query holds.
pub open spec fn group_of(row: &rusqlite::Row<'_>) -> Option<GroupRowView> {
    if text_at(row, 0) is Some && text_at(row, 1) is Some && text_at(row, 2) is Some {
        Some(
            GroupRowView {
                group_id: text_at(row, 0)->0,
                name: text_at(row, 1)->0,
                creator_id: text_at(row, 2)->0,
            },
        )
    } else {
        None
    }
}

/// Whether `m` is what some row of an answer holds as a message.
pub open spec fn is_message_row(m: MessageRowView) -> bool {
    exists|row: &rusqlite::Row<'_>| #[trigger] message_of(row) == Some(m)
}

/// Whether `g` is what some row of an answer holds as a group.
pub open spec fn is_group_row(g: GroupRowView) -> bool {
    exists|row: &rusqlite::Row<'_>| #[trigger] group_of(row) == Some(g)
}

/// Whether `text` is the text in the first column of some row of an
/// answer.
pub open spec fn is_first_column(text: Seq<char>) -> bool {
    exists|row: &rusqlite::Row<'_>| #[trigger] text_at(row, 0) == Some(text)
}

/// Whether every one of `groups` was read from a row of an answer.
pub open spec fn are_group_rows(groups: Seq<GroupRowView>) -> bool {
    forall|i: int| 0 <= i < groups.len() ==> is_group_row(#[trigger] groups[i])
}

/// Whether every one of `rows` was read from a row of an answer.
pub open spec fn are_message_rows(rows: Seq<MessageRowView>) -> bool {
    forall|i: int| 0 <= i < rows.len() ==> is_message_row(#[trigger] rows[i])
}

/// Whether every one of `members` is the text in the first column of a
/// row of an answer.
pub open spec fn are_first_columns(members: Seq<Seq<char>>) -> bool {
    forall|i: int| 0 <= i < members.len() ==> is_first_column(#[trigger] members[i])
}

/// Reads a message from a row of the history query.
pub fn read_message(row: &rusqlite::Row<'_>) -> (r: Result<MessageRow, rusqlite::Error>)
    ensures
        match r {
            Ok(m) => message_of(row) == Some(m@),
            Err(_) => message_of(row) is None,
        },
{
    let id = text_column(row, 0)?;
    let conversation_id = text_column(row, 1)?;
    let from_id = text_column(row, 2)?;
    let from_name = text_column(row, 3)?;
    let content = text_column(row, 4)?;
    let timestamp = text_column(row, 5)?;
    let flag = int_column(row, 6)?;
    let status = text_column(row, 7)?;
    Ok(
        MessageRow {
            id,
            conversation_id,
            from_id,
            from_name,
            content,
            timestamp,
            is_group: flag != 0,
            status,
        },
    )
}

/// Reads a group from a row of the groups query.
pub fn read_group(row: &rusqlite::Row<'_>) -> (r: Result<GroupRow, rusqlite::Error>)
    ensures
        match r {
            Ok(g) => group_of(row) == Some(g@),
            Err(_) => group_of(row) is None,
        },
{
    let group_id = text_column(row, 0)?;
    let name = text_column(row, 1)?;
    let creator_id = text_column(row, 2)?;
    Ok(GroupRow { group_id, name, creator_id })
}

/// Reads the text in the first column of a row.
pub fn read_text(row: &rusqlite::Row<'_>) -> (r: Result<String, rusqlite::Error>)
    ensures
        match r {
            Ok(s) => text_at(row, 0) == Some(s@),
            Err(_) => text_at(row, 0) is None,
        },
{
    text_column(row, 0)
}

/// The values among `items`, in order, without the errors.
pub open spec fn oks<T, E>(items: Seq<Result<T, E>>) -> Seq<T>
    decreases items.len(),
{
    if items.len() == 0 {
        Seq::empty()
    } else {
        match items.last() {
            Ok(v) => oks(items.drop_last()).push(v),
            Err(_) => oks(items.drop_last()),
        }
    }
}

/// Every value among the `oks` is one of the items, and there are no
/// more values than items.
pub proof fn lemma_oks_members<T, E>(items: Seq<Result<T, E>>)
    ensures
        oks(items).len() <= items.len(),
        forall|i: int|
            0 <= i < oks(items).len() ==> exists|j: int|
                0 <= j < items.len() && items[j] == Ok::<T, E>(#[trigger] oks(items)[i]),
    decreases items.len(),
{
    if items.len() > 0 {
        let rest = items.drop_last();
        lemma_oks_members(rest);
        assert forall|i: int| 0 <= i < oks(items).len() implies exists|j: int|
            0 <= j < items.len() && items[j] == Ok::<T, E>(#[trigger] oks(items)[i]) by {
            if i < oks(rest).len() {
                let j = choose|j: int| 0 <= j < rest.len() && rest[j] == Ok::<T, E>(oks(rest)[i]);
                assert(items[j] == rest[j]);
            } else {
                assert(items[items.len() - 1] == items.last());
            }
        }
    }
}

/// Dropping the errors keeps the order: whatever relation holds between
/// every earlier and every later value among the items holds between
/// every earlier and every later value that is kept. So rows that the
/// database yields by ascending timestamp are returned by ascending
/// timestamp.
pub proof fn lemma_oks_keep_order<T, E>(items: Seq<Result<T, E>>, before: spec_fn(T, T) -> bool)
    requires
        forall|i: int, j: int|
            0 <= i < j < items.len() && items[i] is Ok && items[j] is Ok ==> before(
                items[i]->Ok_0,
                items[j]->Ok_0,
            ),
    ensures
        forall|i: int, j: int|
            0 <= i < j < oks(items).len() ==> before(oks(items)[i], oks(items)[j]),
    decreases items.len(),
{
    if items.len() > 0 {
        let rest = items.drop_last();
        assert forall|i: int, j: int|
            0 <= i < j < rest.len() && rest[i] is Ok && rest[j] is Ok implies before(
            rest[i]->Ok_0,
            rest[j]->Ok_0,
        ) by {
            assert(rest[i] == items[i] && rest[j] == items[j]);
        }
        lemma_oks_keep_order(rest, before);
        lemma_oks_members(rest);
        assert forall|i: int, j: int| 0 <= i < j < oks(items).len() implies before(
            oks(items)[i],
            oks(items)[j],
        ) by {
            if j == oks(rest).len() {
                let k = choose|k: int| 0 <= k < rest.len() && rest[k] == Ok::<T, E>(oks(rest)[i]);
                assert(items[k] == rest[k]);
                assert(items[items.len() - 1] == items.last());
                assert(before(items[k]->Ok_0, items[items.len() - 1]->Ok_0));
            }
        }
    }
}

/// Drops the rows that could not be read and keeps the values of the
/// others, in order.
pub fn keep_ok<T, E>(items: Vec<Result<T, E>>) -> (values: Vec<T>)
    ensures
        values@ == oks(items@),
{
    let mut items = items;
    let ghost given = items@;
    let mut values: Vec<T> = Vec::new();
    assert(given.subrange(0, 0) =~= Seq::<Result<T, E>>::empty());
    while items.len() > 0
        invariant
            items.len() <= given.len(),
            items@ == given.subrange(given.len() - items.len(), given.len() as int),
            values@ == oks(given.subrange(0, given.len() - items.len())),
        decreases items.len(),
    {
        let ghost k = given.len() - items.len();
        let item = items.remove(0);
        proof {
            assert(item == given[k]);
            assert(given.subrange(0, k + 1).drop_last() =~= given.subrange(0, k));
            assert(given.subrange(0, k + 1).last() == given[k]);
            assert(items@ =~= given.subrange(k + 1, given.len() as int));
        }
        match item {
            Ok(v) => {
                values.push(v);
            },
            Err(_) => {},
        }
    }
    assert(given.subrange(0, given.len() as int) =~= given);
    values
}

/// The first item's value; none if there is no item or the first is an
/// error.
pub fn first_ok<T, E>(items: Vec<Result<T, E>>) -> (value: Option<T>)
    ensures
        value == (if items.len() > 0 && items[0] is Ok {
            Some(items[0]->Ok_0)
        } else {
            None
        }),
{
    let mut items = items;
    if items.len() == 0 {
        None
    } else {
        match items.remove(0) {
            Ok(v) => Some(v),
            Err(_) => None,
        }
    }
}

/// An operation of the store that failed, with the database's words.
#[derive(Debug)]
pub struct DbError {
    pub message: String,
}

/// The store's error for the binding's error, with the binding's words.
fn db_error(e: rusqlite::Error) -> DbError {
    DbError { message: error_message(&e) }
}

/// The statement that sets up the schema: the batch that creates the
/// tables and the index that are not there.
pub open spec fn schema_statement() -> QueryView {
    QueryView { sql: SCHEMA_SQL@, params: Seq::empty() }
}

/// Whether `value` is what `read` made of some row of an answer.
pub open spec fn read_from_row<T, F: Fn(&rusqlite::Row<'_>) -> Result<T, rusqlite::Error>>(
    read: F,
    value: T,
) -> bool {
    exists|row: &rusqlite::Row<'_>| read.ensures((row,), Ok::<T, rusqlite::Error>(value))
}

/// Hands the query `q` to the connection and reads every row of the
/// answer with `read`. Rows that cannot be read are left out, the others
/// keep their order; if the query fails, the result is empty. Every
/// value that is returned is what `read` made of a row of the answer.
fn collect_rows<T, F: Fn(&rusqlite::Row<'_>) -> Result<T, rusqlite::Error>>(
    conn: &mut rusqlite::Connection,
    q: &Query,
    read: F,
) -> (values: Vec<T>)
    requires
        forall|row: &rusqlite::Row<'_>| read.requires((row,)),
    ensures
        asked_on(*final(conn)) == asked_on(*old(conn)).push(q@),
        issued_on(*final(conn)) == issued_on(*old(conn)),
        forall|i: int| 0 <= i < values.len() ==> read_from_row(read, #[trigger] values[i]),
{
    match query_map_all(conn, q, read) {
        Ok(items) => {
            let ghost answer = items@;
            let values = keep_ok(items);
            proof {
                lemma_oks_members(answer);
                assert forall|i: int| 0 <= i < values.len() implies read_from_row(
                    read,
                    #[trigger] values[i],
                ) by {
                    let j = choose|j: int|
                        0 <= j < answer.len() && answer[j] == Ok::<T, rusqlite::Error>(values[i]);
                    assert(!(answer[j] is Err));
                    let row = choose|row: &rusqlite::Row<'_>| read.ensures((row,), answer[j]);
                    assert(read.ensures((row,), Ok::<T, rusqlite::Error>(values[i])));
                }
            }
            values
        },
        Err(_) => Vec::new(),
    }
}

/// Hands the query `q` to the connection and reads the first row of the
/// answer with `read`; none if the query fails, if there is no row, or
/// if the first row cannot be read.
fn first_row<T, F: Fn(&rusqlite::Row<'_>) -> Result<T, rusqlite::Error>>(
    conn: &mut rusqlite::Connection,
    q: &Query,
    read: F,
) -> (value: Option<T>)
    requires
        forall|row: &rusqlite::Row<'_>| read.requires((row,)),
    ensures
        asked_on(*final(conn)) == asked_on(*old(conn)).push(q@),
        issued_on(*final(conn)) == issued_on(*old(conn)),
        value matches Some(v) ==> read_from_row(read, v),
{
    match query_map_all(conn, q, read) {
        Ok(items) => {
            let ghost answer = items@;
            let value = first_ok(items);
            proof {
                if value is Some {
                    assert(!(answer[0] is Err));
                    let row = choose|row: &rusqlite::Row<'_>| read.ensures((row,), answer[0]);
                    assert(read.ensures((row,), Ok::<T, rusqlite::Error>(value->Some_0)));
                }
            }
            value
        },
        Err(_) => None,
    }
}

/// The database file. What was handed to it is on record, in order: the
/// statements that change it, and the queries that read it.
pub struct Database {
    conn: rusqlite::Connection,
}

impl Database {
    /// The statements that were handed to the database to change what it
    /// stores, oldest first, whether or not the database carried them out.
    pub closed spec fn issued(&self) -> Seq<QueryView> {
        issued_on(self.conn)
    }

    /// The queries that were handed to the database to read what it
    /// stores, oldest first, whether or not the database answered them.
    pub closed spec fn asked(&self) -> Seq<QueryView> {
        asked_on(self.conn)
    }

    /// Opens the database at `path`, creating the file and the tables
    /// that are not there. Fails if the file cannot be opened or the
    /// schema cannot be set up. A database that is returned has been
    /// handed the schema and nothing else.
    pub fn open(path: &str) -> (r: Result<Database, DbError>)
        ensures
            r matches Ok(db) ==> db.issued() == seq![schema_statement()] && db.asked() == Seq::<
                QueryView,
            >::empty(),
    {
        match open_connection(path) {
            Ok(conn) => {
                let mut db = Database { conn };
                match db.init_schema() {
                    Ok(()) => {
                        assert(db.issued() =~= seq![schema_statement()]);
                        Ok(db)
                    },
                    Err(e) => Err(e),
                }
            },
            Err(e) => Err(db_error(e)),
        }
    }

    /// Hands the schema to the database, which creates the tables and
    /// the index that are not there.
    fn init_schema(&mut self) -> (r: Result<(), DbError>)
        ensures
            final(self).issued() == old(self).issued().push(schema_statement()),
            final(self).asked() == old(self).asked(),
    {
        match execute_batch(&mut self.conn, SCHEMA_SQL) {
            Ok(()) => Ok(()),
            Err(e) => Err(db_error(e)),
        }
    }

    /// Hands a statement that returns no rows to the database.
    pub fn write(&mut self, q: &Query) -> (r: Result<(), DbError>)
        ensures
            final(self).issued() == old(self).issued().push(q@),
            final(self).asked() == old(self).asked(),
    {
        match execute(&mut self.conn, q) {
            Ok(_) => Ok(()),
            Err(e) => Err(db_error(e)),
        }
    }

    /// The value stored under the configuration key `key`; none if there
    /// is none or it cannot be read. The database is handed the query for
    /// that key, and a value that is returned is the text of the first
    /// column of the first row of the answer.
    pub fn get_config(&mut self, key: &str) -> (value: Option<String>)
        ensures
            final(self).asked() == old(self).asked().push(get_config_statement(key@)),
            final(self).issued() == old(self).issued(),
            value matches Some(v) ==> is_first_column(v@),
    {
        first_row(&mut self.conn, &get_config_query(key), read_text)
    }

    /// Stores `value` under the configuration key `key`, in place of the
    /// value that was there.
    pub fn set_config(&mut self, key: &str, value: &str) -> (r: Result<(), DbError>)
        ensures
            final(self).issued() == old(self).issued().push(set_config_statement(key@, value@)),
            final(self).asked() == old(self).asked(),
    {
        self.write(&set_config_query(key, value))
    }

    /// Stores `msg`. A row of the same id that is stored already stays as
    /// it is, and that is no error.
    pub fn insert_message(&mut self, msg: &MessageRow) -> (r: Result<(), DbError>)
        ensures
            final(self).issued() == old(self).issued().push(insert_message_statement(msg@)),
            final(self).asked() == old(self).asked(),
    {
        self.write(&insert_message_query(msg))
    }

    /// Up to `limit` messages of a conversation, by ascending timestamp.
    /// The database is handed the query for the first `limit` messages
    /// of the conversation, oldest first. Rows of the answer that cannot
    /// be read are left out; if the query fails, the result is empty.
    /// Every message that is returned was read from a row of the answer.
    pub fn load_history(&mut self, conversation_id: &str, limit: i64) -> (rows: Vec<MessageRow>)
        ensures
            final(self).asked() == old(self).asked().push(
                load_history_statement(conversation_id@, limit),
            ),
            final(self).issued() == old(self).issued(),
            are_message_rows(rows.deep_view()),
    {
        let rows = collect_rows(
            &mut self.conn,
            &load_history_query(conversation_id, limit),
            read_message,
        );
        assert forall|i: int| 0 <= i < rows.len() implies is_message_row(
            #[trigger] rows.deep_view()[i],
        ) by {
            assert(read_from_row(read_message, rows[i]));
        }
        rows
    }

    /// Sets the status of the message `id`.
    pub fn update_message_status(&mut self, id: &str, status: &str) -> (r: Result<(), DbError>)
        ensures
            final(self).issued() == old(self).issued().push(update_status_statement(id@, status@)),
            final(self).asked() == old(self).asked(),
    {
        self.write(&update_status_query(id, status))
    }

    /// Stores or refreshes what is known of a peer, with the present time
    /// as the time it was last seen.
    pub fn upsert_peer(&mut self, peer_id: &str, username: &str, ip: &str) -> (r: Result<
        (),
        DbError,
    >)
        ensures
            exists|seen_at: Seq<char>|
                final(self).issued() == old(self).issued().push(
                    #[trigger] upsert_peer_statement(peer_id@, username@, ip@, seen_at),
                ),
            final(self).asked() == old(self).asked(),
    {
        let now = now_rfc3339();
        let r = self.write(&upsert_peer_query(peer_id, username, ip, now.as_str()));
        assert(self.issued() == old(self).issued().push(
            upsert_peer_statement(peer_id@, username@, ip@, now@),
        ));
        r
    }

    /// Stores a group. A group of the same id that is stored already
    /// stays as it is.
    pub fn create_group(&mut self, group_id: &str, name: &str, creator_id: &str) -> (r: Result<
        (),
        DbError,
    >)
        ensures
            final(self).issued() == old(self).issued().push(
                create_group_statement(group_id@, name@, creator_id@),
            ),
            final(self).asked() == old(self).asked(),
    {
        self.write(&create_group_query(group_id, name, creator_id))
    }

    /// Makes a peer a member of a group; nothing changes if it is one.
    pub fn add_group_member(&mut self, group_id: &str, peer_id: &str) -> (r: Result<(), DbError>)
        ensures
            final(self).issued() == old(self).issued().push(
                add_member_statement(group_id@, peer_id@),
            ),
            final(self).asked() == old(self).asked(),
    {
        self.write(&add_member_query(group_id, peer_id))
    }

    /// Ends a peer's membership of a group; nothing changes if it is no
    /// member.
    pub fn remove_group_member(&mut self, group_id: &str, peer_id: &str) -> (r: Result<
        (),
        DbError,
    >)
        ensures
            final(self).issued() == old(self).issued().push(
                remove_member_statement(group_id@, peer_id@),
            ),
            final(self).asked() == old(self).asked(),
    {
        self.write(&remove_member_query(group_id, peer_id))
    }

    /// The stored groups. The database is handed the query for all
    /// groups. Rows of the answer that cannot be read are left out; if
    /// the query fails, the result is empty. Every group that is returned
    /// was read from a row of the answer.
    pub fn get_groups(&mut self) -> (groups: Vec<GroupRow>)
        ensures
            final(self).asked() == old(self).asked().push(groups_statement()),
            final(self).issued() == old(self).issued(),
            are_group_rows(groups.deep_view()),
    {
        let groups = collect_rows(&mut self.conn, &groups_query(), read_group);
        assert forall|i: int| 0 <= i < groups.len() implies is_group_row(
            #[trigger] groups.deep_view()[i],
        ) by {
            assert(read_from_row(read_group, groups[i]));
        }
        groups
    }

    /// The ids of the members of a group. The database is handed the
    /// query for the members of that group. Rows of the answer that
    /// cannot be read are left out; if the query fails, the result is
    /// empty. Every id that is returned is the text of the first column
    /// of a row of the answer.
    pub fn get_group_members(&mut self, group_id: &str) -> (members: Vec<String>)
        ensures
            final(self).asked() == old(self).asked().push(group_members_statement(group_id@)),
            final(self).issued() == old(self).issued(),
            are_first_columns(texts(members@)),
    {
        let members = collect_rows(&mut self.conn, &group_members_query(group_id), read_text);
        assert forall|i: int| 0 <= i < members.len() implies is_first_column(
            #[trigger] texts(members@)[i],
        ) by {
            assert(read_from_row(read_text, members[i]));
        }
        members
    }
}

/// The family of operating system, as far as it decides where the
/// user's data lives.
#[derive(Clone, Copy, PartialEq, Eq, Debug, Structural)]
pub enum Platform {
    Windows,
    MacOs,
    Other,
}

/// The character that separates the parts of a path.
pub open spec fn separator(platform: Platform) -> char {
    if platform == Platform::Windows {
        '\\'
    } else {
        '/'
    }
}

/// Whether `c` ends a part of a path.
pub open spec fn is_separator(platform: Platform, c: char) -> bool {
    c == '/' || (platform == Platform::Windows && c == '\\')
}

/// Whether `base` is nothing but a drive of Windows: a letter and a
/// colon.
pub open spec fn is_bare_drive(platform: Platform, base: Seq<char>) -> bool {
    &&& platform == Platform::Windows
    &&& base.len() == 2
    &&& base[1] == ':'
    &&& (('a' as u32 <= base[0] as u32 <= 'z' as u32) || ('A' as u32 <= base[0] as u32 <= 'Z' as u32))
}

/// The path `base` with the part `part` behind it: a separator stands
/// between the two unless `base` is empty, ends with one, or is a bare
/// drive.
pub open spec fn joined(platform: Platform, base: Seq<char>, part: Seq<char>) -> Seq<char> {
    if base.len() == 0 || is_separator(platform, base.last()) || is_bare_drive(platform, base) {
        base + part
    } else {
        base.push(separator(platform)) + part
    }
}

/// The parts below the user's base directory that lead to the database
/// file.
pub open spec fn data_parts(platform: Platform) -> Seq<Seq<char>> {
    match platform {
        Platform::Windows => seq!["gustavio"@, "gustavio.db"@],
        Platform::MacOs => seq![
            "Library"@,
            "Application Support"@,
            "gustavio"@,
            "gustavio.db"@,
        ],
        Platform::Other => seq![".local"@, "share"@, "gustavio"@, "gustavio.db"@],
    }
}

/// `base` with the parts `parts` behind it, one after the other.
pub open spec fn joined_all(platform: Platform, base: Seq<char>, parts: Seq<Seq<char>>) -> Seq<char>
    decreases parts.len(),
{
    if parts.len() == 0 {
        base
    } else {
        joined(platform, joined_all(platform, base, parts.drop_last()), parts.last())
    }
}

/// Puts `part` behind the path `path`.
fn push_part(platform: Platform, path: &mut String, part: &str)
    requires
        part@.len() > 0,
    ensures
        final(path)@ == joined(platform, old(path)@, part@),
        final(path)@.len() > 0,
{
    let n = path.as_str().unicode_len();
    let ends = if n == 0 {
        true
    } else {
        let c = path.as_str().get_char(n - 1);
        let separated = c == '/' || (platform == Platform::Windows && c == '\\');
        let drive = if n == 2 && c == ':' {
            let letter = path.as_str().get_char(0) as u32;
            platform == Platform::Windows && (('a' as u32 <= letter && letter <= 'z' as u32) || (
            'A' as u32 <= letter && letter <= 'Z' as u32))
        } else {
            false
        };
        separated || drive
    };
    if !ends {
        match platform {
            Platform::Windows => {
                proof {
                    reveal_strlit("\\");
                }
                path.append("\\");
                assert(path@ =~= old(path)@.push('\\'));
            },
            _ => {
                proof {
                    reveal_strlit("/");
                }
                path.append("/");
                assert(path@ =~= old(path)@.push('/'));
            },
        }
    }
    path.append(part);
}

/// The path of the database file below the user's base directory
/// `base`: the application data directory on Windows, the home
/// directory elsewhere.
pub fn db_path(platform: Platform, base: &str) -> (path: String)
    ensures
        path@ == joined_all(platform, base@, data_parts(platform)),
{
    let mut path = String::from_str(base);
    proof {
        reveal_strlit("gustavio");
        reveal_strlit("gustavio.db");
        reveal_strlit("Library");
        reveal_strlit("Application Support");
        reveal_strlit(".local");
        reveal_strlit("share");
        reveal_with_fuel(joined_all, 5);
        let parts = data_parts(platform);
        if platform == Platform::Windows {
            assert(parts.drop_last() =~= seq!["gustavio"@]);
            assert(parts.drop_last().drop_last() =~= Seq::<Seq<char>>::empty());
        } else if platform == Platform::MacOs {
            assert(parts.drop_last() =~= seq!["Library"@, "Application Support"@, "gustavio"@]);
            assert(parts.drop_last().drop_last() =~= seq!["Library"@, "Application Support"@]);
            assert(parts.drop_last().drop_last().drop_last() =~= seq!["Library"@]);
            assert(parts.drop_last().drop_last().drop_last().drop_last() =~= Seq::<
                Seq<char>,
            >::empty());
        } else {
            assert(parts.drop_last() =~= seq![".local"@, "share"@, "gustavio"@]);
            assert(parts.drop_last().drop_last() =~= seq![".local"@, "share"@]);
            assert(parts.drop_last().drop_last().drop_last() =~= seq![".local"@]);
            assert(parts.drop_last().drop_last().drop_last().drop_last() =~= Seq::<
                Seq<char>,
            >::empty());
        }
    }
    match platform {
        Platform::Windows => {},
        Platform::MacOs => {
            push_part(platform, &mut path, "Library");
            push_part(platform, &mut path, "Application Support");
        },
        Platform::Other => {
            push_part(platform, &mut path, ".local");
            push_part(platform, &mut path, "share");
        },
    }
    push_part(platform, &mut path, "gustavio");
    push_part(platform, &mut path, "gustavio.db");
    path
}

} // verus!
