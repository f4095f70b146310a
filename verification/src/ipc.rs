//! The two directions between the engine and the frontend: the commands
//! that come in, and the events that go out as calls of a script.

use vstd::prelude::*;
use vstd::string::*;
use crate::app_event::{AppEvent, AppEventView};
use crate::db::{GroupRow, GroupRowView, MessageRow, MessageRowView};
use crate::discovery::{PeerListItem, PeerListItemView};
use crate::protocol::texts;

verus! {

/// A command of the frontend.
#[derive(Debug)]
pub enum IpcCommand {
    SetUsername { username: String },
    SendMessage { peer_id: String, content: String },
    SendGroupMessage { group_id: String, content: String },
    LoadHistory { conversation_id: String },
    CreateGroup { name: String, members: Vec<String> },
    GetPeers,
    GetGroups,
    MarkRead { conversation_id: String },
    SetAlwaysOnTop { enabled: bool },
}

/// The mathematical value of an [`IpcCommand`].
pub enum IpcCommandView {
    SetUsername { username: Seq<char> },
    SendMessage { peer_id: Seq<char>, content: Seq<char> },
    SendGroupMessage { group_id: Seq<char>, content: Seq<char> },
    LoadHistory { conversation_id: Seq<char> },
    CreateGroup { name: Seq<char>, members: Seq<Seq<char>> },
    GetPeers,
    GetGroups,
    MarkRead { conversation_id: Seq<char> },
    SetAlwaysOnTop { enabled: bool },
}

impl View for IpcCommand {
    type V = IpcCommandView;

    open spec fn view(&self) -> IpcCommandView {
        match *self {
            IpcCommand::SetUsername { username } => IpcCommandView::SetUsername {
                username: username@,
            },
            IpcCommand::SendMessage { peer_id, content } => IpcCommandView::SendMessage {
                peer_id: peer_id@,
                content: content@,
            },
            IpcCommand::SendGroupMessage { group_id, content } => IpcCommandView::SendGroupMessage {
                group_id: group_id@,
                content: content@,
            },
            IpcCommand::LoadHistory { conversation_id } => IpcCommandView::LoadHistory {
                conversation_id: conversation_id@,
            },
            IpcCommand::CreateGroup { name, members } => IpcCommandView::CreateGroup {
                name: name@,
                members: texts(members@),
            },
            IpcCommand::GetPeers => IpcCommandView::GetPeers,
            IpcCommand::GetGroups => IpcCommandView::GetGroups,
            IpcCommand::MarkRead { conversation_id } => IpcCommandView::MarkRead {
                conversation_id: conversation_id@,
            },
            IpcCommand::SetAlwaysOnTop { enabled } => IpcCommandView::SetAlwaysOnTop { enabled },
        }
    }
}

/// An event for the frontend.
#[derive(Debug)]
pub enum UiEvent {
    ConfigLoaded { peer_id: String, username: Option<String> },
    PeerList(Vec<PeerListItem>),
    GroupList(Vec<GroupRow>),
    GroupCreated(String),
    History(Vec<MessageRow>),
    IncomingMessage(MessageRow),
    MessageAck { message_id: String, status: String },
    Error(String),
}

/// The mathematical value of a [`UiEvent`].
pub enum UiEventView {
    ConfigLoaded { peer_id: Seq<char>, username: Option<Seq<char>> },
    PeerList(Seq<PeerListItemView>),
    GroupList(Seq<GroupRowView>),
    GroupCreated(Seq<char>),
    History(Seq<MessageRowView>),
    IncomingMessage(MessageRowView),
    MessageAck { message_id: Seq<char>, status: Seq<char> },
    Error(Seq<char>),
}

impl View for UiEvent {
    type V = UiEventView;

    open spec fn view(&self) -> UiEventView {
        match *self {
            UiEvent::ConfigLoaded { peer_id, username } => UiEventView::ConfigLoaded {
                peer_id: peer_id@,
                username: match username {
                    Some(name) => Some(name@),
                    None => None,
                },
            },
            UiEvent::PeerList(items) => UiEventView::PeerList(items.deep_view()),
            UiEvent::GroupList(groups) => UiEventView::GroupList(groups.deep_view()),
            UiEvent::GroupCreated(group_id) => UiEventView::GroupCreated(group_id@),
            UiEvent::History(rows) => UiEventView::History(rows.deep_view()),
            UiEvent::IncomingMessage(row) => UiEventView::IncomingMessage(row@),
            UiEvent::MessageAck { message_id, status } => UiEventView::MessageAck {
                message_id: message_id@,
                status: status@,
            },
            UiEvent::Error(text) => UiEventView::Error(text@),
        }
    }
}

impl DeepView for UiEvent {
    type V = UiEventView;

    open spec fn deep_view(&self) -> UiEventView {
        self@
    }
}

/// The name under which the frontend receives an event.
pub open spec fn name_of(event: UiEventView) -> Seq<char> {
    match event {
        UiEventView::ConfigLoaded { .. } => "config_loaded"@,
        UiEventView::PeerList(_) => "peer_list"@,
        UiEventView::GroupList(_) => "group_list"@,
        UiEventView::GroupCreated(_) => "group_created"@,
        UiEventView::History(_) => "history"@,
        UiEventView::IncomingMessage(_) => "incoming_message"@,
        UiEventView::MessageAck { .. } => "message_ack"@,
        UiEventView::Error(_) => "error"@,
    }
}

/// The name under which the frontend receives `event`.
pub fn event_name(event: &UiEvent) -> (name: &'static str)
    ensures
        name@ == name_of(event@),
{
    match event {
        UiEvent::ConfigLoaded { .. } => "config_loaded",
        UiEvent::PeerList(_) => "peer_list",
        UiEvent::GroupList(_) => "group_list",
        UiEvent::GroupCreated(_) => "group_created",
        UiEvent::History(_) => "history",
        UiEvent::IncomingMessage(_) => "incoming_message",
        UiEvent::MessageAck { .. } => "message_ack",
        UiEvent::Error(_) => "error",
    }
}

/// The lower-case hexadecimal digit of `n`.
pub open spec fn hex_digit(n: int) -> char
    recommends
        0 <= n < 16,
{
    if n < 10 {
        (('0' as int) + n) as char
    } else {
        (('a' as int) + n - 10) as char
    }
}

/// How a character stands inside a JSON string: the quotation mark, the
/// backslash and the control characters are escaped, every other
/// character stands for itself.
pub open spec fn json_char(c: char) -> Seq<char> {
    let n = c as int;
    if c == '"' {
        seq!['\\', '"']
    } else if c == '\\' {
        seq!['\\', '\\']
    } else if n == 0x08 {
        seq!['\\', 'b']
    } else if n == 0x09 {
        seq!['\\', 't']
    } else if n == 0x0A {
        seq!['\\', 'n']
    } else if n == 0x0C {
        seq!['\\', 'f']
    } else if n == 0x0D {
        seq!['\\', 'r']
    } else if n < 0x20 {
        seq!['\\', 'u', '0', '0', hex_digit(n / 16), hex_digit(n % 16)]
    } else {
        seq![c]
    }
}

/// The characters of a text as they stand inside a JSON string.
pub open spec fn json_chars(s: Seq<char>) -> Seq<char>
    decreases s.len(),
{
    if s.len() == 0 {
        Seq::empty()
    } else {
        json_chars(s.drop_last()) + json_char(s.last())
    }
}

/// A text as a JSON string: between quotation marks, escaped.
pub open spec fn json_quoted(s: Seq<char>) -> Seq<char> {
    seq!['"'] + json_chars(s) + seq!['"']
}

/// `serde_json::to_string` for a text: the text as a JSON string. For a
/// text the serializer cannot fail.
#[verifier::external_body]
pub(crate) fn json_string(s: &str) -> (json: String)
    ensures
        json@ == json_quoted(s@),
{
    serde_json::to_string(s).unwrap_or_default()
}

/// The script that hands the event `event` with the payload `data` to
/// the frontend, if the frontend has installed its receiver.
pub open spec fn script_of(event: Seq<char>, data: Seq<char>) -> Seq<char> {
    "if(window.onRustMessage){window.onRustMessage("@ + json_quoted(event) + ","@ + data + ")};"@
}

/// The payload that stands for data that could not be serialized.
pub open spec fn payload_or_null(data_json: Option<Seq<char>>) -> Seq<char> {
    match data_json {
        Some(json) => json,
        None => "null"@,
    }
}

/// Builds the script that hands an event to the frontend. `data_json` is
/// the event's payload as JSON, or none if it could not be serialized,
/// in which case the frontend receives `null`.
pub fn js_call(event: &str, data_json: Option<&str>) -> (script: String)
    ensures
        script@ == script_of(
            event@,
            payload_or_null(
                match data_json {
                    Some(json) => Some(json@),
                    None => None,
                },
            ),
        ),
{
    let mut script = String::from_str("if(window.onRustMessage){window.onRustMessage(");
    let name = json_string(event);
    script.append(name.as_str());
    script.append(",");
    match data_json {
        Some(json) => {
            script.append(json);
        },
        None => {
            script.append("null");
        },
    }
    script.append(")};");
    script
}

/// The event for the thread that owns the window: the script of
/// [`js_call`].
pub fn eval_script(event: &UiEvent, data_json: Option<&str>) -> (app_event: AppEvent)
    ensures
        app_event@ == AppEventView::EvalScript(
            script_of(
                name_of(event@),
                payload_or_null(
                    match data_json {
                        Some(json) => Some(json@),
                        None => None,
                    },
                ),
            ),
        ),
{
    AppEvent::EvalScript(js_call(event_name(event), data_json))
}

/// The text of the error event for a command that could not be decoded.
pub fn invalid_command(detail: &str) -> (event: UiEvent)
    ensures
        event@ == UiEventView::Error("Invalid command: "@ + detail@),
{
    let mut text = String::from_str("Invalid command: ");
    text.append(detail);
    UiEvent::Error(text)
}

} // verus!
