//! The terminal chat room: one host relays the lines of its clients.
//! Here are its line protocol and the decisions of the relay, of the
//! input loop and of the display.

use vstd::prelude::*;
use vstd::string::*;
use crate::protocol::{payload_of_line, trim_of};

verus! {

/// One line of the chat room's protocol.
#[derive(Debug)]
pub struct Msg {
    pub kind: String,
    pub user: String,
    pub content: String,
}

/// The mathematical value of a [`Msg`].
pub struct MsgView {
    pub kind: Seq<char>,
    pub user: Seq<char>,
    pub content: Seq<char>,
}

impl View for Msg {
    type V = MsgView;

    open spec fn view(&self) -> MsgView {
        MsgView { kind: self.kind@, user: self.user@, content: self.content@ }
    }
}

impl Clone for Msg {
    fn clone(&self) -> (res: Msg)
        ensures
            res@ == self@,
    {
        Msg { kind: self.kind.clone(), user: self.user.clone(), content: self.content.clone() }
    }
}

impl Msg {
    /// The announcement that `user` entered the room.
    pub fn join(user: &str) -> (m: Msg)
        ensures
            m@ == (MsgView { kind: "join"@, user: user@, content: Seq::empty() }),
    {
        Msg { kind: String::from_str("join"), user: String::from_str(user), content: String::new() }
    }

    /// The announcement that `user` left the room.
    pub fn leave(user: &str) -> (m: Msg)
        ensures
            m@ == (MsgView { kind: "leave"@, user: user@, content: Seq::empty() }),
    {
        Msg {
            kind: String::from_str("leave"),
            user: String::from_str(user),
            content: String::new(),
        }
    }

    /// What `user` said.
    pub fn chat(user: &str, text: &str) -> (m: Msg)
        ensures
            m@ == (MsgView { kind: "msg"@, user: user@, content: text@ }),
    {
        Msg {
            kind: String::from_str("msg"),
            user: String::from_str(user),
            content: String::from_str(text),
        }
    }
}

/// A colour of the terminal, by its red, green and blue parts.
#[derive(Clone, Copy, PartialEq, Eq, Debug, Structural)]
pub struct Rgb {
    pub r: u8,
    pub g: u8,
    pub b: u8,
}

/// The eight colours among which the users' names are spread.
pub open spec fn palette() -> Seq<Rgb> {
    seq![
        Rgb { r: 255, g: 107, b: 107 },
        Rgb { r: 78, g: 205, b: 196 },
        Rgb { r: 255, g: 217, b: 61 },
        Rgb { r: 107, g: 137, b: 255 },
        Rgb { r: 255, g: 107, b: 255 },
        Rgb { r: 0, g: 255, b: 136 },
        Rgb { r: 255, g: 159, b: 67 },
        Rgb { r: 162, g: 155, b: 254 },
    ]
}

/// The sum of the bytes of a text.
pub open spec fn byte_sum(bytes: Seq<u8>) -> nat
    decreases bytes.len(),
{
    if bytes.len() == 0 {
        0
    } else {
        byte_sum(bytes.drop_last()) + bytes.last() as nat
    }
}

/// The colour at position `i` of the palette.
fn palette_at(i: usize) -> (c: Rgb)
    requires
        i < 8,
    ensures
        c == palette()[i as int],
{
    if i == 0 {
        Rgb { r: 255, g: 107, b: 107 }
    } else if i == 1 {
        Rgb { r: 78, g: 205, b: 196 }
    } else if i == 2 {
        Rgb { r: 255, g: 217, b: 61 }
    } else if i == 3 {
        Rgb { r: 107, g: 137, b: 255 }
    } else if i == 4 {
        Rgb { r: 255, g: 107, b: 255 }
    } else if i == 5 {
        Rgb { r: 0, g: 255, b: 136 }
    } else if i == 6 {
        Rgb { r: 255, g: 159, b: 67 }
    } else {
        Rgb { r: 162, g: 155, b: 254 }
    }
}

/// The colour in which the name of a user is shown: the sum of the
/// name's bytes picks one of the palette's colours, so a name keeps its
/// colour.
pub fn user_color(name: &str) -> (c: Rgb)
    ensures
        c == palette()[(byte_sum(name.spec_bytes()) % 8) as int],
{
    let bytes = name.as_bytes();
    let mut h: usize = 0;
    let mut i: usize = 0;
    assert(bytes@.subrange(0, 0) =~= Seq::<u8>::empty());
    while i < bytes.len()
        invariant
            i <= bytes.len(),
            h < 8,
            h == byte_sum(bytes@.subrange(0, i as int)) % 8,
        decreases bytes.len() - i,
    {
        let b: usize = bytes[i] as usize;
        proof {
            let before = bytes@.subrange(0, i as int);
            let now = bytes@.subrange(0, i + 1);
            assert(now.drop_last() =~= before);
            assert(now.last() == bytes@[i as int]);
            let s = byte_sum(before);
            assert((s % 8 + b) % 8 == (s + b) % 8) by (nonlinear_arith)
                requires
                    s >= 0,
                    b >= 0,
            ;
        }
        h = (h + b) % 8;
        i += 1;
    }
    assert(bytes@.subrange(0, bytes.len() as int) =~= bytes@);
    palette_at(h)
}

/// How a line of the protocol is shown.
#[derive(Clone, Copy, PartialEq, Eq, Debug, Structural)]
pub enum Shown {
    /// Somebody entered the room.
    Joined,
    /// Somebody left the room.
    Left,
    /// Somebody said something.
    Said,
    /// A line of a kind that is not known is not shown.
    Nothing,
}

/// How a line of kind `kind` is shown.
pub open spec fn shown_as(kind: Seq<char>) -> Shown {
    if kind == "join"@ {
        Shown::Joined
    } else if kind == "leave"@ {
        Shown::Left
    } else if kind == "msg"@ {
        Shown::Said
    } else {
        Shown::Nothing
    }
}

/// Decides how `msg` is shown.
pub fn display(msg: &Msg) -> (shown: Shown)
    ensures
        shown == shown_as(msg.kind@),
{
    if msg.kind == String::from_str("join") {
        Shown::Joined
    } else if msg.kind == String::from_str("leave") {
        Shown::Left
    } else if msg.kind == String::from_str("msg") {
        Shown::Said
    } else {
        Shown::Nothing
    }
}

/// What a line that the user typed asks for.
#[derive(Debug)]
pub enum Input {
    /// A blank line: nothing but a new prompt.
    Blank,
    /// Leave the room.
    Quit,
    /// Say the text.
    Say(String),
}

/// The mathematical value of an [`Input`].
pub enum InputView {
    Blank,
    Quit,
    Say(Seq<char>),
}

impl View for Input {
    type V = InputView;

    open spec fn view(&self) -> InputView {
        match *self {
            Input::Blank => InputView::Blank,
            Input::Quit => InputView::Quit,
            Input::Say(text) => InputView::Say(text@),
        }
    }
}

/// What the typed line `line` asks for: without the white space around
/// it, nothing if it is empty, to leave if it is `/sair` or `/quit`, and
/// else to say it.
pub open spec fn input_of(line: Seq<char>) -> InputView {
    let text = trim_of(line);
    if text.len() == 0 {
        InputView::Blank
    } else if text == "/sair"@ || text == "/quit"@ {
        InputView::Quit
    } else {
        InputView::Say(text)
    }
}

/// Reads a line that the user typed.
pub fn read_input(line: &str) -> (input: Input)
    ensures
        input@ == input_of(line@),
{
    match payload_of_line(line) {
        None => Input::Blank,
        Some(text) => {
            if text == String::from_str("/sair") || text == String::from_str("/quit") {
                Input::Quit
            } else {
                Input::Say(text)
            }
        },
    }
}

/// The part that the program plays.
#[derive(Clone, Copy, PartialEq, Eq, Debug, Structural)]
pub enum Mode {
    /// Open a room and relay.
    Host,
    /// Enter the room of a host.
    Guest,
    /// No such option.
    Invalid,
}

/// The part that the answer `choice` picks: `1` the host, `2` a guest.
pub open spec fn mode_of(choice: Seq<char>) -> Mode {
    if choice == "1"@ {
        Mode::Host
    } else if choice == "2"@ {
        Mode::Guest
    } else {
        Mode::Invalid
    }
}

/// Reads the user's choice of a part.
pub fn read_mode(choice: &str) -> (mode: Mode)
    ensures
        mode == mode_of(choice@),
{
    let choice = String::from_str(choice);
    if choice == String::from_str("1") {
        Mode::Host
    } else if choice == String::from_str("2") {
        Mode::Guest
    } else {
        Mode::Invalid
    }
}

/// The tag under which the host's own lines are relayed.
pub open spec fn host_tag() -> Seq<char> {
    "HOST"@
}

/// Whether a relayed line goes to the receiver with tag `receiver`: every
/// line but its own.
pub fn forwards_to(sender: &str, receiver: &str) -> (forward: bool)
    ensures
        forward == (sender@ != receiver@),
{
    !(String::from_str(sender) == String::from_str(receiver))
}

/// Whether the host shows a relayed line: every line but its own.
pub fn host_shows(sender: &str) -> (show: bool)
    ensures
        show == (sender@ != host_tag()),
{
    forwards_to(sender, "HOST")
}

/// What the relay remembers of one client: the name under which it
/// entered, empty until it did.
#[derive(Debug)]
pub struct Relay {
    pub username: String,
}

/// The name that the relay remembers after a line from its client: that
/// of the latest line that announced an entry.
pub open spec fn name_after(name: Seq<char>, line: Option<MsgView>) -> Seq<char> {
    match line {
        Some(m) => if m.kind == "join"@ {
            m.user
        } else {
            name
        },
        None => name,
    }
}

/// The announcement that the relay makes for a client that went away: of
/// its leaving, if it had entered under a name.
pub open spec fn farewell(name: Seq<char>) -> Option<MsgView> {
    if name.len() == 0 {
        None
    } else {
        Some(MsgView { kind: "leave"@, user: name, content: Seq::empty() })
    }
}

impl Relay {
    /// The relay of a client that has not entered yet.
    pub fn new() -> (r: Relay)
        ensures
            r.username@ == Seq::<char>::empty(),
    {
        Relay { username: String::new() }
    }

    /// Takes note of a line from the client: `decoded` is the line as a
    /// message, if it is one. The line itself is relayed to all as it
    /// came.
    pub fn relay(&mut self, decoded: Option<&Msg>)
        ensures
            final(self).username@ == name_after(
                old(self).username@,
                match decoded {
                    Some(m) => Some(m@),
                    None => None,
                },
            ),
    {
        match decoded {
            Some(m) => {
                if m.kind == String::from_str("join") {
                    self.username = m.user.clone();
                }
            },
            None => {},
        }
    }

    /// What is announced to the room when the client's connection ends.
    pub fn disconnect(&self) -> (announce: Option<Msg>)
        ensures
            match announce {
                Some(m) => farewell(self.username@) == Some(m@),
                None => farewell(self.username@) is None,
            },
    {
        if self.username.as_str().unicode_len() == 0 {
            None
        } else {
            Some(Msg::leave(self.username.as_str()))
        }
    }
}

} // verus!
