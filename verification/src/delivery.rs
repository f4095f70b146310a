//! Delivery of one frame to one peer, with a single retry: the decisions
//! between the connects and the writes that the transport performs.

use vstd::prelude::*;
use vstd::string::*;
use crate::state::{peer_views, ConnectionHandle, PeerInfoView, SharedState};

verus! {

/// Why a frame was not delivered.
#[derive(Clone, Copy, PartialEq, Eq, Debug, Structural)]
pub enum SendError {
    /// No connection is open to the peer and no record tells where it is.
    UnknownPeer,
    /// The peer is known but no connection could be opened to it.
    ConnectFailed,
    /// The connect succeeded, but no connection is registered under the
    /// id that was asked for: the peer behind it named another id.
    NotConnected,
    /// The write failed on the connection that was there and on the one
    /// that replaced it.
    WriteFailed,
}

/// The first try, or the one retry.
#[derive(Clone, Copy, PartialEq, Eq, Debug, Structural)]
pub enum Attempt {
    First,
    Second,
}

/// What the transport is to do next for a delivery.
#[derive(Debug)]
pub enum SendStep {
    /// Open a connection to this address and shake hands, then report
    /// whether that succeeded.
    Connect { ip: String, tcp_port: u16, attempt: Attempt },
    /// Write the frame and a line feed through this handle and flush,
    /// then report whether that succeeded.
    Write { handle: ConnectionHandle, attempt: Attempt },
    /// The delivery is over, with this outcome.
    Finish(Result<(), SendError>),
}

/// The mathematical value of a [`SendStep`].
pub enum SendStepView {
    Connect { ip: Seq<char>, tcp_port: u16, attempt: Attempt },
    Write { handle: ConnectionHandle, attempt: Attempt },
    Finish(Result<(), SendError>),
}

impl View for SendStep {
    type V = SendStepView;

    open spec fn view(&self) -> SendStepView {
        match *self {
            SendStep::Connect { ip, tcp_port, attempt } => SendStepView::Connect {
                ip: ip@,
                tcp_port,
                attempt,
            },
            SendStep::Write { handle, attempt } => SendStepView::Write { handle, attempt },
            SendStep::Finish(outcome) => SendStepView::Finish(outcome),
        }
    }
}

/// Making sure of a connection: write through the one that is open to
/// `target`; else connect to where its record says it is; else give up,
/// the peer being unknown.
pub open spec fn ensure_connected(
    peers: Map<Seq<char>, PeerInfoView>,
    connections: Map<Seq<char>, ConnectionHandle>,
    target: Seq<char>,
    attempt: Attempt,
) -> SendStepView {
    if connections.contains_key(target) {
        SendStepView::Write { handle: connections[target], attempt }
    } else if peers.contains_key(target) {
        SendStepView::Connect { ip: peers[target].ip, tcp_port: peers[target].tcp_port, attempt }
    } else {
        SendStepView::Finish(Err(SendError::UnknownPeer))
    }
}

/// The step after a connect attempt: a handshake that succeeded has
/// registered the connection, through which the frame is written.
pub open spec fn step_after_connect(
    connections: Map<Seq<char>, ConnectionHandle>,
    target: Seq<char>,
    attempt: Attempt,
    connected: bool,
) -> SendStepView {
    if !connected {
        SendStepView::Finish(Err(SendError::ConnectFailed))
    } else if connections.contains_key(target) {
        SendStepView::Write { handle: connections[target], attempt }
    } else {
        SendStepView::Finish(Err(SendError::NotConnected))
    }
}

/// The step after a write: done if it succeeded; after the first failure
/// one more round, on a fresh connection; after the second none.
pub open spec fn step_after_write(
    peers: Map<Seq<char>, PeerInfoView>,
    connections: Map<Seq<char>, ConnectionHandle>,
    target: Seq<char>,
    attempt: Attempt,
    written: bool,
) -> SendStepView {
    if written {
        SendStepView::Finish(Ok(()))
    } else if attempt == Attempt::First {
        ensure_connected(peers, connections.remove(target), target, Attempt::Second)
    } else {
        SendStepView::Finish(Err(SendError::WriteFailed))
    }
}

/// The connection table after a write: a handle whose write failed is
/// evicted, whichever connection it is.
pub open spec fn connections_after_write(
    connections: Map<Seq<char>, ConnectionHandle>,
    target: Seq<char>,
    written: bool,
) -> Map<Seq<char>, ConnectionHandle> {
    if written {
        connections
    } else {
        connections.remove(target)
    }
}

/// The step that makes sure of a connection to `target`.
fn connect_or_write(state: &SharedState, target: &str, attempt: Attempt) -> (step: SendStep)
    requires
        state.wf(),
    ensures
        step@ == ensure_connected(peer_views(state.peers), state.connections@, target@, attempt),
{
    match state.connection(target) {
        Some(handle) => SendStep::Write { handle, attempt },
        None => match state.peers.get(target) {
            Some(info) => SendStep::Connect { ip: info.ip.clone(), tcp_port: info.tcp_port, attempt },
            None => SendStep::Finish(Err(SendError::UnknownPeer)),
        },
    }
}

/// Starts the delivery of a frame to `peer_id`: the write through the
/// connection that is open to it; else the connect to where its record
/// says it is; else the failure, the peer being unknown. Neither table
/// changes.
pub fn send_to_peer(peer_id: &str, state: &SharedState) -> (step: SendStep)
    requires
        state.wf(),
    ensures
        step@ == ensure_connected(
            peer_views(state.peers),
            state.connections@,
            peer_id@,
            Attempt::First,
        ),
{
    connect_or_write(state, peer_id, Attempt::First)
}

/// Goes on after the transport tried to connect.
pub fn after_connect(state: &SharedState, target: &str, attempt: Attempt, connected: bool) -> (step:
    SendStep)
    requires
        state.wf(),
    ensures
        step@ == step_after_connect(state.connections@, target@, attempt, connected),
{
    if !connected {
        SendStep::Finish(Err(SendError::ConnectFailed))
    } else {
        match state.connection(target) {
            Some(handle) => SendStep::Write { handle, attempt },
            None => SendStep::Finish(Err(SendError::NotConnected)),
        }
    }
}

/// Goes on after the transport tried to write, and evicts the handle if
/// the write failed.
pub fn after_write(state: &mut SharedState, target: &str, attempt: Attempt, written: bool) -> (step:
    SendStep)
    requires
        old(state).wf(),
    ensures
        final(state).wf(),
        final(state).peers == old(state).peers,
        final(state).connections@ == connections_after_write(
            old(state).connections@,
            target@,
            written,
        ),
        step@ == step_after_write(
            peer_views(old(state).peers),
            old(state).connections@,
            target@,
            attempt,
            written,
        ),
{
    if written {
        SendStep::Finish(Ok(()))
    } else {
        state.evict(target);
        match attempt {
            Attempt::First => connect_or_write(state, target, Attempt::Second),
            Attempt::Second => SendStep::Finish(Err(SendError::WriteFailed)),
        }
    }
}

/// The text of `e` for the user.
pub open spec fn error_text(e: SendError) -> Seq<char> {
    match e {
        SendError::UnknownPeer => "Peer not known"@,
        SendError::ConnectFailed => "Could not connect to peer"@,
        SendError::NotConnected => "Not connected to peer"@,
        SendError::WriteFailed => "Write to peer failed"@,
    }
}

impl SendError {
    /// The text of the error for the user.
    pub fn message(&self) -> (text: String)
        ensures
            text@ == error_text(*self),
    {
        match self {
            SendError::UnknownPeer => String::from_str("Peer not known"),
            SendError::ConnectFailed => String::from_str("Could not connect to peer"),
            SendError::NotConnected => String::from_str("Not connected to peer"),
            SendError::WriteFailed => String::from_str("Write to peer failed"),
        }
    }
}

/// If the first write fails on a dead connection and the peer is still
/// known, the delivery connects anew; if that connect succeeds and the
/// second write does, the delivery ends well, having asked for exactly
/// one write that succeeded, and asks for nothing after it.
pub proof fn lemma_retry_after_dead_socket(
    peers: Map<Seq<char>, PeerInfoView>,
    connections: Map<Seq<char>, ConnectionHandle>,
    target: Seq<char>,
    fresh: ConnectionHandle,
)
    requires
        peers.contains_key(target),
        connections.contains_key(target),
    ensures
        ({
            let first = ensure_connected(peers, connections, target, Attempt::First);
            let retry = step_after_write(peers, connections, target, Attempt::First, false);
            let evicted = connections_after_write(connections, target, false);
            let registered = evicted.insert(target, fresh);
            let second = step_after_connect(registered, target, Attempt::Second, true);
            let end = step_after_write(peers, registered, target, Attempt::Second, true);
            &&& first == (SendStepView::Write { handle: connections[target], attempt: Attempt::First })
            &&& !evicted.contains_key(target)
            &&& retry == (SendStepView::Connect {
                ip: peers[target].ip,
                tcp_port: peers[target].tcp_port,
                attempt: Attempt::Second,
            })
            &&& second == (SendStepView::Write { handle: fresh, attempt: Attempt::Second })
            &&& end == SendStepView::Finish(Ok(()))
        }),
{
}

/// A delivery never writes a third time and never goes on after a write
/// that succeeded: whatever the tables hold, a write that succeeded ends
/// the delivery well, a second write that failed ends it with an error,
/// a first write that failed leads to a step of the second attempt or to
/// an error, and a connect leads to a write of the same attempt or to an
/// error.
pub proof fn lemma_at_most_two_writes(
    peers: Map<Seq<char>, PeerInfoView>,
    connections: Map<Seq<char>, ConnectionHandle>,
    target: Seq<char>,
    attempt: Attempt,
    ok: bool,
)
    ensures
        step_after_write(peers, connections, target, attempt, true) == SendStepView::Finish(Ok(())),
        step_after_write(peers, connections, target, Attempt::Second, false)
            == SendStepView::Finish(Err(SendError::WriteFailed)),
        ({
            let retry = step_after_write(peers, connections, target, Attempt::First, false);
            match retry {
                SendStepView::Connect { attempt, .. } => attempt == Attempt::Second,
                SendStepView::Write { .. } => false,
                SendStepView::Finish(outcome) => outcome == Err::<(), SendError>(
                    SendError::UnknownPeer,
                ),
            }
        }),
        ({
            let next = step_after_connect(connections, target, attempt, ok);
            match next {
                SendStepView::Connect { .. } => false,
                SendStepView::Write { attempt: a, .. } => a == attempt && ok,
                SendStepView::Finish(outcome) => outcome is Err,
            }
        }),
{
}

/// The step that follows `step` once the transport reports `ok`, with
/// the tables as they are then. A delivery that is over stays over.
pub open spec fn advance(
    step: SendStepView,
    peers: Map<Seq<char>, PeerInfoView>,
    connections: Map<Seq<char>, ConnectionHandle>,
    target: Seq<char>,
    ok: bool,
) -> SendStepView {
    match step {
        SendStepView::Connect { attempt, .. } => step_after_connect(connections, target, attempt, ok),
        SendStepView::Write { attempt, .. } => step_after_write(
            peers,
            connections,
            target,
            attempt,
            ok,
        ),
        SendStepView::Finish(_) => step,
    }
}

/// One if the step is a write, else none.
pub open spec fn writes_in(step: SendStepView) -> nat {
    if step is Write {
        1
    } else {
        0
    }
}

/// Every delivery is over after four reports at most, and asks for two
/// writes at most: whatever the transport reports and however the tables
/// change between the steps, the steps are a connect and a write of the
/// first attempt and a connect and a write of the second, or a part of
/// that. It ends well exactly if its last write succeeded.
pub proof fn lemma_delivery_is_short(
    target: Seq<char>,
    peers: Seq<Map<Seq<char>, PeerInfoView>>,
    connections: Seq<Map<Seq<char>, ConnectionHandle>>,
    ok: Seq<bool>,
)
    requires
        peers.len() == 5,
        connections.len() == 5,
        ok.len() == 5,
    ensures
        ({
            let begun = ensure_connected(peers[0], connections[0], target, Attempt::First);
            let second = advance(begun, peers[1], connections[1], target, ok[1]);
            let third = advance(second, peers[2], connections[2], target, ok[2]);
            let fourth = advance(third, peers[3], connections[3], target, ok[3]);
            let fifth = advance(fourth, peers[4], connections[4], target, ok[4]);
            &&& fifth is Finish
            &&& writes_in(begun) + writes_in(second) + writes_in(third) + writes_in(fourth) <= 2
            &&& (begun is Write && ok[1] ==> second == SendStepView::Finish(Ok(())))
            &&& (second is Write && ok[2] ==> third == SendStepView::Finish(Ok(())))
            &&& (third is Write && ok[3] ==> fourth == SendStepView::Finish(Ok(())))
            &&& (fourth is Write && ok[4] ==> fifth == SendStepView::Finish(Ok(())))
            &&& (fifth == SendStepView::Finish(Ok(())) ==> (begun is Write && ok[1]) || (second is Write
                && ok[2]) || (third is Write && ok[3]) || (fourth is Write && ok[4]))
        }),
{
}

/// A frame for a peer that is neither connected nor known is not
/// delivered: the delivery ends at once, the peer being unknown.
pub proof fn lemma_unknown_peer(
    peers: Map<Seq<char>, PeerInfoView>,
    connections: Map<Seq<char>, ConnectionHandle>,
    target: Seq<char>,
)
    requires
        !peers.contains_key(target),
        !connections.contains_key(target),
    ensures
        ensure_connected(peers, connections, target, Attempt::First) == SendStepView::Finish(
            Err(SendError::UnknownPeer),
        ),
{
}

} // verus!
