//! The state that the discovery tasks, the connection handlers and the
//! dispatcher share: the table of live peers and the table of open
//! connections.

use vstd::prelude::*;
use vstd::string::*;
use crate::table::Table;

verus! {

/// What is known of a peer that announced itself. `last_seen` is the
/// reading, in milliseconds, of a clock that never runs backwards, taken
/// when the latest announcement arrived.
#[derive(Debug)]
pub struct PeerInfo {
    pub peer_id: String,
    pub username: String,
    pub ip: String,
    pub tcp_port: u16,
    pub last_seen: u64,
}

/// The mathematical value of a [`PeerInfo`].
pub struct PeerInfoView {
    pub peer_id: Seq<char>,
    pub username: Seq<char>,
    pub ip: Seq<char>,
    pub tcp_port: u16,
    pub last_seen: u64,
}

impl View for PeerInfo {
    type V = PeerInfoView;

    open spec fn view(&self) -> PeerInfoView {
        PeerInfoView {
            peer_id: self.peer_id@,
            username: self.username@,
            ip: self.ip@,
            tcp_port: self.tcp_port,
            last_seen: self.last_seen,
        }
    }
}

impl Clone for PeerInfo {
    fn clone(&self) -> (res: PeerInfo)
        ensures
            res@ == self@,
    {
        PeerInfo {
            peer_id: self.peer_id.clone(),
            username: self.username.clone(),
            ip: self.ip.clone(),
            tcp_port: self.tcp_port,
            last_seen: self.last_seen,
        }
    }
}

/// The peer table as a map from peer id to the value of its record.
pub open spec fn peer_views(t: Table<PeerInfo>) -> Map<Seq<char>, PeerInfoView> {
    t@.map_values(|p: PeerInfo| p@)
}

/// The time that has passed at `now` since `last_seen`; none if the clock
/// reading is older than the record.
pub open spec fn elapsed_ms(last_seen: u64, now: u64) -> int {
    if now >= last_seen {
        now - last_seen
    } else {
        0
    }
}

/// A record is fresh while less than `timeout` milliseconds have passed
/// since its peer was last heard of.
pub open spec fn is_fresh(last_seen: u64, now: u64, timeout: u64) -> bool {
    elapsed_ms(last_seen, now) < timeout
}

/// Whether the record `p` is fresh at `now`.
pub fn fresh(p: &PeerInfo, now: u64, timeout: u64) -> (b: bool)
    ensures
        b == is_fresh(p.last_seen, now, timeout),
{
    if now >= p.last_seen {
        now - p.last_seen < timeout
    } else {
        0 < timeout
    }
}

/// A connection is known to the engine by the number that the transport
/// gave its write side; two handles are the same connection exactly when
/// their numbers are equal.
pub type ConnectionHandle = u64;

/// The peer table and the connection table.
pub struct SharedState {
    pub peers: Table<PeerInfo>,
    pub connections: Table<ConnectionHandle>,
}

impl SharedState {
    /// Both tables hold at most one entry per peer id, and every peer
    /// record is filed under its own id.
    pub open spec fn wf(&self) -> bool {
        &&& self.peers.wf()
        &&& self.connections.wf()
        &&& forall|k: Seq<char>| #[trigger]
            self.peers@.contains_key(k) ==> self.peers@[k].peer_id@ == k
    }

    /// A state without peers and without connections.
    pub fn new() -> (s: SharedState)
        ensures
            s.wf(),
            s.peers@ == Map::<Seq<char>, PeerInfo>::empty(),
            s.connections@ == Map::<Seq<char>, ConnectionHandle>::empty(),
    {
        SharedState { peers: Table::new(), connections: Table::new() }
    }

    /// A peer can be reached when it has a fresh record in the peer table
    /// or an open connection.
    pub open spec fn reachable(&self, peer_id: Seq<char>, now: u64, timeout: u64) -> bool {
        ||| (self.peers@.contains_key(peer_id) && is_fresh(
            self.peers@[peer_id].last_seen,
            now,
            timeout,
        ))
        ||| self.connections@.contains_key(peer_id)
    }

    /// Whether `peer_id` can be reached at time `now`, a record being
    /// fresh for `timeout` milliseconds.
    pub fn is_reachable(&self, peer_id: &str, now: u64, timeout: u64) -> (b: bool)
        requires
            self.wf(),
        ensures
            b == self.reachable(peer_id@, now, timeout),
    {
        let known = match self.peers.get(peer_id) {
            Some(p) => fresh(p, now, timeout),
            None => false,
        };
        known || self.connections.contains_key(peer_id)
    }

    /// Files the connection `handle` under `peer_id` after a completed
    /// handshake. An entry that was there is replaced, and its handle is
    /// returned: the freshest handshake wins.
    pub fn register(&mut self, peer_id: &str, handle: ConnectionHandle) -> (superseded: Option<
        ConnectionHandle,
    >)
        requires
            old(self).wf(),
        ensures
            final(self).wf(),
            final(self).peers == old(self).peers,
            final(self).connections@ == old(self).connections@.insert(peer_id@, handle),
            superseded == (if old(self).connections@.contains_key(peer_id@) {
                Some(old(self).connections@[peer_id@])
            } else {
                None
            }),
    {
        self.connections.insert(String::from_str(peer_id), handle)
    }

    /// Removes the entry of `peer_id` when its reader has ended, but only
    /// if the entry still is the connection `handle`: an entry that a newer
    /// handshake put there stays. Says whether the entry was removed.
    pub fn release(&mut self, peer_id: &str, handle: ConnectionHandle) -> (removed: bool)
        requires
            old(self).wf(),
        ensures
            final(self).wf(),
            final(self).peers == old(self).peers,
            removed == (old(self).connections@.contains_key(peer_id@) && old(
                self,
            ).connections@[peer_id@] == handle),
            final(self).connections@ == (if removed {
                old(self).connections@.remove(peer_id@)
            } else {
                old(self).connections@
            }),
    {
        let current = match self.connections.get(peer_id) {
            Some(h) => *h == handle,
            None => false,
        };
        if current {
            self.connections.remove(peer_id);
        }
        current
    }

    /// Removes the entry of `peer_id` whatever connection it holds: a
    /// writer that saw its write fail knows that the handle is dead.
    pub fn evict(&mut self, peer_id: &str)
        requires
            old(self).wf(),
        ensures
            final(self).wf(),
            final(self).peers == old(self).peers,
            final(self).connections@ == old(self).connections@.remove(peer_id@),
    {
        self.connections.remove(peer_id);
    }

    /// The connection that is open to `peer_id`.
    pub fn connection(&self, peer_id: &str) -> (h: Option<ConnectionHandle>)
        requires
            self.wf(),
        ensures
            h == (if self.connections@.contains_key(peer_id@) {
                Some(self.connections@[peer_id@])
            } else {
                None
            }),
    {
        match self.connections.get(peer_id) {
            Some(h) => Some(*h),
            None => None,
        }
    }
}

/// The connection table never holds two entries for one peer, whatever
/// was registered, released or evicted before: its keys are pairwise
/// different, and there are as many of them as the map has entries.
pub proof fn lemma_one_connection_per_peer(s: SharedState)
    requires
        s.wf(),
    ensures
        s.connections.key_seq().no_duplicates(),
        s.connections@.dom().finite(),
        s.connections.key_seq().len() == s.connections@.dom().len(),
        forall|k: Seq<char>|
            s.connections.key_seq().contains(k) <==> #[trigger] s.connections@.contains_key(k),
{
    s.connections.lemma_entries();
    let ks = s.connections.key_seq();
    ks.unique_seq_to_set();
    assert(ks.to_set() =~= s.connections@.dom());
}

/// Registering twice under one peer id leaves one entry, which holds the
/// handle that came last.
pub proof fn lemma_freshest_wins(
    m: Map<Seq<char>, ConnectionHandle>,
    peer_id: Seq<char>,
    first: ConnectionHandle,
    second: ConnectionHandle,
)
    ensures
        m.insert(peer_id, first).insert(peer_id, second) == m.insert(peer_id, second),
        m.insert(peer_id, first).insert(peer_id, second)[peer_id] == second,
{
    assert(m.insert(peer_id, first).insert(peer_id, second) =~= m.insert(peer_id, second));
}

} // verus!
