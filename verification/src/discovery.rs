//! Presence: what the announcer sends, what the listener does with a
//! packet that arrived, and what the reaper evicts.

use vstd::prelude::*;
use vstd::string::*;
use crate::db::{upsert_peer_statement, Database};
use crate::protocol::{UdpPacket, UdpPacketView};
use crate::state::{fresh, is_fresh, peer_views, PeerInfo, PeerInfoView, SharedState};
use crate::table::Table;

verus! {

/// The UDP port on which peers announce themselves and listen.
pub const DISCOVERY_PORT: u16 = 5555;

/// Milliseconds between two announcements.
pub const ANNOUNCE_INTERVAL_MS: u64 = 3000;

/// Milliseconds after which a peer that was not heard of is evicted.
pub const PEER_TIMEOUT_MS: u64 = 10000;

/// Milliseconds between two runs of the reaper.
pub const REAPER_INTERVAL_MS: u64 = 5000;

/// The largest packet, in bytes, that the listener takes.
pub const MAX_PACKET_BYTES: usize = 2048;

/// The packet by which a peer makes itself known.
pub fn announce_packet(peer_id: &str, username: &str, tcp_port: u16) -> (pkt: UdpPacket)
    ensures
        pkt@ == (UdpPacketView::Announce { peer_id: peer_id@, username: username@, tcp_port }),
{
    UdpPacket::Announce {
        peer_id: String::from_str(peer_id),
        username: String::from_str(username),
        tcp_port,
    }
}

/// The packet by which a peer takes its leave.
pub fn goodbye_packet(peer_id: &str) -> (pkt: UdpPacket)
    ensures
        pkt@ == (UdpPacketView::Goodbye { peer_id: peer_id@ }),
{
    UdpPacket::Goodbye { peer_id: String::from_str(peer_id) }
}

/// The peer table after the packet `pkt` arrived from `source_ip` at time
/// `now`, at the peer whose own id is `my_id`. An announcement of another
/// peer puts or refreshes its record, with the address that the datagram
/// came from; one's own announcement changes nothing; a goodbye removes
/// the record.
pub open spec fn after_packet(
    peers: Map<Seq<char>, PeerInfoView>,
    my_id: Seq<char>,
    pkt: UdpPacketView,
    source_ip: Seq<char>,
    now: u64,
) -> Map<Seq<char>, PeerInfoView> {
    match pkt {
        UdpPacketView::Announce { peer_id, username, tcp_port } => {
            if peer_id == my_id {
                peers
            } else {
                peers.insert(
                    peer_id,
                    PeerInfoView { peer_id, username, ip: source_ip, tcp_port, last_seen: now },
                )
            }
        },
        UdpPacketView::Goodbye { peer_id } => peers.remove(peer_id),
    }
}

/// Whether the frontend is sent the peer list after `pkt`: after every
/// packet but one's own announcement.
pub open spec fn packet_notifies(my_id: Seq<char>, pkt: UdpPacketView) -> bool {
    match pkt {
        UdpPacketView::Announce { peer_id, .. } => peer_id != my_id,
        UdpPacketView::Goodbye { .. } => true,
    }
}

/// The listener's reaction to one well-formed packet. Returns whether the
/// peer list is to be sent to the frontend.
pub fn handle_packet(
    state: &mut SharedState,
    my_id: &str,
    pkt: UdpPacket,
    source_ip: &str,
    now: u64,
) -> (notify: bool)
    requires
        old(state).wf(),
    ensures
        final(state).wf(),
        final(state).connections == old(state).connections,
        peer_views(final(state).peers) == after_packet(
            peer_views(old(state).peers),
            my_id@,
            pkt@,
            source_ip@,
            now,
        ),
        notify == packet_notifies(my_id@, pkt@),
{
    let ghost before = peer_views(state.peers);
    let ghost before_table = state.peers;
    match pkt {
        UdpPacket::Announce { peer_id, username, tcp_port } => {
            let me = String::from_str(my_id);
            if peer_id == me {
                false
            } else {
                let key = peer_id.clone();
                let info = PeerInfo {
                    peer_id,
                    username,
                    ip: String::from_str(source_ip),
                    tcp_port,
                    last_seen: now,
                };
                state.peers.insert(key, info);
                proof {
                    assert(peer_views(state.peers) =~= before.insert(key@, info@));
                }
                true
            }
        },
        UdpPacket::Goodbye { peer_id } => {
            state.peers.remove(peer_id.as_str());
            proof {
                assert(peer_views(state.peers) =~= before.remove(peer_id@));
            }
            true
        },
    }
}

/// Stores what the announcement of another peer tells of it, with the
/// present time: hands the store one statement for such an announcement,
/// and none for any other packet. Returns whether `pkt` is such an
/// announcement; a failure of the store is not reported.
pub fn persist_announce(db: &mut Database, my_id: &str, pkt: &UdpPacket, source_ip: &str) -> (announced:
    bool)
    ensures
        announced == (pkt@ is Announce && pkt@->Announce_peer_id != my_id@),
        final(db).asked() == old(db).asked(),
        !announced ==> final(db).issued() == old(db).issued(),
        announced ==> exists|seen_at: Seq<char>|
            final(db).issued() == old(db).issued().push(
                #[trigger] upsert_peer_statement(
                    pkt@->Announce_peer_id,
                    pkt@->Announce_username,
                    source_ip@,
                    seen_at,
                ),
            ),
{
    match pkt {
        UdpPacket::Announce { peer_id, username, tcp_port: _ } => {
            if *peer_id == String::from_str(my_id) {
                false
            } else {
                let _ = db.upsert_peer(peer_id.as_str(), username.as_str(), source_ip);
                proof {
                    let seen_at = choose|seen_at: Seq<char>|
                        db.issued() == old(db).issued().push(
                            #[trigger] upsert_peer_statement(
                                peer_id@,
                                username@,
                                source_ip@,
                                seen_at,
                            ),
                        );
                    assert(db.issued() == old(db).issued().push(
                        upsert_peer_statement(
                            pkt@->Announce_peer_id,
                            pkt@->Announce_username,
                            source_ip@,
                            seen_at,
                        ),
                    ));
                }
                true
            }
        },
        UdpPacket::Goodbye { .. } => false,
    }
}

/// The peer table after the reaper ran at time `now`: the fresh records.
pub open spec fn after_reap(peers: Map<Seq<char>, PeerInfoView>, now: u64, timeout: u64) -> Map<
    Seq<char>,
    PeerInfoView,
> {
    Map::new(
        |k: Seq<char>| peers.contains_key(k) && is_fresh(peers[k].last_seen, now, timeout),
        |k: Seq<char>| peers[k],
    )
}

/// One run of the reaper: evicts the peers that were not heard of for
/// `timeout` milliseconds or more. Returns whether any peer was evicted,
/// in which case the peer list is to be sent to the frontend.
pub fn reap(state: &mut SharedState, now: u64, timeout: u64) -> (changed: bool)
    requires
        old(state).wf(),
    ensures
        final(state).wf(),
        final(state).connections == old(state).connections,
        peer_views(final(state).peers) == after_reap(peer_views(old(state).peers), now, timeout),
        changed == (exists|k: Seq<char>|
            peer_views(old(state).peers).contains_key(k) && !is_fresh(
                #[trigger] peer_views(old(state).peers)[k].last_seen,
                now,
                timeout,
            )),
{
    let ghost before = state.peers;
    let ghost ks = before.key_seq();
    let ghost vs = before.value_seq();
    proof {
        before.lemma_entries();
    }
    let n = state.peers.len();
    let mut kept: Table<PeerInfo> = Table::new();
    let mut i: usize = 0;
    while i < n
        invariant
            i <= n,
            n == ks.len(),
            n == vs.len(),
            state.peers == before,
            ks == before.key_seq(),
            vs == before.value_seq(),
            before.wf(),
            ks.no_duplicates(),
            kept.wf(),
            kept.key_seq().len() <= i,
            forall|k: Seq<char>| #[trigger]
                kept@.contains_key(k) <==> (exists|j: int|
                    0 <= j < i && ks[j] == k && is_fresh(vs[j].last_seen, now, timeout)),
            forall|k: Seq<char>| #[trigger]
                kept@.contains_key(k) ==> before@.contains_key(k) && kept@[k]@ == before@[k]@,
            (kept.key_seq().len() == i) <==> (forall|j: int|
                0 <= j < i ==> is_fresh(#[trigger] vs[j].last_seen, now, timeout)),
        decreases n - i,
    {
        let p = state.peers.value_at(i);
        let ghost kept_before = kept;
        if fresh(p, now, timeout) {
            let key = state.peers.key_at(i).clone();
            proof {
                kept.lemma_entries();
                if kept@.contains_key(key@) {
                    let j = choose|j: int| 0 <= j < i && ks[j] == key@;
                    assert(ks[j] == ks[i as int]);
                    assert(false);
                }
            }
            kept.insert(key, p.clone());
            proof {
                assert forall|k: Seq<char>| #[trigger] kept@.contains_key(k) implies (exists|j: int|
                    0 <= j < i + 1 && ks[j] == k && is_fresh(vs[j].last_seen, now, timeout)) by {
                    if k == key@ {
                        assert(ks[i as int] == k);
                    } else {
                        assert(kept_before@.contains_key(k));
                        let j = choose|j: int|
                            0 <= j < i && ks[j] == k && is_fresh(vs[j].last_seen, now, timeout);
                        assert(0 <= j < i + 1);
                    }
                }
                assert forall|k: Seq<char>|
                    (exists|j: int|
                        0 <= j < i + 1 && ks[j] == k && is_fresh(
                            vs[j].last_seen,
                            now,
                            timeout,
                        )) implies #[trigger] kept@.contains_key(k) by {
                    let j = choose|j: int|
                        0 <= j < i + 1 && ks[j] == k && is_fresh(vs[j].last_seen, now, timeout);
                    if j < i {
                        assert(kept_before@.contains_key(k));
                    }
                }
            }
        } else {
            proof {
                assert forall|k: Seq<char>|
                    (exists|j: int|
                        0 <= j < i + 1 && ks[j] == k && is_fresh(
                            vs[j].last_seen,
                            now,
                            timeout,
                        )) implies #[trigger] kept@.contains_key(k) by {
                    let j = choose|j: int|
                        0 <= j < i + 1 && ks[j] == k && is_fresh(vs[j].last_seen, now, timeout);
                    assert(j < i);
                }
                assert(!is_fresh(vs[i as int].last_seen, now, timeout));
            }
        }
        i += 1;
    }
    let changed = kept.len() != n;
    state.peers = kept;
    proof {
        let old_views = peer_views(before);
        assert forall|k: Seq<char>| #[trigger]
            after_reap(old_views, now, timeout).contains_key(k) implies kept@.contains_key(k) by {
            assert(before@.contains_key(k));
            let j = ks.index_of(k);
            assert(0 <= j < n && ks[j] == k);
            assert(before@[ks[j]] == vs[j]);
        }
        assert forall|k: Seq<char>| #[trigger] kept@.contains_key(k) implies after_reap(
            old_views,
            now,
            timeout,
        ).contains_key(k) by {
            let j = choose|j: int|
                0 <= j < n && ks[j] == k && is_fresh(vs[j].last_seen, now, timeout);
            assert(before@.contains_key(ks[j]));
            assert(before@[ks[j]] == vs[j]);
        }
        assert(peer_views(kept) =~= after_reap(old_views, now, timeout));
        if changed {
            let j = choose|j: int| 0 <= j < n && !is_fresh(#[trigger] vs[j].last_seen, now, timeout);
            assert(before@.contains_key(ks[j]));
            assert(before@[ks[j]] == vs[j]);
            assert(old_views.contains_key(ks[j]) && !is_fresh(
                old_views[ks[j]].last_seen,
                now,
                timeout,
            ));
        } else {
            assert forall|k: Seq<char>| old_views.contains_key(k) implies is_fresh(
                #[trigger] old_views[k].last_seen,
                now,
                timeout,
            ) by {
                let j = ks.index_of(k);
                assert(0 <= j < n && ks[j] == k);
                assert(before@.contains_key(ks[j]));
                assert(before@[ks[j]] == vs[j]);
            }
        }
        assert forall|k: Seq<char>| #[trigger] kept@.contains_key(k) implies kept@[k].peer_id@
            == k by {
            assert(before@.contains_key(k));
        }
    }
    changed
}

/// One line of the peer list that the frontend shows.
#[derive(Debug)]
pub struct PeerListItem {
    pub peer_id: String,
    pub username: String,
    pub ip: String,
}

/// The mathematical value of a [`PeerListItem`].
pub struct PeerListItemView {
    pub peer_id: Seq<char>,
    pub username: Seq<char>,
    pub ip: Seq<char>,
}

impl View for PeerListItem {
    type V = PeerListItemView;

    open spec fn view(&self) -> PeerListItemView {
        PeerListItemView { peer_id: self.peer_id@, username: self.username@, ip: self.ip@ }
    }
}

impl DeepView for PeerListItem {
    type V = PeerListItemView;

    open spec fn deep_view(&self) -> PeerListItemView {
        self@
    }
}

/// What the peer list shows of a record.
pub open spec fn list_item(p: PeerInfoView) -> PeerListItemView {
    PeerListItemView { peer_id: p.peer_id, username: p.username, ip: p.ip }
}

/// The peer list for the frontend: one item per record, in the order in
/// which the peers were first heard of.
pub fn peer_list(state: &SharedState) -> (list: Vec<PeerListItem>)
    requires
        state.wf(),
    ensures
        list.len() == state.peers.value_seq().len(),
        forall|i: int|
            0 <= i < list.len() ==> #[trigger] list[i]@ == list_item(state.peers.value_seq()[i]@),
{
    proof {
        state.peers.lemma_entries();
    }
    let n = state.peers.len();
    let mut list: Vec<PeerListItem> = Vec::new();
    let mut i: usize = 0;
    while i < n
        invariant
            state.wf(),
            i <= n,
            n == state.peers.key_seq().len(),
            n == state.peers.value_seq().len(),
            list.len() == i,
            forall|j: int|
                0 <= j < i ==> #[trigger] list[j]@ == list_item(state.peers.value_seq()[j]@),
        decreases n - i,
    {
        let p = state.peers.value_at(i);
        list.push(
            PeerListItem {
                peer_id: p.peer_id.clone(),
                username: p.username.clone(),
                ip: p.ip.clone(),
            },
        );
        i += 1;
    }
    list
}

/// A peer never lists itself: whatever packet arrives, its own
/// announcement included, a table without a record under the peer's own
/// id has none afterwards.
pub proof fn lemma_self_suppression(
    peers: Map<Seq<char>, PeerInfoView>,
    my_id: Seq<char>,
    pkt: UdpPacketView,
    source_ip: Seq<char>,
    now: u64,
)
    requires
        !peers.contains_key(my_id),
    ensures
        !after_packet(peers, my_id, pkt, source_ip, now).contains_key(my_id),
        pkt is Announce && pkt->Announce_peer_id == my_id ==> after_packet(
            peers,
            my_id,
            pkt,
            source_ip,
            now,
        ) == peers,
{
}

/// The announcement of another peer lists that peer, at the address the
/// datagram came from and with the port it declared.
pub proof fn lemma_announce_lists_peer(
    peers: Map<Seq<char>, PeerInfoView>,
    my_id: Seq<char>,
    peer_id: Seq<char>,
    username: Seq<char>,
    tcp_port: u16,
    source_ip: Seq<char>,
    now: u64,
)
    requires
        peer_id != my_id,
    ensures
        ({
            let after = after_packet(
                peers,
                my_id,
                UdpPacketView::Announce { peer_id, username, tcp_port },
                source_ip,
                now,
            );
            &&& after.contains_key(peer_id)
            &&& after[peer_id] == (PeerInfoView {
                peer_id,
                username,
                ip: source_ip,
                tcp_port,
                last_seen: now,
            })
            &&& is_fresh(after[peer_id].last_seen, now, PEER_TIMEOUT_MS)
        }),
{
}

/// A peer that keeps announcing stays listed: the reaper leaves its
/// record as long as one of its last three announcements arrived, three
/// intervals being shorter than the timeout.
pub proof fn lemma_heartbeat_keeps_peer(
    peers: Map<Seq<char>, PeerInfoView>,
    peer_id: Seq<char>,
    now: u64,
)
    requires
        peers.contains_key(peer_id),
        now - peers[peer_id].last_seen <= 3 * ANNOUNCE_INTERVAL_MS,
    ensures
        after_reap(peers, now, PEER_TIMEOUT_MS).contains_key(peer_id),
        after_reap(peers, now, PEER_TIMEOUT_MS)[peer_id] == peers[peer_id],
{
}

/// A reaper run at or after `last_seen + timeout` evicts the peer, and
/// every record that a run leaves is fresh.
pub proof fn lemma_reap_evicts_stale(
    peers: Map<Seq<char>, PeerInfoView>,
    peer_id: Seq<char>,
    now: u64,
    timeout: u64,
)
    ensures
        peers.contains_key(peer_id) && now >= peers[peer_id].last_seen + timeout ==> !after_reap(
            peers,
            now,
            timeout,
        ).contains_key(peer_id),
        forall|k: Seq<char>| #[trigger]
            after_reap(peers, now, timeout).contains_key(k) ==> is_fresh(
                after_reap(peers, now, timeout)[k].last_seen,
                now,
                timeout,
            ),
{
}

/// When the announcements of a peer stop, it is gone within the timeout
/// plus one reaper interval: a reaper that runs every `interval`
/// milliseconds from `first_run` on has a run `n` in the window that
/// starts `timeout` after the last announcement and is one interval long,
/// and that run evicts the peer.
pub proof fn lemma_eviction_deadline(
    peers: Map<Seq<char>, PeerInfoView>,
    peer_id: Seq<char>,
    first_run: u64,
    interval: u64,
    timeout: u64,
) -> (n: nat)
    requires
        peers.contains_key(peer_id),
        interval > 0,
        first_run <= peers[peer_id].last_seen + timeout,
        peers[peer_id].last_seen + timeout + interval <= u64::MAX,
    ensures
        peers[peer_id].last_seen + timeout <= first_run + n * interval,
        first_run + n * interval < peers[peer_id].last_seen + timeout + interval,
        !after_reap(peers, (first_run + n * interval) as u64, timeout).contains_key(peer_id),
{
    let due: int = peers[peer_id].last_seen + timeout;
    let gap: int = due - first_run;
    let step: int = interval as int;
    let q: int = (gap + step - 1) / step;
    assert(gap <= q * step < gap + step) by (nonlinear_arith)
        requires
            gap >= 0,
            step > 0,
            q == (gap + step - 1) / step,
    ;
    assert(q >= 0) by (nonlinear_arith)
        requires
            gap >= 0,
            step > 0,
            q == (gap + step - 1) / step,
    ;
    let n = q as nat;
    assert(n * interval == q * step);
    n
}

} // verus!
