//! The UDP server's session table: which session serves the datagrams of each peer.
use vstd::prelude::*;

verus! {

/// A peer's socket address as plain integers: the address family (4 or 6), the IP address,
/// the port, and for IPv6 the flow label and scope id (0 for IPv4). Two addresses are the same
/// peer exactly when all five agree, as `std::net::SocketAddr` compares them.
#[derive(Debug, Clone, Copy, PartialEq, Eq, Structural)]
pub struct PeerAddr {
    pub family: u8,
    pub ip: u128,
    pub port: u16,
    pub flowinfo: u32,
    pub scope_id: u32,
}

/// What to do with a datagram from a peer.
pub enum Route<'a, S> {
    /// Hand it to the peer's session through this sender.
    Deliver(&'a S),
    /// The peer has no session: open one and hand it the datagram.
    OpenSession,
}

/// The sessions of a UDP server, at most one per peer, each reached through a sender `S`.
#[derive(Debug)]
pub struct Sessions<S> {
    entries: Vec<(PeerAddr, S)>,
}

/// The peers of the entries.
pub open spec fn entry_peers<S>(entries: Seq<(PeerAddr, S)>) -> Set<PeerAddr> {
    Set::new(|p: PeerAddr| exists|i: int| 0 <= i < entries.len() && entries[i].0 == p)
}

/// Where the entry of a peer stands.
pub open spec fn entry_index<S>(entries: Seq<(PeerAddr, S)>, p: PeerAddr) -> int {
    choose|i: int| 0 <= i < entries.len() && entries[i].0 == p
}

/// No peer has two entries.
pub open spec fn peers_unique<S>(entries: Seq<(PeerAddr, S)>) -> bool {
    forall|i: int, j: int|
        0 <= i < entries.len() && 0 <= j < entries.len() && entries[i].0 == entries[j].0 ==> i
            == j
}

/// The entries as a map from peer to sender.
pub open spec fn entries_map<S>(entries: Seq<(PeerAddr, S)>) -> Map<PeerAddr, S> {
    Map::new(
        |p: PeerAddr| entry_peers(entries).contains(p),
        |p: PeerAddr| entries[entry_index(entries, p)].1,
    )
}

impl<S> View for Sessions<S> {
    type V = Map<PeerAddr, S>;

    closed spec fn view(&self) -> Map<PeerAddr, S> {
        entries_map(self.entries@)
    }
}

proof fn lemma_index_of<S>(entries: Seq<(PeerAddr, S)>, i: int)
    requires
        peers_unique(entries),
        0 <= i < entries.len(),
    ensures
        entry_peers(entries).contains(entries[i].0),
        entry_index(entries, entries[i].0) == i,
{
    assert(entry_peers(entries).contains(entries[i].0));
}

impl<S> Sessions<S> {
    #[verifier::type_invariant]
    spec fn wf(self) -> bool {
        peers_unique(self.entries@)
    }

    /// A table with no sessions.
    pub fn new() -> (r: Self)
        ensures
            r@ == Map::<PeerAddr, S>::empty(),
    {
        let r = Sessions { entries: Vec::new() };
        assert(r@ =~= Map::<PeerAddr, S>::empty());
        r
    }

    /// The number of sessions.
    pub fn len(&self) -> (n: usize)
        ensures
            n == self@.len(),
    {
        proof {
            use_type_invariant(self);
        }
        let n = self.entries.len();
        proof {
            self.lemma_len();
        }
        n
    }

    proof fn lemma_len(&self)
        requires
            peers_unique(self.entries@),
        ensures
            self@.len() == self.entries@.len(),
            self@.dom().finite(),
    {
        let e = self.entries@;
        let keys = Seq::new(e.len(), |i: int| e[i].0);
        assert forall|i: int, j: int| 0 <= i < keys.len() && 0 <= j < keys.len() && i != j implies keys[i]
            != keys[j] by {}
        assert(keys.no_duplicates());
        assert(keys.to_set() =~= self@.dom()) by {
            assert forall|p: PeerAddr| keys.to_set().contains(p) <==> self@.dom().contains(p) by {
                if self@.dom().contains(p) {
                    let i = choose|i: int| 0 <= i < e.len() && e[i].0 == p;
                    assert(keys[i] == p);
                }
            }
        }
        keys.unique_seq_to_set();
    }

    fn find(&self, peer: &PeerAddr) -> (r: Option<usize>)
        ensures
            match r {
                Some(i) => i < self.entries@.len() && self.entries@[i as int].0 == *peer,
                None => !entry_peers(self.entries@).contains(*peer),
            },
    {
        let n = self.entries.len();
        let mut i: usize = 0;
        while i < n
            invariant
                n == self.entries@.len(),
                i <= n,
                forall|j: int| 0 <= j < i ==> self.entries@[j].0 != *peer,
            decreases n - i,
        {
            if self.entries[i].0 == *peer {
                return Some(i);
            }
            i = i + 1;
        }
        None
    }

    /// The session of `peer`, if it has one.
    pub fn get(&self, peer: &PeerAddr) -> (r: Option<&S>)
        ensures
            match r {
                Some(s) => self@.contains_key(*peer) && *s == self@[*peer],
                None => !self@.contains_key(*peer),
            },
    {
        proof {
            use_type_invariant(self);
        }
        match self.find(peer) {
            Some(i) => {
                proof {
                    lemma_index_of(self.entries@, i as int);
                }
                Some(&self.entries[i].1)
            },
            None => None,
        }
    }

    /// Where a datagram from `peer` goes: to the peer's session, or to a new one.
    pub fn route(&self, peer: &PeerAddr) -> (r: Route<'_, S>)
        ensures
            match r {
                Route::Deliver(s) => self@.contains_key(*peer) && *s == self@[*peer],
                Route::OpenSession => !self@.contains_key(*peer),
            },
    {
        match self.get(peer) {
            Some(s) => Route::Deliver(s),
            None => Route::OpenSession,
        }
    }

    /// Records the session just opened for `peer`; it replaces any session `peer` had.
    pub fn session_opened(&mut self, peer: PeerAddr, sender: S)
        ensures
            final(self)@ == old(self)@.insert(peer, sender),
    {
        proof {
            use_type_invariant(&*self);
        }
        let ghost old_entries = self.entries@;
        match self.find(&peer) {
            Some(i) => {
                let ghost before = self.entries@;
                let mut entries = Vec::new();
                std::mem::swap(&mut entries, &mut self.entries);
                entries.remove(i);
                entries.insert(i, (peer, sender));
                proof {
                    let e = entries@;
                    assert(e =~= before.update(i as int, (peer, sender)));
                    assert(peers_unique(e));
                    lemma_index_of(e, i as int);
                    assert forall|p: PeerAddr| #[trigger] entries_map(e).contains_key(p)
                        == entries_map(before).insert(peer, sender).contains_key(p) by {
                        if entry_peers(before).contains(p) {
                            let j = choose|j: int| 0 <= j < before.len() && before[j].0 == p;
                            assert(e[j].0 == p || j == i);
                        }
                        if entry_peers(e).contains(p) {
                            let j = choose|j: int| 0 <= j < e.len() && e[j].0 == p;
                            assert(before[j].0 == p || j == i);
                        }
                    }
                    assert forall|p: PeerAddr| #[trigger] entries_map(e).contains_key(p) && p != peer
                        implies entries_map(e)[p] == entries_map(before)[p] by {
                        let j = entry_index(e, p);
                        lemma_index_of(e, j);
                        lemma_index_of(before, j);
                    }
                    assert(entries_map(e) =~= entries_map(before).insert(peer, sender));
                }
                self.entries = entries;
            },
            None => {
                let ghost before = self.entries@;
                let mut entries = Vec::new();
                std::mem::swap(&mut entries, &mut self.entries);
                entries.push((peer, sender));
                proof {
                    let e = entries@;
                    assert(e =~= before.push((peer, sender)));
                    assert(peers_unique(e));
                    lemma_index_of(e, before.len() as int);
                    assert forall|p: PeerAddr| #[trigger] entries_map(e).contains_key(p)
                        == entries_map(before).insert(peer, sender).contains_key(p) by {
                        if entry_peers(before).contains(p) {
                            let j = choose|j: int| 0 <= j < before.len() && before[j].0 == p;
                            assert(e[j].0 == p);
                        }
                        if entry_peers(e).contains(p) && p != peer {
                            let j = choose|j: int| 0 <= j < e.len() && e[j].0 == p;
                            assert(before[j].0 == p);
                        }
                    }
                    assert forall|p: PeerAddr| #[trigger] entries_map(e).contains_key(p) && p != peer
                        implies entries_map(e)[p] == entries_map(before)[p] by {
                        let j = entry_index(before, p);
                        lemma_index_of(before, j);
                        lemma_index_of(e, j);
                    }
                    assert(entries_map(e) =~= entries_map(before).insert(peer, sender));
                }
                self.entries = entries;
            },
        }
    }

    /// Forgets the session of `peer`, if it has one.
    pub fn remove(&mut self, peer: &PeerAddr)
        ensures
            final(self)@ == old(self)@.remove(*peer),
    {
        proof {
            use_type_invariant(&*self);
        }
        match self.find(peer) {
            Some(i) => {
                let ghost before = self.entries@;
                let mut entries = Vec::new();
                std::mem::swap(&mut entries, &mut self.entries);
                entries.remove(i);
                proof {
                    let e = entries@;
                    assert(e =~= before.remove(i as int));
                    assert(forall|j: int| 0 <= j < e.len() ==> e[j] == before[if j < i { j } else { j + 1 }]);
                    assert(peers_unique(e));
                    assert forall|p: PeerAddr| #[trigger] entries_map(e).contains_key(p)
                        == entries_map(before).remove(*peer).contains_key(p) by {
                        if entry_peers(before).contains(p) && p != *peer {
                            let j = choose|j: int| 0 <= j < before.len() && before[j].0 == p;
                            assert(j != i);
                            if j < i {
                                assert(e[j].0 == p);
                            } else {
                                assert(e[j - 1].0 == p);
                            }
                        }
                        if entry_peers(e).contains(p) {
                            let j = choose|j: int| 0 <= j < e.len() && e[j].0 == p;
                            lemma_index_of(before, i as int);
                            if j < i {
                                assert(before[j].0 == p);
                            } else {
                                assert(before[j + 1].0 == p);
                            }
                        }
                    }
                    assert forall|p: PeerAddr| #[trigger] entries_map(e).contains_key(p)
                        implies entries_map(e)[p] == entries_map(before)[p] by {
                        let j = entry_index(e, p);
                        lemma_index_of(e, j);
                        let k = if j < i { j } else { j + 1 };
                        lemma_index_of(before, k);
                    }
                    assert(entries_map(e) =~= entries_map(before).remove(*peer));
                }
                self.entries = entries;
            },
            None => {
                assert(self@ =~= old(self)@.remove(*peer));
            },
        }
    }
}

impl<S> Sessions<S> {
    /// After a datagram was handed to the session of `peer`: a session that could not take it
    /// has ended, and is forgotten; one that took it stays.
    pub fn after_delivery(&mut self, peer: &PeerAddr, delivered: bool)
        ensures
            final(self)@ == (if delivered {
                old(self)@
            } else {
                old(self)@.remove(*peer)
            }),
    {
        if !delivered {
            self.remove(peer);
        }
    }

    /// The session of `peer` has ended: it is forgotten, so that the peer's next datagram
    /// opens a new one.
    pub fn session_closed(&mut self, peer: &PeerAddr)
        ensures
            final(self)@ == old(self)@.remove(*peer),
    {
        self.remove(peer);
    }
}

/// Datagrams of one peer keep going to the session opened for it while other peers' sessions
/// open and close; once its session is forgotten (it failed or went idle), the peer's next
/// datagram opens a new session; and a peer never has two sessions, since opening one replaces
/// the old.
pub proof fn law_sessions_per_peer<S>(m: Map<PeerAddr, S>, p: PeerAddr, q: PeerAddr, s: S, t: S)
    requires
        p != q,
    ensures
        m.insert(p, s).insert(q, t).contains_key(p),
        m.insert(p, s).insert(q, t)[p] == s,
        m.insert(p, s).remove(q).contains_key(p),
        m.insert(p, s).remove(q)[p] == s,
        !m.insert(p, s).remove(p).contains_key(p),
        m.insert(p, s).insert(p, t) == m.insert(p, t),
{
    assert(m.insert(p, s).insert(p, t) =~= m.insert(p, t));
}

} // verus!
