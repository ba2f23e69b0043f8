//! A map keyed by peer address.
//!
//! The map keeps its keys in the order in which they were first inserted and
//! finds a key by walking them.  Its view is a mathematical map; no key
//! occurs twice.

use vstd::prelude::*;
use crate::addr::PeerAddr;
use crate::seqs::lemma_push_contains;

verus! {

/// A finite map from peer addresses to values of type `V`.
#[derive(Clone, Debug)]
pub struct AddrMap<V> {
    keys: Vec<PeerAddr>,
    values: Vec<V>,
}

impl<V> View for AddrMap<V> {
    type V = Map<PeerAddr, V>;

    /// The map that the entries stand for.
    closed spec fn view(&self) -> Map<PeerAddr, V> {
        Map::new(
            |a: PeerAddr| self.keys@.contains(a),
            |a: PeerAddr| self.values@[self.keys@.index_of(a)],
        )
    }
}

impl<V> AddrMap<V> {
    /// Every key stands once, beside its value.
    pub closed spec fn wf(&self) -> bool {
        &&& self.keys@.len() == self.values@.len()
        &&& self.keys@.no_duplicates()
    }

    /// The keys in the order in which they were first inserted.
    pub closed spec fn key_seq(&self) -> Seq<PeerAddr> {
        self.keys@
    }

    /// The key sequence lists the domain of the view, each key once.
    pub proof fn lemma_key_seq(&self)
        requires
            self.wf(),
        ensures
            self.key_seq().no_duplicates(),
            self.key_seq().to_set() == self@.dom(),
            self@.dom().finite(),
            self@.dom().len() == self.key_seq().len(),
    {
        self.keys@.unique_seq_to_set();
    }

    /// The empty map.
    pub fn new() -> (map: Self)
        ensures
            map.wf(),
            map@ == Map::<PeerAddr, V>::empty(),
            map.key_seq() == Seq::<PeerAddr>::empty(),
    {
        AddrMap { keys: Vec::new(), values: Vec::new() }
    }

    /// The number of keys.
    pub fn len(&self) -> (n: usize)
        requires
            self.wf(),
        ensures
            n == self@.dom().len(),
            n == self.key_seq().len(),
            self@.dom().finite(),
    {
        proof {
            self.lemma_key_seq();
        }
        self.keys.len()
    }

    /// Whether the map has no key.
    pub fn is_empty(&self) -> (empty: bool)
        requires
            self.wf(),
        ensures
            empty == (self@ == Map::<PeerAddr, V>::empty()),
    {
        proof {
            if self.keys@.len() == 0 {
                assert(self@ =~= Map::<PeerAddr, V>::empty());
            } else {
                assert(self@.contains_key(self.keys@[0]));
            }
        }
        self.keys.len() == 0
    }

    /// The index at which `addr` stands among the keys, if it is a key.
    fn position(&self, addr: &PeerAddr) -> (at: Option<usize>)
        requires
            self.wf(),
        ensures
            match at {
                Some(i) => i < self.keys@.len() && self.keys@[i as int] == *addr
                    && self.keys@.index_of(*addr) == i,
                None => !self.keys@.contains(*addr),
            },
    {
        let mut i: usize = 0;
        while i < self.keys.len()
            invariant
                i <= self.keys@.len(),
                self.keys@.no_duplicates(),
                forall|k: int| 0 <= k < i ==> self.keys@[k] != *addr,
            decreases self.keys@.len() - i,
        {
            if self.keys[i] == *addr {
                return Some(i);
            }
            i = i + 1;
        }
        None
    }

    /// Whether `addr` is a key.
    pub fn contains_key(&self, addr: &PeerAddr) -> (found: bool)
        requires
            self.wf(),
        ensures
            found == self@.contains_key(*addr),
    {
        self.position(addr).is_some()
    }

    /// The value under `addr`, if `addr` is a key.
    pub fn get(&self, addr: &PeerAddr) -> (value: Option<&V>)
        requires
            self.wf(),
        ensures
            match value {
                Some(v) => self@.contains_key(*addr) && *v == self@[*addr],
                None => !self@.contains_key(*addr),
            },
    {
        match self.position(addr) {
            Some(i) => Some(&self.values[i]),
            None => None,
        }
    }

    /// Puts `value` under `addr`, in place of any value that stood there.
    pub fn insert(&mut self, addr: PeerAddr, value: V)
        requires
            old(self).wf(),
        ensures
            final(self).wf(),
            final(self)@ == old(self)@.insert(addr, value),
            final(self).key_seq() == if old(self)@.contains_key(addr) {
                old(self).key_seq()
            } else {
                old(self).key_seq().push(addr)
            },
    {
        match self.position(&addr) {
            Some(i) => {
                self.values.set(i, value);
            },
            None => {
                self.keys.push(addr);
                self.values.push(value);
                assert(final(self)@ =~= old(self)@.insert(addr, value)) by {
                    lemma_push_contains(old(self).keys@, addr);
                }
            },
        }
    }

    /// The keys, each once, in the order in which they were first inserted.
    pub fn keys(&self) -> (keys: Vec<PeerAddr>)
        requires
            self.wf(),
        ensures
            keys@ == self.key_seq(),
            keys@.no_duplicates(),
            keys@.to_set() == self@.dom(),
    {
        self.keys.clone()
    }
}

} // verus!
