//! The players' records, and the map from account to record that the game keeps.
use vstd::prelude::*;

verus! {

/// What the game remembers of a player: the amount bet in the current roll (0 when no bet
/// stands), the account, and the parity the player bet on.
#[derive(Debug)]
pub struct PlayerMetadata {
    pub bet_amount: u128,
    pub player: String,
    pub is_even: bool,
}

/// The mathematical value of a [`PlayerMetadata`].
pub struct PlayerView {
    pub bet_amount: u128,
    pub player: Seq<char>,
    pub is_even: bool,
}

impl View for PlayerMetadata {
    type V = PlayerView;

    open spec fn view(&self) -> PlayerView {
        PlayerView { bet_amount: self.bet_amount, player: self.player@, is_even: self.is_even }
    }
}

/// A map from account to [`PlayerMetadata`], which keeps its entries in insertion order.
///
/// Its value is the map `self@`; the invariant `wf` ties the entry vectors to it.
pub struct PlayerMap {
    keys: Vec<String>,
    values: Vec<PlayerMetadata>,
    contents: Ghost<Map<Seq<char>, PlayerView>>,
}

impl View for PlayerMap {
    type V = Map<Seq<char>, PlayerView>;

    closed spec fn view(&self) -> Map<Seq<char>, PlayerView> {
        self.contents@
    }
}

impl PlayerMap {
    /// The entries are stored once each, and are exactly the map's entries.
    pub closed spec fn wf(&self) -> bool {
        &&& self.keys@.len() == self.values@.len()
        &&& forall|i: int|
            0 <= i < self.keys@.len() ==> {
                &&& self.contents@.contains_key(#[trigger] self.keys@[i]@)
                &&& self.contents@[self.keys@[i]@] == self.values@[i]@
            }
        &&& forall|k: Seq<char>|
            #[trigger] self.contents@.contains_key(k) ==> exists|i: int|
                0 <= i < self.keys@.len() && #[trigger] self.keys@[i]@ == k
        &&& forall|i: int, j: int|
            0 <= i < j < self.keys@.len() ==> #[trigger] self.keys@[i]@ != #[trigger] self.keys@[j]@
    }

    /// The number of entries, each stored once.
    pub closed spec fn spec_len(&self) -> nat {
        self.keys@.len()
    }

    /// The key of the entry at position `i`, in insertion order.
    pub closed spec fn key_at(&self, i: int) -> Seq<char> {
        self.keys@[i]@
    }

    /// An empty map.
    pub fn new() -> (m: Self)
        ensures
            m.wf(),
            m@ == Map::<Seq<char>, PlayerView>::empty(),
            m.spec_len() == 0,
    {
        PlayerMap { keys: Vec::new(), values: Vec::new(), contents: Ghost(Map::empty()) }
    }

    /// The position of `key` among the entries, if it has one.
    fn find(&self, key: &String) -> (r: Option<usize>)
        requires
            self.wf(),
        ensures
            match r {
                Some(i) => i < self.keys@.len() && self.keys@[i as int]@ == key@,
                None => !self@.contains_key(key@),
            },
    {
        let mut i: usize = 0;
        while i < self.keys.len()
            invariant
                self.wf(),
                i <= self.keys@.len(),
                forall|j: int| 0 <= j < i ==> self.keys@[j]@ != key@,
            decreases self.keys@.len() - i,
        {
            if self.keys[i] == *key {
                return Some(i);
            }
            i = i + 1;
        }
        None
    }

    /// The record stored for `key`, if any.
    pub fn get(&self, key: &String) -> (r: Option<&PlayerMetadata>)
        requires
            self.wf(),
        ensures
            match r {
                Some(v) => self@.contains_key(key@) && v@ == self@[key@],
                None => !self@.contains_key(key@),
            },
    {
        match self.find(key) {
            Some(i) => Some(&self.values[i]),
            None => None,
        }
    }

    /// Stores `value` for `key`, replacing any record stored for it before.
    pub fn insert(&mut self, key: &String, value: PlayerMetadata)
        requires
            old(self).wf(),
        ensures
            final(self).wf(),
            final(self)@ == old(self)@.insert(key@, value@),
            old(self)@.contains_key(key@) ==> final(self).spec_len() == old(self).spec_len(),
            !old(self)@.contains_key(key@) ==> final(self).spec_len() == old(self).spec_len() + 1,
    {
        let ghost new_contents = self@.insert(key@, value@);
        match self.find(key) {
            Some(i) => {
                self.values.set(i, value);
                self.contents = Ghost(new_contents);
                assert(self.wf()) by {
                    assert forall|k: Seq<char>| #[trigger]
                        self.contents@.contains_key(k) implies exists|j: int|
                        0 <= j < self.keys@.len() && #[trigger] self.keys@[j]@ == k by {
                        if k == key@ {
                            assert(self.keys@[i as int]@ == k);
                        }
                    }
                }
            },
            None => {
                self.keys.push(key.clone());
                self.values.push(value);
                self.contents = Ghost(new_contents);
                assert(self.wf()) by {
                    let n = self.keys@.len() - 1;
                    assert(self.keys@[n]@ == key@);
                    assert forall|k: Seq<char>| #[trigger]
                        self.contents@.contains_key(k) implies exists|j: int|
                        0 <= j < self.keys@.len() && #[trigger] self.keys@[j]@ == k by {
                        if k == key@ {
                            assert(self.keys@[n]@ == k);
                        } else {
                            assert(old(self)@.contains_key(k));
                            let j = choose|j: int|
                                0 <= j < old(self).keys@.len() && #[trigger] old(self).keys@[j]@ == k;
                            assert(self.keys@[j]@ == k);
                        }
                    }
                }
            },
        }
    }

    /// The number of entries.
    pub fn len(&self) -> (r: usize)
        requires
            self.wf(),
        ensures
            r == self.spec_len(),
            r == self@.len(),
    {
        proof {
            self.lemma_len();
        }
        self.keys.len()
    }

    /// The entry at position `i`, in insertion order: its key and its record.
    pub fn entry(&self, i: usize) -> (r: (&String, &PlayerMetadata))
        requires
            self.wf(),
            i < self.spec_len(),
        ensures
            r.0@ == self.key_at(i as int),
            self@.contains_key(r.0@),
            r.1@ == self@[r.0@],
    {
        (&self.keys[i], &self.values[i])
    }

    /// Whether every record is filed under its own account.
    pub fn records_match_keys(&self) -> (r: bool)
        requires
            self.wf(),
        ensures
            r <==> forall|k: Seq<char>| #[trigger] self@.contains_key(k) ==> self@[k].player == k,
    {
        proof {
            self.lemma_keys();
        }
        let n: usize = self.len();
        let mut i: usize = 0;
        while i < n
            invariant
                self.wf(),
                n == self.spec_len(),
                i <= n,
                forall|j: int| 0 <= j < i ==> #[trigger] self@[self.key_at(j)].player == self.key_at(j),
            decreases n - i,
        {
            let (key, value) = self.entry(i);
            if value.player != *key {
                return false;
            }
            i = i + 1;
        }
        true
    }

    /// Whether every one of `accounts` has a record.
    pub fn contains_all(&self, accounts: &Vec<String>) -> (r: bool)
        requires
            self.wf(),
        ensures
            r <==> forall|i: int| 0 <= i < accounts@.len() ==> self@.contains_key(#[trigger] accounts@[i]@),
    {
        let mut i: usize = 0;
        while i < accounts.len()
            invariant
                self.wf(),
                i <= accounts@.len(),
                forall|j: int| 0 <= j < i ==> self@.contains_key(#[trigger] accounts@[j]@),
            decreases accounts@.len() - i,
        {
            if self.get(&accounts[i]).is_none() {
                return false;
            }
            i = i + 1;
        }
        true
    }

    /// Every key of the map is the key of some entry.
    pub proof fn lemma_keys(&self)
        requires
            self.wf(),
        ensures
            forall|k: Seq<char>| #[trigger] self@.contains_key(k) ==> exists|i: int|
                0 <= i < self.spec_len() && #[trigger] self.key_at(i) == k,
    {
        assert forall|k: Seq<char>| #[trigger] self@.contains_key(k) implies exists|i: int|
            0 <= i < self.spec_len() && #[trigger] self.key_at(i) == k by {
            let i = choose|i: int| 0 <= i < self.keys@.len() && #[trigger] self.keys@[i]@ == k;
            assert(self.key_at(i) == k);
        }
    }

    /// Each key of the map is stored once, so the map has as many entries as are stored.
    proof fn lemma_len(&self)
        requires
            self.wf(),
        ensures
            self@.len() == self.spec_len(),
            self@.dom().finite(),
    {
        let ks = self.keys@.map_values(|s: String| s@);
        assert forall|i: int, j: int| 0 <= i < j < ks.len() implies ks[i] != ks[j] by {
            assert(self.keys@[i]@ != self.keys@[j]@);
        }
        assert(ks.no_duplicates());
        assert(self@.dom() =~= ks.to_set()) by {
            assert forall|k: Seq<char>| self@.dom().contains(k) implies ks.to_set().contains(k) by {
                let j = choose|j: int| 0 <= j < self.keys@.len() && #[trigger] self.keys@[j]@ == k;
                assert(ks[j] == k);
            }
            assert forall|k: Seq<char>| ks.to_set().contains(k) implies self@.dom().contains(k) by {
                let j = choose|j: int| 0 <= j < ks.len() && ks[j] == k;
                assert(self.contents@.contains_key(self.keys@[j]@));
            }
        }
        ks.unique_seq_to_set();
    }
}

} // verus!
