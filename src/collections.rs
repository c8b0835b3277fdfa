use vstd::prelude::*;
use crate::account::{AccountId, PublicKey};

verus! {

/// A finite set of accounts, kept as a vector without repeated identifiers.
pub struct AccountSet {
    items: Vec<AccountId>,
    members: Ghost<Set<Seq<char>>>,
}

impl View for AccountSet {
    type V = Set<Seq<char>>;

    closed spec fn view(&self) -> Set<Seq<char>> {
        self.members@
    }
}

impl AccountSet {
    /// The vector holds each member exactly once, and nothing else.
    pub closed spec fn wf(&self) -> bool {
        &&& forall|i: int, j: int|
            0 <= i < j < self.items.len() ==> self.items@[i]@ != self.items@[j]@
        &&& forall|i: int| 0 <= i < self.items.len() ==> self.members@.contains(#[trigger] self.items@[i]@)
        &&& forall|s: Seq<char>|
            self.members@.contains(s) ==> exists|i: int| 0 <= i < self.items.len() && #[trigger] self.items@[i]@ == s
    }

    /// The empty set.
    pub fn new() -> (r: AccountSet)
        ensures
            r.wf(),
            r@ == Set::<Seq<char>>::empty(),
    {
        AccountSet { items: Vec::new(), members: Ghost(Set::empty()) }
    }

    fn position(&self, id: &AccountId) -> (r: Option<usize>)
        requires
            self.wf(),
        ensures
            match r {
                Some(i) => i < self.items.len() && self.items@[i as int]@ == id@,
                None => !self@.contains(id@),
            },
    {
        let mut i: usize = 0;
        while i < self.items.len()
            invariant
                0 <= i <= self.items.len(),
                forall|j: int| 0 <= j < i ==> self.items@[j]@ != id@,
            decreases self.items.len() - i,
        {
            if self.items[i].same_as(id) {
                return Some(i);
            }
            i = i + 1;
        }
        None
    }

    /// Whether `id` is a member.
    pub fn contains(&self, id: &AccountId) -> (r: bool)
        requires
            self.wf(),
        ensures
            r == self@.contains(id@),
    {
        self.position(id).is_some()
    }

    /// Adds `id`; tells whether the set changed.
    pub fn insert(&mut self, id: AccountId) -> (r: bool)
        requires
            old(self).wf(),
        ensures
            final(self).wf(),
            final(self)@ == old(self)@.insert(id@),
            r == !old(self)@.contains(id@),
    {
        if self.position(&id).is_some() {
            assert(self@.insert(id@) =~= self@);
            return false;
        }
        let ghost key = id@;
        let ghost old_items = self.items@;
        self.items.push(id);
        self.members = Ghost(self.members@.insert(key));
        proof {
            assert(self.items@[old_items.len() as int]@ == key);
            assert forall|s: Seq<char>| self.members@.contains(s) implies exists|i: int|
                0 <= i < self.items.len() && #[trigger] self.items@[i]@ == s by {
                if s != key {
                    let i = choose|i: int| 0 <= i < old_items.len() && #[trigger] old_items[i]@ == s;
                    assert(self.items@[i]@ == s);
                }
            }
        }
        true
    }

    /// Removes `id`; tells whether it was a member.
    pub fn remove(&mut self, id: &AccountId) -> (r: bool)
        requires
            old(self).wf(),
        ensures
            final(self).wf(),
            final(self)@ == old(self)@.remove(id@),
            r == old(self)@.contains(id@),
    {
        match self.position(id) {
            None => {
                assert(self@.remove(id@) =~= self@);
                false
            },
            Some(p) => {
                let ghost old_items = self.items@;
                let ghost key = id@;
                self.items.remove(p);
                self.members = Ghost(self.members@.remove(key));
                proof {
                    assert forall|i: int| 0 <= i < self.items.len() implies self.members@.contains(
                        #[trigger] self.items@[i]@) by {
                        if i < p {
                            assert(self.items@[i] == old_items[i]);
                        } else {
                            assert(self.items@[i] == old_items[i + 1]);
                        }
                    }
                    assert forall|i: int, j: int| 0 <= i < j < self.items.len() implies self.items@[i]@
                        != self.items@[j]@ by {
                        let oi = if i < p { i } else { i + 1 };
                        let oj = if j < p { j } else { j + 1 };
                        assert(self.items@[i] == old_items[oi]);
                        assert(self.items@[j] == old_items[oj]);
                    }
                    assert forall|s: Seq<char>| self.members@.contains(s) implies exists|i: int|
                        0 <= i < self.items.len() && #[trigger] self.items@[i]@ == s by {
                        let k = choose|k: int| 0 <= k < old_items.len() && #[trigger] old_items[k]@ == s;
                        if k < p {
                            assert(self.items@[k]@ == s);
                        } else {
                            assert(k != p);
                            assert(self.items@[k - 1] == old_items[k]);
                        }
                    }
                }
                true
            },
        }
    }
}

/// A finite map from accounts to keys, kept as a vector of entries without
/// repeated identifiers.
pub struct ApplicantMap {
    entries: Vec<(AccountId, PublicKey)>,
    contents: Ghost<Map<Seq<char>, Seq<u8>>>,
}

impl View for ApplicantMap {
    type V = Map<Seq<char>, Seq<u8>>;

    closed spec fn view(&self) -> Map<Seq<char>, Seq<u8>> {
        self.contents@
    }
}

impl ApplicantMap {
    /// The vector holds each entry of the map exactly once, and nothing else.
    pub closed spec fn wf(&self) -> bool {
        &&& forall|i: int, j: int|
            0 <= i < j < self.entries.len() ==> self.entries@[i].0@ != self.entries@[j].0@
        &&& forall|i: int|
            0 <= i < self.entries.len() ==> self.contents@.contains_key(#[trigger] self.entries@[i].0@)
                && self.contents@[self.entries@[i].0@] == self.entries@[i].1@
        &&& forall|s: Seq<char>|
            self.contents@.contains_key(s) ==> exists|i: int|
                0 <= i < self.entries.len() && #[trigger] self.entries@[i].0@ == s
    }

    /// The empty map.
    pub fn new() -> (r: ApplicantMap)
        ensures
            r.wf(),
            r@ == Map::<Seq<char>, Seq<u8>>::empty(),
    {
        ApplicantMap { entries: Vec::new(), contents: Ghost(Map::empty()) }
    }

    fn position(&self, id: &AccountId) -> (r: Option<usize>)
        requires
            self.wf(),
        ensures
            match r {
                Some(i) => i < self.entries.len() && self.entries@[i as int].0@ == id@,
                None => !self@.contains_key(id@),
            },
    {
        let mut i: usize = 0;
        while i < self.entries.len()
            invariant
                0 <= i <= self.entries.len(),
                forall|j: int| 0 <= j < i ==> self.entries@[j].0@ != id@,
            decreases self.entries.len() - i,
        {
            if self.entries[i].0.same_as(id) {
                return Some(i);
            }
            i = i + 1;
        }
        None
    }

    /// Whether `id` has an entry.
    pub fn contains_key(&self, id: &AccountId) -> (r: bool)
        requires
            self.wf(),
        ensures
            r == self@.contains_key(id@),
    {
        self.position(id).is_some()
    }

    /// The key stored for `id`, if any.
    pub fn get(&self, id: &AccountId) -> (r: Option<PublicKey>)
        requires
            self.wf(),
        ensures
            match r {
                Some(k) => self@.contains_key(id@) && k@ == self@[id@],
                None => !self@.contains_key(id@),
            },
    {
        match self.position(id) {
            Some(p) => Some(self.entries[p].1.duplicate()),
            None => None,
        }
    }

    /// Stores `key` for `id`; returns the key stored before, if any.
    pub fn insert(&mut self, id: AccountId, key: PublicKey) -> (r: Option<PublicKey>)
        requires
            old(self).wf(),
        ensures
            final(self).wf(),
            final(self)@ == old(self)@.insert(id@, key@),
            match r {
                Some(k) => old(self)@.contains_key(id@) && k@ == old(self)@[id@],
                None => !old(self)@.contains_key(id@),
            },
    {
        let ghost k = id@;
        let ghost v = key@;
        let ghost old_entries = self.entries@;
        match self.position(&id) {
            Some(p) => {
                let prev = self.entries[p].1.duplicate();
                self.entries.set(p, (id, key));
                self.contents = Ghost(self.contents@.insert(k, v));
                proof {
                    assert forall|i: int| 0 <= i < self.entries.len() implies self.contents@.contains_key(
                        #[trigger] self.entries@[i].0@) && self.contents@[self.entries@[i].0@]
                        == self.entries@[i].1@ by {
                        if i != p {
                            assert(self.entries@[i] == old_entries[i]);
                        }
                    }
                    assert forall|i: int, j: int| 0 <= i < j < self.entries.len() implies self.entries@[i].0@
                        != self.entries@[j].0@ by {
                        if i != p {
                            assert(self.entries@[i] == old_entries[i]);
                        }
                        if j != p {
                            assert(self.entries@[j] == old_entries[j]);
                        }
                    }
                    assert forall|s: Seq<char>| self.contents@.contains_key(s) implies exists|i: int|
                        0 <= i < self.entries.len() && #[trigger] self.entries@[i].0@ == s by {
                        if s != k {
                            let i = choose|i: int| 0 <= i < old_entries.len() && #[trigger] old_entries[i].0@ == s;
                            assert(self.entries@[i] == old_entries[i]);
                        } else {
                            assert(self.entries@[p as int].0@ == s);
                        }
                    }
                }
                Some(prev)
            },
            None => {
                self.entries.push((id, key));
                self.contents = Ghost(self.contents@.insert(k, v));
                proof {
                    let n = old_entries.len() as int;
                    assert(self.entries@[n].0@ == k);
                    assert forall|i: int| 0 <= i < self.entries.len() implies self.contents@.contains_key(
                        #[trigger] self.entries@[i].0@) && self.contents@[self.entries@[i].0@]
                        == self.entries@[i].1@ by {
                        if i < n {
                            assert(self.entries@[i] == old_entries[i]);
                        }
                    }
                    assert forall|s: Seq<char>| self.contents@.contains_key(s) implies exists|i: int|
                        0 <= i < self.entries.len() && #[trigger] self.entries@[i].0@ == s by {
                        if s != k {
                            let i = choose|i: int| 0 <= i < old_entries.len() && #[trigger] old_entries[i].0@ == s;
                            assert(self.entries@[i] == old_entries[i]);
                        }
                    }
                }
                None
            },
        }
    }

    /// Deletes the entry of `id`; returns the key it held, if any.
    pub fn remove(&mut self, id: &AccountId) -> (r: Option<PublicKey>)
        requires
            old(self).wf(),
        ensures
            final(self).wf(),
            final(self)@ == old(self)@.remove(id@),
            match r {
                Some(k) => old(self)@.contains_key(id@) && k@ == old(self)@[id@],
                None => !old(self)@.contains_key(id@),
            },
    {
        match self.position(id) {
            None => {
                assert(self@.remove(id@) =~= self@);
                None
            },
            Some(p) => {
                let ghost old_entries = self.entries@;
                let ghost k = id@;
                let entry = self.entries.remove(p);
                self.contents = Ghost(self.contents@.remove(k));
                proof {
                    assert forall|i: int| 0 <= i < self.entries.len() implies self.contents@.contains_key(
                        #[trigger] self.entries@[i].0@) && self.contents@[self.entries@[i].0@]
                        == self.entries@[i].1@ by {
                        if i < p {
                            assert(self.entries@[i] == old_entries[i]);
                        } else {
                            assert(self.entries@[i] == old_entries[i + 1]);
                        }
                    }
                    assert forall|i: int, j: int| 0 <= i < j < self.entries.len() implies self.entries@[i].0@
                        != self.entries@[j].0@ by {
                        let oi = if i < p { i } else { i + 1 };
                        let oj = if j < p { j } else { j + 1 };
                        assert(self.entries@[i] == old_entries[oi]);
                        assert(self.entries@[j] == old_entries[oj]);
                    }
                    assert forall|s: Seq<char>| self.contents@.contains_key(s) implies exists|i: int|
                        0 <= i < self.entries.len() && #[trigger] self.entries@[i].0@ == s by {
                        let m = choose|m: int| 0 <= m < old_entries.len() && #[trigger] old_entries[m].0@ == s;
                        if m < p {
                            assert(self.entries@[m] == old_entries[m]);
                        } else {
                            assert(m != p);
                            assert(self.entries@[m - 1] == old_entries[m]);
                        }
                    }
                }
                Some(entry.1)
            },
        }
    }
}

} // verus!
