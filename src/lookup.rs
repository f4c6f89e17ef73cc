//! The identifier lookup: normalized codes mapped to recipient identifiers.
use vstd::prelude::*;

verus! {

/// A mapping from codes to recipient identifiers, with unique keys.
pub struct Lookup {
    entries: Vec<(String, String)>,
    contents: Ghost<Map<Seq<char>, Seq<char>>>,
}

impl View for Lookup {
    type V = Map<Seq<char>, Seq<char>>;

    closed spec fn view(&self) -> Map<Seq<char>, Seq<char>> {
        self.contents@
    }
}

impl Lookup {
    /// The entries hold each key once, and hold exactly the keys of the view,
    /// each with its mapped value.
    pub closed spec fn wf(&self) -> bool {
        &&& forall|i: int, j: int|
            0 <= i < self.entries.len() && 0 <= j < self.entries.len() && self.entries@[i].0@ == self.entries@[j].0@ ==> i == j
        &&& forall|i: int| 0 <= i < self.entries.len() ==>
            #[trigger] self.contents@.contains_key(self.entries@[i].0@) && self.contents@[self.entries@[i].0@] == self.entries@[i].1@
        &&& forall|k: Seq<char>| #[trigger] self.contents@.contains_key(k) ==>
            exists|i: int| 0 <= i < self.entries.len() && self.entries@[i].0@ == k
        &&& self.contents@.dom().finite()
        &&& self.contents@.len() == self.entries.len()
    }

    /// An empty lookup.
    pub fn new() -> (r: Lookup)
        ensures
            r.wf(),
            r@ == Map::<Seq<char>, Seq<char>>::empty(),
    {
        Lookup { entries: Vec::new(), contents: Ghost(Map::empty()) }
    }

    /// Position of `key` among the entries, if it is there.
    fn position(&self, key: &String) -> (r: Option<usize>)
        requires
            self.wf(),
        ensures
            match r {
                Some(i) => i < self.entries.len() && self.entries@[i as int].0@ == key@,
                None => !self@.contains_key(key@),
            },
    {
        let mut i: usize = 0;
        while i < self.entries.len()
            invariant
                self.wf(),
                i <= self.entries.len(),
                forall|j: int| 0 <= j < i ==> self.entries@[j].0@ != key@,
            decreases self.entries.len() - i,
        {
            if self.entries[i].0 == *key {
                return Some(i);
            }
            i += 1;
        }
        None
    }

    /// The identifier mapped to `key`, if any.
    pub fn get(&self, key: &String) -> (r: Option<String>)
        requires
            self.wf(),
        ensures
            match r {
                Some(v) => self@.contains_key(key@) && v@ == self@[key@],
                None => !self@.contains_key(key@),
            },
    {
        match self.position(key) {
            Some(i) => {
                assert(self.contents@.contains_key(self.entries@[i as int].0@));
                Some(self.entries[i].1.clone())
            },
            None => None,
        }
    }

    /// Maps `key` to `value`; a later insert of a key replaces the earlier value.
    pub fn insert(&mut self, key: String, value: String)
        requires
            old(self).wf(),
        ensures
            final(self).wf(),
            final(self)@ == old(self)@.insert(key@, value@),
    {
        match self.position(&key) {
            Some(i) => {
                let ghost k = key@;
                let ghost v = value@;
                let ghost pre = self.entries@;
                self.entries.set(i, (key, value));
                self.contents = Ghost(self.contents@.insert(k, v));
                assert(self.contents@.dom() =~= old(self).contents@.dom());
                assert forall|kk: Seq<char>| #[trigger] self.contents@.contains_key(kk) implies
                    exists|j: int| 0 <= j < self.entries.len() && self.entries@[j].0@ == kk by {
                    let j = choose|j: int| 0 <= j < pre.len() && pre[j].0@ == kk;
                    assert(self.entries@[j].0@ == kk);
                }
            },
            None => {
                let ghost k = key@;
                let ghost v = value@;
                let ghost pre = self.entries@;
                self.entries.push((key, value));
                self.contents = Ghost(self.contents@.insert(k, v));
                assert forall|kk: Seq<char>| #[trigger] self.contents@.contains_key(kk) implies
                    exists|j: int| 0 <= j < self.entries.len() && self.entries@[j].0@ == kk by {
                    if kk == k {
                        assert(self.entries@[pre.len() as int].0@ == kk);
                    } else {
                        let j = choose|j: int| 0 <= j < pre.len() && pre[j].0@ == kk;
                        assert(self.entries@[j].0@ == kk);
                    }
                }
                assert forall|a: int| 0 <= a < pre.len() implies self.entries@[a].0@ != k by {
                    assert(self.entries@[a] == pre[a]);
                    assert(old(self).contents@.contains_key(pre[a].0@));
                }
            },
        }
    }

    /// The number of keys.
    pub fn len(&self) -> (r: usize)
        requires
            self.wf(),
        ensures
            r == self@.len(),
    {
        self.entries.len()
    }
}

} // verus!
