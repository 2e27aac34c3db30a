//! The per-subject mention map: one mention for each content identifier.

use vstd::prelude::*;
use crate::types::{FinalMention, MentionModel};

verus! {

/// Mentions keyed by content identifier. No identifier occurs twice.
#[derive(Debug)]
pub struct MentionMap {
    entries: Vec<(String, FinalMention)>,
}

impl MentionMap {
    /// The position of the entry for `cid`, if there is one.
    pub closed spec fn position(self, cid: Seq<char>) -> int {
        choose|i: int| 0 <= i < self.entries@.len() && (#[trigger] self.entries@[i]).0@ == cid
    }

    /// Whether there is an entry for `cid`.
    pub closed spec fn has(self, cid: Seq<char>) -> bool {
        exists|i: int| 0 <= i < self.entries@.len() && (#[trigger] self.entries@[i]).0@ == cid
    }

    /// No identifier occurs twice.
    pub closed spec fn wf(self) -> bool {
        forall|i: int, j: int|
            0 <= i < j < self.entries@.len() ==> (#[trigger] self.entries@[i]).0@ != (
            #[trigger] self.entries@[j]).0@
    }

    /// The map as a mathematical value.
    pub closed spec fn model(self) -> Map<Seq<char>, MentionModel> {
        Map::new(
            |cid: Seq<char>| self.has(cid),
            |cid: Seq<char>| self.entries@[self.position(cid)].1@,
        )
    }

    /// An empty map.
    pub fn new() -> (r: MentionMap)
        ensures
            r.wf(),
            r.model() == Map::<Seq<char>, MentionModel>::empty(),
    {
        let r = MentionMap { entries: Vec::new() };
        assert(r.model() =~= Map::<Seq<char>, MentionModel>::empty());
        r
    }

    fn find(&self, cid: &String) -> (r: Option<usize>)
        ensures
            match r {
                Some(i) => i < self.entries@.len() && self.entries@[i as int].0@ == cid@,
                None => !self.has(cid@),
            },
    {
        let mut i: usize = 0;
        while i < self.entries.len()
            invariant
                i <= self.entries.len(),
                forall|j: int| 0 <= j < i ==> (#[trigger] self.entries@[j]).0@ != cid@,
            decreases self.entries.len() - i,
        {
            if self.entries[i].0 == *cid {
                return Some(i);
            }
            i += 1;
        }
        None
    }

    /// The mention stored for `cid`.
    pub fn get(&self, cid: &String) -> (r: Option<&FinalMention>)
        requires
            self.wf(),
        ensures
            match r {
                Some(m) => self.model().contains_key(cid@) && self.model()[cid@] == m@,
                None => !self.model().contains_key(cid@),
            },
    {
        match self.find(cid) {
            Some(i) => {
                assert(self.has(cid@));
                Some(&self.entries[i].1)
            },
            None => None,
        }
    }

    /// Writes the mention for `cid`: a new entry, or in place of the one that
    /// was there. Every other entry stays as it was.
    pub fn upsert(&mut self, cid: String, mention: FinalMention)
        requires
            old(self).wf(),
        ensures
            final(self).wf(),
            final(self).model() == old(self).model().insert(cid@, mention@),
            forall|other: Seq<char>|
                other != cid@ ==> (#[trigger] final(self).model().contains_key(other))
                    == old(self).model().contains_key(other),
            forall|other: Seq<char>|
                other != cid@ && old(self).model().contains_key(other)
                    ==> #[trigger] final(self).model()[other] == old(self).model()[other],
    {
        let ghost before = *self;
        let found = self.find(&cid);
        let ghost at: int = match found {
            Some(i) => i as int,
            None => before.entries@.len() as int,
        };
        match found {
            Some(i) => {
                self.entries[i] = (cid, mention);
            },
            None => {
                self.entries.push((cid, mention));
            },
        }
        proof {
            let after = *self;
            assert(after.entries@[at].0@ == cid@);
            assert forall|i: int| 0 <= i < after.entries@.len() && i != at implies 0 <= i
                < before.entries@.len() && #[trigger] after.entries@[i] == before.entries@[i] by {}
            assert forall|i: int| 0 <= i < before.entries@.len() && i != at implies 0 <= i
                < after.entries@.len() && after.entries@[i] == #[trigger] before.entries@[i] by {}
            assert forall|i: int| 0 <= i < after.entries@.len() && i != at implies (
            #[trigger] after.entries@[i]).0@ != cid@ by {
                assert(after.entries@[i] == before.entries@[i]);
                if found.is_some() {
                    assert(before.entries@[at].0@ == cid@);
                } else {
                    assert(!before.has(cid@));
                }
            }
            assert(after.wf()) by {
                assert forall|i: int, j: int| 0 <= i < j < after.entries@.len() implies (
                #[trigger] after.entries@[i]).0@ != (#[trigger] after.entries@[j]).0@ by {
                    if i != at && j != at {
                        assert(after.entries@[i] == before.entries@[i]);
                        assert(after.entries@[j] == before.entries@[j]);
                    }
                }
            }
            assert forall|k: Seq<char>| after.has(k) == (k == cid@ || before.has(k)) by {
                if before.has(k) && k != cid@ {
                    let i = before.position(k);
                    assert(before.entries@[i].0@ == k);
                    assert(i != at);
                    assert(after.entries@[i].0@ == k);
                }
                if after.has(k) && k != cid@ {
                    let i = after.position(k);
                    assert(after.entries@[i].0@ == k);
                    assert(before.entries@[i].0@ == k);
                }
            }
            assert forall|k: Seq<char>| after.has(k) implies #[trigger] after.model()[k] == (if k
                == cid@ {
                mention@
            } else {
                before.model()[k]
            }) by {
                let i = after.position(k);
                assert(after.entries@[i].0@ == k);
                if k != cid@ {
                    assert(before.entries@[i].0@ == k);
                    let j = before.position(k);
                    assert(before.entries@[j].0@ == k);
                    assert(i == j);
                } else {
                    assert(i == at);
                }
            }
            assert(after.model() =~= before.model().insert(cid@, mention@));
        }
    }
}

} // verus!
