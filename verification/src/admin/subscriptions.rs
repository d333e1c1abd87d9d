//! The relay subscriptions an admin context waits for before it counts as
//! loaded.

use vstd::prelude::*;
use crate::model::strings_view;

verus! {

/// The ids of the subscriptions whose end has not been seen yet.
#[derive(Clone, Debug)]
pub struct PendingSubscriptions {
    ids: Vec<String>,
}

impl View for PendingSubscriptions {
    type V = Set<Seq<char>>;

    closed spec fn view(&self) -> Set<Seq<char>> {
        strings_view(self.ids@).to_set()
    }
}

impl PendingSubscriptions {
    /// No id is kept twice.
    pub closed spec fn wf(&self) -> bool {
        strings_view(self.ids@).no_duplicates()
    }

    /// Waiting for nothing.
    pub fn new() -> (r: Self)
        ensures
            r.wf(),
            r@ == Set::<Seq<char>>::empty(),
    {
        let r = PendingSubscriptions { ids: Vec::new() };
        assert(r@ =~= Set::<Seq<char>>::empty());
        r
    }

    /// The position of `id`, if it is pending.
    fn position(&self, id: &String) -> (r: Option<usize>)
        ensures
            match r {
                Some(i) => i < self.ids@.len() && self.ids@[i as int]@ == id@,
                None => !strings_view(self.ids@).contains(id@),
            },
    {
        let mut i: usize = 0;
        while i < self.ids.len()
            invariant
                i <= self.ids@.len(),
                forall|j: int| 0 <= j < i ==> #[trigger] self.ids@[j]@ != id@,
            decreases self.ids.len() - i,
        {
            if self.ids[i].eq(id) {
                return Some(i);
            }
            i += 1;
        }
        proof {
            if strings_view(self.ids@).contains(id@) {
                let j = choose|j: int| 0 <= j < strings_view(self.ids@).len() && strings_view(self.ids@)[j] == id@;
                assert(self.ids@[j]@ == id@);
            }
        }
        None
    }

    /// Starts waiting for the subscription `id`.
    pub fn insert(&mut self, id: String)
        requires
            old(self).wf(),
        ensures
            final(self).wf(),
            final(self)@ == old(self)@.insert(id@),
    {
        let ghost before = strings_view(self.ids@);
        match self.position(&id) {
            Some(i) => {
                assert(before[i as int] == id@);
                assert(before.contains(id@));
                assert(self@ =~= before.to_set().insert(id@));
            },
            None => {
                self.ids.push(id);
                proof {
                    let after = strings_view(self.ids@);
                    assert(after =~= before.push(id@));
                    assert forall|a: int, b: int| 0 <= a < after.len() && 0 <= b < after.len() && a != b
                        implies after[a] != after[b] by {
                        if a < before.len() && b < before.len() {
                        } else if a == before.len() {
                            assert(before.contains(after[b]) || b == a);
                        } else {
                            assert(before.contains(after[a]) || a == b);
                        }
                    }
                    assert(self@ =~= before.to_set().insert(id@)) by {
                        assert forall|s: Seq<char>| self@.contains(s) <==> before.to_set().insert(id@).contains(s) by {
                            if self@.contains(s) {
                                let j = choose|j: int| 0 <= j < after.len() && after[j] == s;
                                if j < before.len() {
                                    assert(before[j] == s);
                                }
                            }
                            if before.contains(s) {
                                let j = choose|j: int| 0 <= j < before.len() && before[j] == s;
                                assert(after[j] == s);
                            }
                            if s == id@ {
                                assert(after[before.len() as int] == s);
                            }
                        }
                    }
                }
            },
        }
    }

    /// Records the end of the subscription `id`: it is no longer pending.
    /// The result tells whether this ended the last pending subscription,
    /// which is when the context has finished loading.
    pub fn end(&mut self, id: &String) -> (finished: bool)
        requires
            old(self).wf(),
        ensures
            final(self).wf(),
            final(self)@ == old(self)@.remove(id@),
            finished == (old(self)@.contains(id@) && final(self)@ == Set::<Seq<char>>::empty()),
    {
        let ghost before = strings_view(self.ids@);
        match self.position(id) {
            Some(i) => {
                self.ids.remove(i);
                let finished = self.ids.len() == 0;
                proof {
                    let after = strings_view(self.ids@);
                    assert(after =~= before.remove(i as int));
                    assert(before[i as int] == id@);
                    assert(before.contains(id@));
                    assert(old(self)@.contains(id@));
                    assert(self@ =~= before.to_set().remove(id@)) by {
                        assert forall|s: Seq<char>| self@.contains(s) <==> before.to_set().remove(id@).contains(s) by {
                            if self@.contains(s) {
                                let j = choose|j: int| 0 <= j < after.len() && after[j] == s;
                                if j < i {
                                    assert(before[j] == s);
                                    assert(j != i);
                                } else {
                                    assert(before[j + 1] == s);
                                    assert(j + 1 != i);
                                }
                            }
                            if before.contains(s) && s != id@ {
                                let j = choose|j: int| 0 <= j < before.len() && before[j] == s;
                                assert(j != i);
                                if j < i {
                                    assert(after[j] == s);
                                } else {
                                    assert(after[j - 1] == s);
                                }
                            }
                        }
                    }
                    if after.len() > 0 {
                        assert(self@.contains(after[0]));
                    } else {
                        assert(self@ =~= Set::<Seq<char>>::empty());
                    }
                }
                finished
            },
            None => {
                proof {
                    assert(!old(self)@.contains(id@));
                    assert(self@ =~= old(self)@.remove(id@));
                }
                false
            },
        }
    }

    /// Whether no subscription is pending.
    pub fn is_empty(&self) -> (r: bool)
        ensures
            r == (self@ == Set::<Seq<char>>::empty()),
    {
        proof {
            if self.ids@.len() > 0 {
                assert(self@.contains(strings_view(self.ids@)[0]));
            } else {
                assert(self@ =~= Set::<Seq<char>>::empty());
            }
        }
        self.ids.len() == 0
    }
}

} // verus!
