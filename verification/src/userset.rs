//! A deduplicated set of usernames, the data every other component works on.

use vstd::prelude::*;

verus! {

broadcast use vstd::seq_lib::lemma_seq_contains_after_push;

/// A set of usernames. Usernames are opaque, case-sensitive strings; the
/// collection holds each at most once, whatever order they arrived in.
pub struct UserSet {
    names: Vec<String>,
}

impl View for UserSet {
    type V = Set<Seq<char>>;

    /// The mathematical set of usernames held.
    closed spec fn view(&self) -> Set<Seq<char>> {
        Set::new(|name: Seq<char>| self.names.deep_view().contains(name))
    }
}

impl UserSet {
    /// The usernames in insertion order.
    pub closed spec fn seq(&self) -> Seq<Seq<char>> {
        self.names.deep_view()
    }

    /// No username occurs twice.
    pub closed spec fn wf(&self) -> bool {
        forall|i: int, j: int|
            0 <= i < j < self.names.deep_view().len() ==> self.names.deep_view()[i]
                != self.names.deep_view()[j]
    }

    /// Membership in the set is membership in the underlying order.
    pub proof fn lemma_view_is_seq(&self, name: Seq<char>)
        ensures
            self@.contains(name) <==> self.seq().contains(name),
    {
    }

    pub fn new() -> (r: UserSet)
        ensures
            r.wf(),
            r@ == Set::<Seq<char>>::empty(),
            r.seq() == Seq::<Seq<char>>::empty(),
    {
        let r = UserSet { names: Vec::new() };
        proof {
            assert(r.seq() =~= Seq::<Seq<char>>::empty());
            assert(r@ =~= Set::<Seq<char>>::empty());
        }
        r
    }

    pub fn len(&self) -> (n: usize)
        ensures
            n == self.seq().len(),
            self.wf() ==> self@.finite() && n == self@.len(),
    {
        proof {
            if self.wf() {
                assert(self@ =~= self.names.deep_view().to_set());
                assert(self.names.deep_view().no_duplicates());
                self.names.deep_view().unique_seq_to_set();
            }
        }
        self.names.len()
    }

    pub fn is_empty(&self) -> (r: bool)
        ensures
            r == (self.seq().len() == 0),
            r == self@.is_empty(),
    {
        proof {
            if self.seq().len() == 0 {
                assert(self@ =~= Set::<Seq<char>>::empty());
            } else {
                assert(self@.contains(self.seq()[0]));
            }
        }
        self.names.len() == 0
    }

    pub fn contains(&self, name: &String) -> (r: bool)
        ensures
            r == self@.contains(name@),
            r == self.seq().contains(name@),
    {
        let n = self.names.len();
        let mut i: usize = 0;
        while i < n
            invariant
                n == self.names.len(),
                i <= n,
                forall|k: int| 0 <= k < i ==> self.names.deep_view()[k] != name@,
            decreases n - i,
        {
            if self.names[i] == *name {
                proof {
                    assert(self.names.deep_view()[i as int] == name@);
                }
                return true;
            }
            i += 1;
        }
        false
    }

    pub fn insert(&mut self, name: String)
        requires
            old(self).wf(),
        ensures
            final(self).wf(),
            final(self)@ == old(self)@.insert(name@),
            old(self)@.contains(name@) ==> final(self).seq() == old(self).seq(),
            !old(self)@.contains(name@) ==> final(self).seq() == old(self).seq().push(name@),
    {
        if !self.contains(&name) {
            self.names.push(name);
            proof {
                assert(self.seq() =~= old(self).seq().push(name@));
                assert(self@ =~= old(self)@.insert(name@));
            }
        } else {
            proof {
                assert(self@ =~= old(self)@.insert(name@));
            }
        }
    }

    /// All usernames of `self` that are not in `other`, in the order `self`
    /// holds them.
    pub fn difference(&self, other: &UserSet) -> (r: UserSet)
        requires
            self.wf(),
        ensures
            r.wf(),
            r@ == self@.difference(other@),
    {
        let n = self.names.len();
        let mut r = UserSet::new();
        let mut i: usize = 0;
        while i < n
            invariant
                n == self.names.len(),
                i <= n,
                self.wf(),
                r.wf(),
                forall|x: Seq<char>|
                    r@.contains(x) <==> (self.seq().take(i as int).contains(x) && !other@.contains(
                        x,
                    )),
            decreases n - i,
        {
            proof {
                assert(self.seq().take(i as int + 1) =~= self.seq().take(i as int).push(
                    self.seq()[i as int],
                ));
            }
            if !other.contains(&self.names[i]) {
                r.insert(self.names[i].clone());
            }
            i += 1;
        }
        proof {
            assert(self.seq().take(n as int) =~= self.seq());
            assert(r@ =~= self@.difference(other@));
        }
        r
    }

    /// The usernames as a plain vector, for iteration by a caller.
    pub fn as_vec(&self) -> (v: &Vec<String>)
        ensures
            v.deep_view() == self.seq(),
    {
        &self.names
    }
}

} // verus!
