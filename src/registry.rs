//! One-time-use sets of field elements: the nullifier and public-blinder registries.

use vstd::prelude::*;

use crate::scalar::Scalar;

verus! {

/// A set of field elements that only grows.
pub struct ScalarSet {
    items: Vec<Scalar>,
}

impl View for ScalarSet {
    type V = Set<Scalar>;

    closed spec fn view(&self) -> Set<Scalar> {
        Set::new(|x: Scalar| self.items@.contains(x))
    }
}

impl ScalarSet {
    /// The empty set.
    pub fn new() -> (r: ScalarSet)
        ensures
            r@ == Set::<Scalar>::empty(),
    {
        let r = ScalarSet { items: Vec::new() };
        assert(r@ =~= Set::<Scalar>::empty());
        r
    }

    /// Whether `x` is in the set.
    pub fn contains(&self, x: Scalar) -> (r: bool)
        ensures
            r == self@.contains(x),
    {
        let mut i: usize = 0;
        while i < self.items.len()
            invariant
                i <= self.items@.len(),
                forall|j: int| 0 <= j < i ==> self.items@[j] != x,
            decreases self.items@.len() - i,
        {
            if self.items[i] == x {
                assert(self.items@[i as int] == x);
                return true;
            }
            i += 1;
        }
        false
    }

    /// Adds `x` to the set.
    pub fn insert(&mut self, x: Scalar)
        ensures
            final(self)@ == old(self)@.insert(x),
    {
        self.items.push(x);
        proof {
            let s = self.items@;
            assert forall|y: Scalar| s.contains(y) <==> (old(self).items@.contains(y) || y == x) by {
                if old(self).items@.contains(y) {
                    let j = choose|j: int| 0 <= j < old(self).items@.len() && old(self).items@[j] == y;
                    assert(s[j] == y);
                }
                if y == x {
                    assert(s[s.len() - 1] == y);
                }
                if s.contains(y) {
                    let j = choose|j: int| 0 <= j < s.len() && s[j] == y;
                    if j < s.len() - 1 {
                        assert(old(self).items@[j] == y);
                    }
                }
            }
        }
        assert(self@ =~= old(self)@.insert(x));
    }

    /// A copy of the set.
    pub fn duplicate(&self) -> (r: ScalarSet)
        ensures
            r@ == self@,
    {
        let mut items: Vec<Scalar> = Vec::new();
        let mut i: usize = 0;
        while i < self.items.len()
            invariant
                i <= self.items@.len(),
                items@ == self.items@.subrange(0, i as int),
            decreases self.items@.len() - i,
        {
            items.push(self.items[i]);
            i += 1;
            assert(items@ =~= self.items@.subrange(0, i as int));
        }
        assert(items@ =~= self.items@);
        ScalarSet { items }
    }
}

} // verus!
