//! Comparing settings by value.
use crate::float_bits::FloatBits;
use vstd::prelude::*;

verus! {

/// A value that can be compared with another of its type.
///
/// Settings may hold numbers that equal nothing, not even themselves, so a value need not be the
/// same as itself.
pub trait Same: Sized {
    /// Whether two values are equal.
    spec fn same(&self, other: &Self) -> bool;

    /// Whether no part of the value is a number that equals nothing.
    spec fn comparable(&self) -> bool;

    /// Equality does not depend on the order.
    proof fn lemma_symmetric(&self, other: &Self)
        ensures
            self.same(other) == other.same(self),
    ;

    /// A value equals itself exactly if it is comparable.
    proof fn lemma_reflexive(&self)
        ensures
            self.same(self) == self.comparable(),
    ;

    fn is_same(&self, other: &Self) -> (same: bool)
        ensures
            same == self.same(other),
    ;
}

impl Same for bool {
    open spec fn same(&self, other: &Self) -> bool {
        *self == *other
    }

    open spec fn comparable(&self) -> bool {
        true
    }

    proof fn lemma_symmetric(&self, other: &Self) {
    }

    proof fn lemma_reflexive(&self) {
    }

    fn is_same(&self, other: &Self) -> (same: bool) {
        *self == *other
    }
}

impl Same for i32 {
    open spec fn same(&self, other: &Self) -> bool {
        *self == *other
    }

    open spec fn comparable(&self) -> bool {
        true
    }

    proof fn lemma_symmetric(&self, other: &Self) {
    }

    proof fn lemma_reflexive(&self) {
    }

    fn is_same(&self, other: &Self) -> (same: bool) {
        *self == *other
    }
}

impl Same for u64 {
    open spec fn same(&self, other: &Self) -> bool {
        *self == *other
    }

    open spec fn comparable(&self) -> bool {
        true
    }

    proof fn lemma_symmetric(&self, other: &Self) {
    }

    proof fn lemma_reflexive(&self) {
    }

    fn is_same(&self, other: &Self) -> (same: bool) {
        *self == *other
    }
}

impl Same for String {
    open spec fn same(&self, other: &Self) -> bool {
        self@ == other@
    }

    open spec fn comparable(&self) -> bool {
        true
    }

    proof fn lemma_symmetric(&self, other: &Self) {
    }

    proof fn lemma_reflexive(&self) {
    }

    fn is_same(&self, other: &Self) -> (same: bool) {
        *self == *other
    }
}

impl Same for FloatBits {
    open spec fn same(&self, other: &Self) -> bool {
        self.equals(*other)
    }

    open spec fn comparable(&self) -> bool {
        !self.is_nan()
    }

    proof fn lemma_symmetric(&self, other: &Self) {
    }

    proof fn lemma_reflexive(&self) {
    }

    fn is_same(&self, other: &Self) -> (same: bool) {
        self.equal(other)
    }
}

impl<T: Same> Same for Option<T> {
    open spec fn same(&self, other: &Self) -> bool {
        match (*self, *other) {
            (Some(left), Some(right)) => left.same(&right),
            (None, None) => true,
            _ => false,
        }
    }

    open spec fn comparable(&self) -> bool {
        match *self {
            Some(inner) => inner.comparable(),
            None => true,
        }
    }

    proof fn lemma_symmetric(&self, other: &Self) {
        match (*self, *other) {
            (Some(left), Some(right)) => left.lemma_symmetric(&right),
            _ => {},
        }
    }

    proof fn lemma_reflexive(&self) {
        match *self {
            Some(inner) => inner.lemma_reflexive(),
            None => {},
        }
    }

    fn is_same(&self, other: &Self) -> (same: bool) {
        match (self, other) {
            (Some(left), Some(right)) => left.is_same(right),
            (None, None) => true,
            _ => false,
        }
    }
}

impl<T: Same> Same for Vec<T> {
    open spec fn same(&self, other: &Self) -> bool {
        &&& self@.len() == other@.len()
        &&& forall|i: int| 0 <= i < self@.len() ==> (#[trigger] self@[i]).same(&other@[i])
    }

    open spec fn comparable(&self) -> bool {
        forall|i: int| 0 <= i < self@.len() ==> (#[trigger] self@[i]).comparable()
    }

    proof fn lemma_symmetric(&self, other: &Self) {
        if self@.len() == other@.len() {
            assert forall|i: int| 0 <= i < self@.len() implies (#[trigger] self@[i]).same(&other@[i])
                == other@[i].same(&self@[i]) by {
                self@[i].lemma_symmetric(&other@[i]);
            }
            if self.same(other) {
                assert forall|i: int| 0 <= i < other@.len() implies (#[trigger] other@[i]).same(
                    &self@[i],
                ) by {
                    assert(self@[i].same(&other@[i]));
                }
            }
            if other.same(self) {
                assert forall|i: int| 0 <= i < self@.len() implies (#[trigger] self@[i]).same(
                    &other@[i],
                ) by {
                    assert(other@[i].same(&self@[i]));
                }
            }
        }
    }

    proof fn lemma_reflexive(&self) {
        assert forall|i: int| 0 <= i < self@.len() implies (#[trigger] self@[i]).same(&self@[i])
            == self@[i].comparable() by {
            self@[i].lemma_reflexive();
        }
    }

    fn is_same(&self, other: &Self) -> (same: bool) {
        if self.len() != other.len() {
            return false;
        }
        let mut idx: usize = 0;
        while idx < self.len()
            invariant
                idx <= self@.len(),
                self@.len() == other@.len(),
                forall|i: int| 0 <= i < idx ==> (#[trigger] self@[i]).same(&other@[i]),
            decreases self@.len() - idx,
        {
            if !self[idx].is_same(&other[idx]) {
                return false;
            }
            idx = idx + 1;
        }
        true
    }
}

} // verus!
