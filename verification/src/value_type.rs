//! The kinds a value can present as, and sets of them.

use vstd::prelude::*;

verus! {

/// A runtime kind of value.
#[derive(Clone, Copy, PartialEq, Eq, Structural, Debug)]
pub enum ValueType {
    String,
    Boolean,
    Number,
    Array,
    Object,
    Event,
    Exception,
    User,
}

impl ValueType {
    /// The bit that stands for this kind in a set.
    pub open spec fn spec_mask(self) -> u16 {
        match self {
            ValueType::String => 1u16,
            ValueType::Boolean => 2u16,
            ValueType::Number => 4u16,
            ValueType::Array => 8u16,
            ValueType::Object => 16u16,
            ValueType::Event => 32u16,
            ValueType::Exception => 64u16,
            ValueType::User => 128u16,
        }
    }

    /// The bit that stands for this kind in a set.
    #[verifier::when_used_as_spec(spec_mask)]
    pub fn mask(self) -> (r: u16)
        ensures
            r == self.spec_mask(),
    {
        match self {
            ValueType::String => 1u16,
            ValueType::Boolean => 2u16,
            ValueType::Number => 4u16,
            ValueType::Array => 8u16,
            ValueType::Object => 16u16,
            ValueType::Event => 32u16,
            ValueType::Exception => 64u16,
            ValueType::User => 128u16,
        }
    }
}

/// All bits that stand for a kind.
pub const ALL_KINDS: u16 = 255u16;

/// A set of value kinds, held as one bit per kind.
#[derive(Clone, Copy, PartialEq, Eq, Structural, Debug)]
pub struct ValueTypeSet {
    bits: u16,
}

proof fn lemma_mask(t: ValueType)
    ensures
        t.spec_mask() != 0,
        t.spec_mask() & !ALL_KINDS == 0,
{
    assert(1u16 & !255u16 == 0 && 2u16 & !255u16 == 0 && 4u16 & !255u16 == 0 && 8u16 & !255u16
        == 0 && 16u16 & !255u16 == 0 && 32u16 & !255u16 == 0 && 64u16 & !255u16 == 0 && 128u16
        & !255u16 == 0) by (bit_vector);
}

proof fn lemma_masks_differ(t: ValueType, u: ValueType)
    requires
        t != u,
    ensures
        t.spec_mask() & u.spec_mask() == 0,
{
    assert(1u16 & 2u16 == 0 && 1u16 & 4u16 == 0 && 1u16 & 8u16 == 0 && 1u16 & 16u16 == 0 && 1u16
        & 32u16 == 0 && 1u16 & 64u16 == 0 && 1u16 & 128u16 == 0 && 2u16 & 4u16 == 0 && 2u16 & 8u16
        == 0 && 2u16 & 16u16 == 0 && 2u16 & 32u16 == 0 && 2u16 & 64u16 == 0 && 2u16 & 128u16 == 0
        && 4u16 & 8u16 == 0 && 4u16 & 16u16 == 0 && 4u16 & 32u16 == 0 && 4u16 & 64u16 == 0 && 4u16
        & 128u16 == 0 && 8u16 & 16u16 == 0 && 8u16 & 32u16 == 0 && 8u16 & 64u16 == 0 && 8u16
        & 128u16 == 0 && 16u16 & 32u16 == 0 && 16u16 & 64u16 == 0 && 16u16 & 128u16 == 0 && 32u16
        & 64u16 == 0 && 32u16 & 128u16 == 0 && 64u16 & 128u16 == 0) by (bit_vector);
    let a = t.spec_mask();
    let b = u.spec_mask();
    assert(a & b == b & a) by (bit_vector);
}

proof fn lemma_single_bit(t: ValueType, a: u16, b: u16)
    ensures
        ((a & b) & t.spec_mask() != 0) <==> (a & t.spec_mask() != 0 && b & t.spec_mask() != 0),
{
    assert((((a & b) & 1 != 0) <==> (a & 1 != 0 && b & 1 != 0)) && (((a & b) & 2 != 0) <==> (a & 2
        != 0 && b & 2 != 0)) && (((a & b) & 4 != 0) <==> (a & 4 != 0 && b & 4 != 0)) && (((a & b)
        & 8 != 0) <==> (a & 8 != 0 && b & 8 != 0)) && (((a & b) & 16 != 0) <==> (a & 16 != 0 && b
        & 16 != 0)) && (((a & b) & 32 != 0) <==> (a & 32 != 0 && b & 32 != 0)) && (((a & b) & 64
        != 0) <==> (a & 64 != 0 && b & 64 != 0)) && (((a & b) & 128 != 0) <==> (a & 128 != 0 && b
        & 128 != 0))) by (bit_vector);
}

impl ValueTypeSet {
    /// The kinds in the set.
    pub closed spec fn view(&self) -> Set<ValueType> {
        Set::new(|t: ValueType| self.bits & t.spec_mask() != 0)
    }

    /// Only bits that stand for a kind are set. It holds of every set that
    /// this module hands out.
    pub closed spec fn wf(&self) -> bool {
        self.bits & !ALL_KINDS == 0
    }

    /// The empty set: no kind is expected or known.
    pub fn empty() -> (r: ValueTypeSet)
        ensures
            r@ == Set::<ValueType>::empty(),
            r.wf(),
    {
        let r = ValueTypeSet { bits: 0 };
        proof {
            assert forall|t: ValueType| !r@.contains(t) by {
                let m = t.spec_mask();
                assert(0u16 & m == 0) by (bit_vector);
            }
            assert(0u16 & !255u16 == 0) by (bit_vector);
            assert(r@ =~= Set::<ValueType>::empty());
        }
        r
    }

    /// The set that holds `kind` and nothing else.
    pub fn only(kind: ValueType) -> (r: ValueTypeSet)
        ensures
            r@ == set![kind],
            r.wf(),
    {
        let r = ValueTypeSet { bits: kind.mask() };
        proof {
            lemma_mask(kind);
            let k = kind.spec_mask();
            assert(k & k != 0) by (bit_vector)
                requires
                    k != 0,
            ;
            assert forall|t: ValueType| r@.contains(t) <==> t == kind by {
                if t != kind {
                    lemma_masks_differ(kind, t);
                }
            }
            assert(r@ =~= set![kind]);
        }
        r
    }

    /// Whether `kind` is in the set.
    pub fn contains(&self, kind: ValueType) -> (r: bool)
        ensures
            r == self@.contains(kind),
    {
        self.bits & kind.mask() != 0
    }

    /// Whether the set holds no kind.
    pub fn is_empty(&self) -> (r: bool)
        ensures
            r == (self@ == Set::<ValueType>::empty()),
    {
        proof {
            let b = self.bits;
            if b & ALL_KINDS == 0 {
                assert forall|t: ValueType| !self@.contains(t) by {
                    let m = t.spec_mask();
                    lemma_mask(t);
                    assert(b & m == 0) by (bit_vector)
                        requires
                            b & 255u16 == 0,
                            m & !255u16 == 0,
                    ;
                }
                assert(self@ =~= Set::<ValueType>::empty());
            } else {
                assert(b & 1 != 0 || b & 2 != 0 || b & 4 != 0 || b & 8 != 0 || b & 16 != 0 || b
                    & 32 != 0 || b & 64 != 0 || b & 128 != 0) by (bit_vector)
                    requires
                        b & 255u16 != 0,
                ;
                assert(self@.contains(ValueType::String) || self@.contains(ValueType::Boolean)
                    || self@.contains(ValueType::Number) || self@.contains(ValueType::Array)
                    || self@.contains(ValueType::Object) || self@.contains(ValueType::Event)
                    || self@.contains(ValueType::Exception) || self@.contains(ValueType::User));
            }
        }
        self.bits & ALL_KINDS == 0
    }

    /// The set with `kind` added.
    pub fn insert(self, kind: ValueType) -> (r: ValueTypeSet)
        ensures
            r@ == self@.insert(kind),
            self.wf() ==> r.wf(),
    {
        let r = ValueTypeSet { bits: self.bits | kind.mask() };
        proof {
            let a = self.bits;
            let k = kind.spec_mask();
            lemma_mask(kind);
            assert forall|t: ValueType| r@.contains(t) <==> (t == kind || self@.contains(t)) by {
                let m = t.spec_mask();
                if t != kind {
                    lemma_masks_differ(kind, t);
                }
                assert(((a | k) & m != 0) <==> (a & m != 0 || k & m != 0)) by (bit_vector);
                assert(k & k != 0) by (bit_vector)
                    requires
                        k != 0,
                ;
            }
            if self.wf() {
                assert((a | k) & !255u16 == 0) by (bit_vector)
                    requires
                        a & !255u16 == 0,
                        k & !255u16 == 0,
                ;
            }
            assert(r@ =~= self@.insert(kind));
        }
        r
    }

    /// The kinds that are in either set.
    pub fn union(self, other: ValueTypeSet) -> (r: ValueTypeSet)
        ensures
            r@ == self@.union(other@),
            self.wf() && other.wf() ==> r.wf(),
    {
        let r = ValueTypeSet { bits: self.bits | other.bits };
        proof {
            let a = self.bits;
            let b = other.bits;
            assert forall|t: ValueType| r@.contains(t) <==> (self@.contains(t) || other@.contains(
                t,
            )) by {
                let m = t.spec_mask();
                assert(((a | b) & m != 0) <==> (a & m != 0 || b & m != 0)) by (bit_vector);
            }
            if self.wf() && other.wf() {
                assert((a | b) & !255u16 == 0) by (bit_vector)
                    requires
                        a & !255u16 == 0,
                        b & !255u16 == 0,
                ;
            }
            assert(r@ =~= self@.union(other@));
        }
        r
    }

    /// The kinds that are in both sets.
    pub fn intersection(self, other: ValueTypeSet) -> (r: ValueTypeSet)
        ensures
            r@ == self@.intersect(other@),
            self.wf() ==> r.wf(),
    {
        let r = ValueTypeSet { bits: self.bits & other.bits };
        proof {
            let a = self.bits;
            let b = other.bits;
            assert forall|t: ValueType| r@.contains(t) <==> (self@.contains(t) && other@.contains(
                t,
            )) by {
                let m = t.spec_mask();
                lemma_single_bit(t, a, b);
            }
            if self.wf() {
                assert((a & b) & !255u16 == 0) by (bit_vector)
                    requires
                        a & !255u16 == 0,
                ;
            }
            assert(r@ =~= self@.intersect(other@));
        }
        r
    }
}

} // verus!
