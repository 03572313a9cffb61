//! Interest sets: the readiness conditions that a registration asks the
//! notifier to watch for.

use vstd::prelude::*;

verus! {

/// A condition of a handle that the notifier can report.
#[derive(Clone, Copy, Debug, PartialEq, Eq, Structural, Hash)]
pub enum Readiness {
    /// The handle can be read from.
    Readable,
    /// The handle can be written to.
    Writable,
}

/// A set of readiness conditions that is never empty: a registration always
/// asks for something.
#[derive(Clone, Copy, Debug, PartialEq, Eq, Structural, Hash)]
pub struct Interest {
    bits: u8,
}

const READABLE_BIT: u8 = 1;

const WRITABLE_BIT: u8 = 2;

/// The bit that stands for a condition.
spec fn bit_of(condition: Readiness) -> u8 {
    match condition {
        Readiness::Readable => READABLE_BIT,
        Readiness::Writable => WRITABLE_BIT,
    }
}

impl View for Interest {
    type V = Set<Readiness>;

    /// The conditions in the set.
    closed spec fn view(&self) -> Set<Readiness> {
        Set::new(|condition: Readiness| self.bits & bit_of(condition) != 0)
    }
}

impl Interest {
    /// What holds of every interest set: some condition is in it, and no bit
    /// is set that stands for none.
    #[verifier::type_invariant]
    pub closed spec fn wf(self) -> bool {
        1 <= self.bits <= 3
    }

    /// Interest in the handle becoming readable.
    pub fn readable() -> (interest: Interest)
        ensures
            interest.wf(),
            interest@ == set![Readiness::Readable],
    {
        let interest = Interest { bits: READABLE_BIT };
        proof {
            assert(1u8 & 1u8 != 0 && 1u8 & 2u8 == 0) by (bit_vector);
            assert(interest@ =~= set![Readiness::Readable]);
        }
        interest
    }

    /// Interest in the handle becoming writable.
    pub fn writable() -> (interest: Interest)
        ensures
            interest.wf(),
            interest@ == set![Readiness::Writable],
    {
        let interest = Interest { bits: WRITABLE_BIT };
        proof {
            assert(2u8 & 1u8 == 0 && 2u8 & 2u8 != 0) by (bit_vector);
            assert(interest@ =~= set![Readiness::Writable]);
        }
        interest
    }

    /// The conditions of both sets.
    pub fn union(self, other: Interest) -> (interest: Interest)
        ensures
            interest.wf(),
            interest@ == self@.union(other@),
    {
        proof {
            use_type_invariant(&self);
            use_type_invariant(&other);
        }
        let a: u8 = self.bits;
        let b: u8 = other.bits;
        proof {
            assert(1 <= a <= 3 && 1 <= b <= 3 ==> 1 <= (a | b) <= 3) by (bit_vector);
        }
        let interest = Interest { bits: a | b };
        proof {
            assert(((a | b) & 1u8 != 0) == (a & 1u8 != 0 || b & 1u8 != 0)) by (bit_vector);
            assert(((a | b) & 2u8 != 0) == (a & 2u8 != 0 || b & 2u8 != 0)) by (bit_vector);
            assert(interest@ =~= self@.union(other@));
        }
        interest
    }

    /// The conditions of this set that are not in `other`; `None` when none
    /// is left, because an interest set is never empty.
    pub fn remove(self, other: Interest) -> (rest: Option<Interest>)
        ensures
            rest is None <==> self@.subset_of(other@),
            rest matches Some(interest) ==> interest.wf() && interest@ == self@.difference(other@),
    {
        proof {
            use_type_invariant(&self);
            use_type_invariant(&other);
        }
        let a: u8 = self.bits;
        let b: u8 = other.bits;
        let left: u8 = a & !b;
        proof {
            assert(1 <= a <= 3 ==> (a & !b) <= 3) by (bit_vector);
            assert(((a & !b) & 1u8 != 0) == (a & 1u8 != 0 && b & 1u8 == 0)) by (bit_vector);
            assert(((a & !b) & 2u8 != 0) == (a & 2u8 != 0 && b & 2u8 == 0)) by (bit_vector);
            assert((a & !b) <= 3 ==> ((a & !b) == 0 <==> ((a & !b) & 1u8 == 0 && (a & !b) & 2u8
                == 0))) by (bit_vector);
        }
        if left == 0 {
            None
        } else {
            let interest = Interest { bits: left };
            proof {
                assert(interest@ =~= self@.difference(other@));
                if left & 1u8 != 0 {
                    assert(self@.contains(Readiness::Readable) && !other@.contains(
                        Readiness::Readable,
                    ));
                } else {
                    assert(self@.contains(Readiness::Writable) && !other@.contains(
                        Readiness::Writable,
                    ));
                }
            }
            Some(interest)
        }
    }

    /// Whether the set asks for the handle becoming readable.
    pub fn is_readable(&self) -> (b: bool)
        ensures
            b == self@.contains(Readiness::Readable),
    {
        self.bits & READABLE_BIT != 0
    }

    /// Whether the set asks for the handle becoming writable.
    pub fn is_writable(&self) -> (b: bool)
        ensures
            b == self@.contains(Readiness::Writable),
    {
        self.bits & WRITABLE_BIT != 0
    }

    /// An interest set holds at least one condition, and only conditions that
    /// exist.
    pub proof fn lemma_never_empty(self)
        requires
            self.wf(),
        ensures
            self@.contains(Readiness::Readable) || self@.contains(Readiness::Writable),
            self@.finite(),
            1 <= self@.len() <= 2,
    {
        let a: u8 = self.bits;
        assert(1 <= a <= 3 ==> (a & 1u8 != 0 || a & 2u8 != 0)) by (bit_vector);
        let both = set![Readiness::Readable, Readiness::Writable];
        assert(self@.subset_of(both));
        vstd::set_lib::lemma_len_subset(self@, both);
        assert(both.len() == 2) by {
            assert(both =~= Set::<Readiness>::empty().insert(Readiness::Readable).insert(
                Readiness::Writable,
            ));
        }
    }
}

} // verus!
