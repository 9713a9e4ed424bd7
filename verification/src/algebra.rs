//! The index algebra: the runtime contract that every generated unit
//! enumeration satisfies, and the navigation operations built on it.

use vstd::prelude::*;

verus! {

/// The position one step forward in the cyclic declaration order of an
/// enumeration with `n` cases: `(i + 1) mod n`.
pub open spec fn wrap_next_index(i: nat, n: nat) -> nat
    recommends
        0 < n,
{
    (((i + 1) as int) % (n as int)) as nat
}

/// The position one step backward in the cyclic declaration order of an
/// enumeration with `n` cases: `(i + n - 1) mod n`.
pub open spec fn wrap_prev_index(i: nat, n: nat) -> nat
    recommends
        0 < n,
{
    ((i + n - 1) % (n as int)) as nat
}

/// The first case has no previous case and the last case has no next case:
/// the case at position 0 sits at position 0, so by the contract of
/// [`EnumSelect::checked_prev`] it yields absence, and the case at the top
/// position sits there, so [`EnumSelect::checked_next`] yields absence.
pub proof fn lemma_checked_stops_at_boundaries<T: EnumSelect>()
    ensures
        T::spec_case(0).spec_index() == 0,
        T::spec_case((T::spec_count() - 1) as nat).spec_index() + 1 == T::spec_count(),
{
    T::lemma_count_nonzero();
    T::lemma_index_of_case(0);
    T::lemma_index_of_case((T::spec_count() - 1) as nat);
}

/// Stepping forward from the last position wraps to the first, and stepping
/// backward from the first position wraps to the last: together with the
/// contracts of [`EnumSelect::wrapping_next`], [`EnumSelect::wrapping_prev`],
/// [`EnumSelect::first`] and [`EnumSelect::last`], the wrapping walk off
/// either end of the declaration order lands on the opposite end.
pub proof fn lemma_wrapping_at_boundaries<T: EnumSelect>()
    ensures
        wrap_next_index((T::spec_count() - 1) as nat, T::spec_count()) == 0,
        wrap_prev_index(0, T::spec_count()) == (T::spec_count() - 1) as nat,
{
    T::lemma_count_nonzero();
    let n = T::spec_count() as int;
    vstd::arithmetic::div_mod::lemma_mod_self_0(n);
    vstd::arithmetic::div_mod::lemma_small_mod((n - 1) as nat, n as nat);
}

/// Round trip through the index: converting a case to its position and the
/// position back to a case recovers the same case. In terms of the exec
/// contracts, `try_from_index(to_index(c))` is `Some(c)` for every case `c`.
pub proof fn lemma_index_round_trip<T: EnumSelect>(c: T)
    ensures
        c.spec_index() < T::spec_count(),
        T::spec_case(c.spec_index()) == c,
{
    c.lemma_index_in_range();
    c.lemma_case_of_index();
}

/// Inverse round trip: every position in the dense range names a case whose
/// position is that position. In terms of the exec contracts,
/// `to_index(try_from_index(p).unwrap())` is `p` for every `p` below the
/// case count.
pub proof fn lemma_position_round_trip<T: EnumSelect>(p: nat)
    requires
        p < T::spec_count(),
    ensures
        T::spec_case(p).spec_index() == p,
{
    T::lemma_index_of_case(p);
}

/// The contract of a unit enumeration with a dense, zero-based positional
/// representation.
///
/// The three spec functions describe the enumeration abstractly:
/// [`spec_count`](EnumSelect::spec_count) is the number of cases,
/// [`spec_index`](EnumSelect::spec_index) is the position of a case in
/// declaration order, and [`spec_case`](EnumSelect::spec_case) is the case
/// standing at a position. The four lemmas are the safety invariants the
/// shape validator establishes for generated types: the enumeration is
/// non-empty and positions in `0..spec_count()` are in one-to-one
/// correspondence with the cases.
pub trait EnumSelect: Sized {
    /// The number of cases in the enumeration.
    spec fn spec_count() -> nat;

    /// The position of this case in declaration order.
    spec fn spec_index(&self) -> nat;

    /// The case at a given position of the declaration order.
    /// Only positions below `spec_count()` are meaningful.
    spec fn spec_case(i: nat) -> Self;

    /// The enumeration has at least one case.
    proof fn lemma_count_nonzero()
        ensures
            Self::spec_count() > 0,
    ;

    /// Every case sits at a position inside the dense range.
    proof fn lemma_index_in_range(&self)
        ensures
            self.spec_index() < Self::spec_count(),
    ;

    /// A case is recovered from its own position.
    proof fn lemma_case_of_index(&self)
        ensures
            Self::spec_case(self.spec_index()) == *self,
    ;

    /// The case at a valid position sits at exactly that position.
    proof fn lemma_index_of_case(i: nat)
        requires
            i < Self::spec_count(),
        ensures
            Self::spec_case(i).spec_index() == i,
    ;

    /// The number of cases, as a machine integer.
    fn count() -> (n: usize)
        ensures
            n == Self::spec_count(),
    ;

    /// Converts a position to its case without a runtime bounds check:
    /// the caller must prove the position lies in `0..spec_count()`.
    fn from_index_unchecked(index: usize) -> (r: Self)
        requires
            index < Self::spec_count(),
        ensures
            r == Self::spec_case(index as nat),
    ;

    /// Converts a case to its position in declaration order.
    fn to_index(&self) -> (i: usize)
        ensures
            i == self.spec_index(),
    ;

    /// Converts a position to its case, if the position is in range.
    ///
    /// This is the sole sanctioned entry point for an externally supplied,
    /// unverified position: it re-establishes the range invariant before
    /// the unchecked conversion runs.
    fn try_from_index(index: usize) -> (r: Option<Self>)
        ensures
            r == if index < Self::spec_count() {
                Some(Self::spec_case(index as nat))
            } else {
                None::<Self>
            },
    {
        let n = Self::count();
        if index < n {
            Some(Self::from_index_unchecked(index))
        } else {
            None
        }
    }

    /// The first case of the declaration order.
    fn first() -> (r: Self)
        ensures
            r == Self::spec_case(0),
            r.spec_index() == 0,
    {
        proof {
            Self::lemma_count_nonzero();
            Self::lemma_index_of_case(0);
        }
        Self::try_from_index(0).unwrap()
    }

    /// The last case of the declaration order.
    fn last() -> (r: Self)
        ensures
            r == Self::spec_case((Self::spec_count() - 1) as nat),
            r.spec_index() + 1 == Self::spec_count(),
    {
        proof {
            Self::lemma_count_nonzero();
            Self::lemma_index_of_case((Self::spec_count() - 1) as nat);
        }
        let n = Self::count();
        Self::try_from_index(n - 1).unwrap()
    }

    /// The next case, wrapping back to the first case after the last one:
    /// the cyclic successor in the declaration order.
    fn wrapping_next(&self) -> (r: Self)
        ensures
            r == Self::spec_case(wrap_next_index(self.spec_index(), Self::spec_count())),
    {
        proof {
            Self::lemma_count_nonzero();
            self.lemma_index_in_range();
        }
        let i = self.to_index();
        let n = Self::count();
        Self::from_index_unchecked((i + 1) % n)
    }

    /// The previous case, wrapping around to the last case before the first
    /// one: the cyclic predecessor in the declaration order.
    fn wrapping_prev(&self) -> (r: Self)
        ensures
            r == Self::spec_case(wrap_prev_index(self.spec_index(), Self::spec_count())),
    {
        proof {
            Self::lemma_count_nonzero();
            self.lemma_index_in_range();
        }
        let i = self.to_index();
        let n = Self::count();
        // `i + n - 1` can exceed usize::MAX, so the modulus of the contract
        // is computed branchwise.
        if i == 0 {
            proof {
                vstd::arithmetic::div_mod::lemma_small_mod((n - 1) as nat, n as nat);
            }
            Self::from_index_unchecked(n - 1)
        } else {
            proof {
                vstd::arithmetic::div_mod::lemma_mod_add_multiples_vanish(i - 1, n as int);
                vstd::arithmetic::div_mod::lemma_small_mod((i - 1) as nat, n as nat);
            }
            Self::from_index_unchecked(i - 1)
        }
    }

    /// The next case, or absence if this is already the last case.
    fn checked_next(&self) -> (r: Option<Self>)
        ensures
            r == if self.spec_index() + 1 < Self::spec_count() {
                Some(Self::spec_case(self.spec_index() + 1))
            } else {
                None::<Self>
            },
    {
        proof {
            self.lemma_index_in_range();
        }
        let i = self.to_index();
        let n = Self::count();
        if i == n - 1 {
            None
        } else {
            Some(Self::from_index_unchecked(i + 1))
        }
    }

    /// The previous case, or absence if this is already the first case.
    fn checked_prev(&self) -> (r: Option<Self>)
        ensures
            r == if self.spec_index() > 0 {
                Some(Self::spec_case((self.spec_index() - 1) as nat))
            } else {
                None::<Self>
            },
    {
        let i = self.to_index();
        if i == 0 {
            None
        } else {
            proof {
                self.lemma_index_in_range();
            }
            Some(Self::from_index_unchecked(i - 1))
        }
    }

    /// The next case, staying on the last case if there is no next one.
    fn saturating_next(&self) -> (r: Self)
        ensures
            r == if self.spec_index() + 1 < Self::spec_count() {
                Self::spec_case(self.spec_index() + 1)
            } else {
                Self::spec_case((Self::spec_count() - 1) as nat)
            },
            self.spec_index() + 1 == Self::spec_count() ==> r == *self,
    {
        proof {
            self.lemma_index_in_range();
            self.lemma_case_of_index();
        }
        match self.checked_next() {
            Some(c) => c,
            None => Self::last(),
        }
    }

    /// The previous case, staying on the first case if there is no previous
    /// one.
    fn saturating_prev(&self) -> (r: Self)
        ensures
            r == if self.spec_index() > 0 {
                Self::spec_case((self.spec_index() - 1) as nat)
            } else {
                Self::spec_case(0)
            },
            self.spec_index() == 0 ==> r == *self,
    {
        proof {
            self.lemma_case_of_index();
        }
        match self.checked_prev() {
            Some(c) => c,
            None => Self::first(),
        }
    }

    /// All cases, in declaration order: the canonical listing the generator
    /// emits for the enumeration.
    fn all() -> (r: Vec<Self>)
        ensures
            r@.len() == Self::spec_count(),
            forall|i: int| 0 <= i < r@.len() ==> r@[i] == Self::spec_case(i as nat),
    ;
}

} // verus!
