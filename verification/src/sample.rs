//! Worked enumerations, laid out exactly as the generator emits them.
//!
//! Each impl here is the code a validated declaration turns into: a constant
//! case count, an ordered case listing, a positional lookup with no runtime
//! bounds check, and a direct case-to-position mapping. The lemmas discharge
//! the safety invariants that the shape validator guarantees for every
//! declaration it accepts.

use vstd::prelude::*;

use crate::algebra::EnumSelect;

verus! {

/// A four-case ordered enumeration.
#[derive(Clone, Copy, Debug, PartialEq, Eq, Structural)]
pub enum E {
    A,
    B,
    C,
    D,
}

impl EnumSelect for E {
    open spec fn spec_count() -> nat {
        4
    }

    open spec fn spec_index(&self) -> nat {
        match self {
            E::A => 0,
            E::B => 1,
            E::C => 2,
            E::D => 3,
        }
    }

    open spec fn spec_case(i: nat) -> E {
        if i == 0 {
            E::A
        } else if i == 1 {
            E::B
        } else if i == 2 {
            E::C
        } else {
            E::D
        }
    }

    proof fn lemma_count_nonzero() {
    }

    proof fn lemma_index_in_range(&self) {
    }

    proof fn lemma_case_of_index(&self) {
    }

    proof fn lemma_index_of_case(i: nat) {
    }

    fn count() -> usize {
        4
    }

    fn from_index_unchecked(index: usize) -> E {
        if index == 0 {
            E::A
        } else if index == 1 {
            E::B
        } else if index == 2 {
            E::C
        } else {
            E::D
        }
    }

    fn to_index(&self) -> usize {
        match self {
            E::A => 0,
            E::B => 1,
            E::C => 2,
            E::D => 3,
        }
    }

    fn all() -> (r: Vec<E>)
        ensures
            r@.len() == 4,
            forall|i: int| 0 <= i < r@.len() ==> r@[i] == E::spec_case(i as nat),
    {
        vec![E::A, E::B, E::C, E::D]
    }
}

/// A five-case enumeration whose declaration carries a text template on
/// every case, so it supports the display dispatch as well as the index
/// algebra.
#[derive(Clone, Copy, Debug, PartialEq, Eq, Structural)]
pub enum DurationType {
    Duration1m,
    Duration5m,
    Number50,
    Number100,
    Infinite,
}

impl DurationType {
    /// The text template attached to this case in its declaration.
    pub open spec fn spec_template(&self) -> Seq<char> {
        match self {
            DurationType::Duration1m => "1 minute"@,
            DurationType::Duration5m => "5 minutes"@,
            DurationType::Number50 => "50 words"@,
            DurationType::Number100 => "100 words"@,
            DurationType::Infinite => "Endless"@,
        }
    }

    /// The display dispatch the generator emits: a total mapping from case
    /// to its attached text template, verbatim.
    pub fn render(&self) -> (r: &'static str)
        ensures
            r@ == self.spec_template(),
    {
        match self {
            DurationType::Duration1m => "1 minute",
            DurationType::Duration5m => "5 minutes",
            DurationType::Number50 => "50 words",
            DurationType::Number100 => "100 words",
            DurationType::Infinite => "Endless",
        }
    }
}

impl EnumSelect for DurationType {
    open spec fn spec_count() -> nat {
        5
    }

    open spec fn spec_index(&self) -> nat {
        match self {
            DurationType::Duration1m => 0,
            DurationType::Duration5m => 1,
            DurationType::Number50 => 2,
            DurationType::Number100 => 3,
            DurationType::Infinite => 4,
        }
    }

    open spec fn spec_case(i: nat) -> DurationType {
        if i == 0 {
            DurationType::Duration1m
        } else if i == 1 {
            DurationType::Duration5m
        } else if i == 2 {
            DurationType::Number50
        } else if i == 3 {
            DurationType::Number100
        } else {
            DurationType::Infinite
        }
    }

    proof fn lemma_count_nonzero() {
    }

    proof fn lemma_index_in_range(&self) {
    }

    proof fn lemma_case_of_index(&self) {
    }

    proof fn lemma_index_of_case(i: nat) {
    }

    fn count() -> usize {
        5
    }

    fn from_index_unchecked(index: usize) -> DurationType {
        if index == 0 {
            DurationType::Duration1m
        } else if index == 1 {
            DurationType::Duration5m
        } else if index == 2 {
            DurationType::Number50
        } else if index == 3 {
            DurationType::Number100
        } else {
            DurationType::Infinite
        }
    }

    fn to_index(&self) -> usize {
        match self {
            DurationType::Duration1m => 0,
            DurationType::Duration5m => 1,
            DurationType::Number50 => 2,
            DurationType::Number100 => 3,
            DurationType::Infinite => 4,
        }
    }

    fn all() -> (r: Vec<DurationType>)
        ensures
            r@.len() == 5,
            forall|i: int| 0 <= i < r@.len() ==> r@[i] == DurationType::spec_case(i as nat),
    {
        vec![
            DurationType::Duration1m,
            DurationType::Duration5m,
            DurationType::Number50,
            DurationType::Number100,
            DurationType::Infinite,
        ]
    }
}

} // verus!
