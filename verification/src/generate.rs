//! The code generator: turns a validated case model into the constants the
//! index algebra relies on, and a display case model into the rendering
//! dispatch.
//!
//! Both generators are total over valid input: the validator has already
//! rejected everything else, so no error handling happens here.

use vstd::prelude::*;

use crate::model::{DisplayEntry, DisplayModel, UnitEnum};

verus! {

/// What the generator emits for a validated declaration: the case count and
/// the ordered case listing. The count is non-zero — the generator carries
/// the validator's non-emptiness invariant forward — and the listing is the
/// canonical position-to-case mapping.
pub struct GeneratedCode {
    pub count: usize,
    pub all_cases: Vec<String>,
}

impl GeneratedCode {
    /// The invariant generation establishes: the count equals the length of
    /// the listing and is non-zero.
    pub open spec fn wf(&self) -> bool {
        self.count == self.all_cases@.len() && self.count > 0
    }

    /// The unchecked position-to-case conversion: the caller must prove the
    /// position lies in `0..count`; no runtime bounds check answers for it.
    pub fn case_at(&self, position: usize) -> (r: &String)
        requires
            self.wf(),
            position < self.count,
        ensures
            r == self.all_cases@[position as int],
    {
        &self.all_cases[position]
    }
}

/// Emits the generated constants for a validated case model: the count is
/// the number of cases and the listing keeps the declaration order, case for
/// case.
pub fn generate(model: UnitEnum) -> (r: GeneratedCode)
    requires
        model.wf(),
    ensures
        r.wf(),
        r.count == model.cases@.len(),
        r.all_cases@ == model.cases@,
{
    let count = model.cases.len();
    GeneratedCode { count, all_cases: model.cases }
}

/// What the display generator emits: the dispatch from case to its text
/// template, one arm per case, in declaration order.
pub struct DisplayCode {
    pub arms: Vec<DisplayEntry>,
}

impl DisplayCode {
    /// The template the dispatch renders for the case at a position.
    pub fn template_at(&self, position: usize) -> (r: &String)
        requires
            position < self.arms@.len(),
        ensures
            r == self.arms@[position as int].template,
    {
        &self.arms[position].template
    }

    /// The dispatch itself: the text rendered for a named case, or absence
    /// for a name outside the enumeration. A case renders as its attached
    /// template, verbatim.
    pub fn render(&self, case_name: &String) -> (r: Option<&String>)
        ensures
            r matches Some(t) ==> (exists|j: int|
                0 <= j < self.arms@.len() && self.arms@[j].case_name@ == case_name@
                    && t == self.arms@[j].template && (forall|k: int|
                    0 <= k < j ==> self.arms@[k].case_name@ != case_name@)),
            r is None ==> (forall|j: int|
                0 <= j < self.arms@.len() ==> self.arms@[j].case_name@ != case_name@),
    {
        let n = self.arms.len();
        let mut idx: usize = 0;
        while idx < n
            invariant
                n == self.arms@.len(),
                idx <= n,
                forall|j: int| 0 <= j < idx ==> self.arms@[j].case_name@ != case_name@,
            decreases n - idx,
        {
            if self.arms[idx].case_name.eq(case_name) {
                return Some(&self.arms[idx].template);
            }
            idx += 1;
        }
        None
    }
}

/// Emits the rendering dispatch for a display case model: one arm per entry,
/// in declaration order. The dispatch is exhaustive over the model's cases
/// by construction.
pub fn generate_display(model: DisplayModel) -> (r: DisplayCode)
    ensures
        r.arms@ == model.entries@,
{
    DisplayCode { arms: model.entries }
}

} // verus!
