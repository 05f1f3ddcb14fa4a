//! From the name a member shows and an operation to the name they should
//! show.

use vstd::prelude::*;
use vstd::string::*;
use crate::offset::{is_clock_offset, is_custom_offset, standard_text};
use crate::operation::{OperationView, TimezoneOperation};
use crate::suffix::{base_name, strip_suffix, suffix_of, with_suffix};
use crate::text::same_text;

verus! {

/// How a transformation ended.
#[derive(Clone, Copy, Debug, PartialEq, Eq)]
pub enum Outcome {
    /// The candidate name differs from the current one and is to be stored.
    Changed,
    /// The candidate name is the current one: there is nothing to store.
    Unchanged,
    /// The member typed a custom offset that is none.
    Invalid,
}

/// The name a member should show, and whether that is news.
#[derive(Clone, Debug, PartialEq, Eq)]
pub struct Transformed {
    pub candidate_name: String,
    pub outcome: Outcome,
}

/// A `Transformed` as contracts see it.
pub struct TransformedView {
    pub candidate_name: Seq<char>,
    pub outcome: Outcome,
}

impl View for Transformed {
    type V = TransformedView;

    open spec fn view(&self) -> TransformedView {
        TransformedView { candidate_name: self.candidate_name@, outcome: self.outcome }
    }
}

/// The suffix that `operation` asks for: empty to clear, and none at all
/// where a custom offset does not follow the clock form.
pub open spec fn requested_suffix(operation: OperationView) -> Option<Seq<char>> {
    match operation {
        OperationView::SetStandard(hours) => Some(suffix_of(standard_text(hours))),
        OperationView::SetCustom(raw) => if is_clock_offset(raw) {
            Some(suffix_of(raw))
        } else {
            None
        },
        OperationView::Clear => Some(Seq::empty()),
    }
}

/// `Unchanged` where the candidate is the current name, `Changed` elsewhere.
pub open spec fn compared(current: Seq<char>, candidate: Seq<char>) -> Outcome {
    if candidate == current {
        Outcome::Unchanged
    } else {
        Outcome::Changed
    }
}

/// The candidate name is the base of the current name followed by the
/// requested suffix. Where no suffix can be made of the request, it is the
/// base alone and the outcome is `Invalid`.
pub open spec fn transformed(current: Seq<char>, operation: OperationView) -> TransformedView {
    let base = base_name(current);
    match requested_suffix(operation) {
        Some(suffix) => TransformedView {
            candidate_name: base + suffix,
            outcome: compared(current, base + suffix),
        },
        None => TransformedView { candidate_name: base, outcome: Outcome::Invalid },
    }
}

/// Settles the outcome for a candidate that the operation allowed.
fn settle(current: &str, candidate: String) -> (done: Transformed)
    ensures
        done.candidate_name@ == candidate@,
        done.outcome == compared(current@, candidate@),
{
    let outcome = if same_text(candidate.as_str(), current) {
        Outcome::Unchanged
    } else {
        Outcome::Changed
    };
    Transformed { candidate_name: candidate, outcome }
}

/// Works out the name that `current` becomes under `operation`.
pub fn transform(current: &str, operation: &TimezoneOperation) -> (done: Transformed)
    ensures
        done@ == transformed(current@, operation@),
{
    let base = strip_suffix(current);
    match operation {
        TimezoneOperation::SetStandard(offset) => {
            let literal = offset.literal();
            settle(current, with_suffix(base, literal.as_str()))
        },
        TimezoneOperation::SetCustom(raw) => {
            if is_custom_offset(raw.as_str()) {
                settle(current, with_suffix(base, raw.as_str()))
            } else {
                Transformed { candidate_name: String::from_str(base), outcome: Outcome::Invalid }
            }
        },
        TimezoneOperation::Clear => {
            assert(base@ + Seq::<char>::empty() =~= base@);
            settle(current, String::from_str(base))
        },
    }
}

} // verus!
