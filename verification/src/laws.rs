//! What holds of every name and every operation.

use vstd::prelude::*;
use vstd::string::*;
use crate::offset::{is_offset, lemma_standard_text_is_offset, standard_text, whole_hour_value};
use crate::operation::{
    interpreted,
    InterpretError,
    OperationView,
    CLEAR_COMMAND,
    CUSTOM_COMMAND,
    TZ_COMMAND,
};
use crate::suffix::{
    base_name,
    ends_with_suffix,
    lemma_attach,
    lemma_attach_keeps_base,
    lemma_base_name_bare,
    lemma_suffix_width,
    suffix_of,
    suffix_width,
    without_suffix,
};
use crate::respond::{responded, shown_name, InvocationView, StepView};
use crate::transform::{requested_suffix, transformed, Outcome};

verus! {

/// The suffix that a well-formed operation asks for is empty or the suffix of
/// an offset.
pub proof fn lemma_requested_suffix(operation: OperationView)
    requires
        operation.well_formed(),
    ensures
        match requested_suffix(operation) {
            Some(suffix) => suffix.len() == 0 || exists|offset: Seq<char>|
                is_offset(offset) && suffix == #[trigger] suffix_of(offset),
            None => operation is SetCustom,
        },
{
    match operation {
        OperationView::SetStandard(hours) => {
            lemma_standard_text_is_offset(hours);
            assert(requested_suffix(operation) == Some(suffix_of(standard_text(hours))));
        },
        OperationView::SetCustom(raw) => {
            if requested_suffix(operation) is Some {
                assert(is_offset(raw));
                assert(requested_suffix(operation) == Some(suffix_of(raw)));
            }
        },
        OperationView::Clear => {},
    }
}

/// Taking the suffixes off a name that has none left changes nothing:
/// stripping twice is stripping once.
pub proof fn law_strip_idempotent(name: Seq<char>)
    ensures
        base_name(base_name(name)) == base_name(name),
{
    lemma_base_name_bare(name);
}

/// Stripping takes characters off the end only: the base is the front of the
/// name, as long as it is, unaltered.
pub proof fn law_strip_keeps_the_front(name: Seq<char>)
    ensures
        base_name(name).len() <= name.len(),
        base_name(name) == name.take(base_name(name).len() as int),
    decreases name.len(),
{
    if ends_with_suffix(name) {
        lemma_suffix_width(name, suffix_width(name));
        let shorter = without_suffix(name);
        law_strip_keeps_the_front(shorter);
        assert(shorter.take(base_name(shorter).len() as int) =~= name.take(
            base_name(shorter).len() as int,
        ));
    } else {
        assert(name.take(name.len() as int) =~= name);
    }
}

/// Clearing a cleared name gives the cleared name again, and says that
/// nothing changed.
pub proof fn law_clear_idempotent(name: Seq<char>)
    ensures
        transformed(
            transformed(name, OperationView::Clear).candidate_name,
            OperationView::Clear,
        ).candidate_name == transformed(name, OperationView::Clear).candidate_name,
        transformed(
            transformed(name, OperationView::Clear).candidate_name,
            OperationView::Clear,
        ).outcome == Outcome::Unchanged,
{
    let base = base_name(name);
    lemma_base_name_bare(name);
    assert(base + Seq::<char>::empty() =~= base);
}

/// Whatever the operation, the new name has the base of the old one.
pub proof fn law_base_preserved(name: Seq<char>, operation: OperationView)
    requires
        operation.well_formed(),
    ensures
        base_name(transformed(name, operation).candidate_name) == base_name(name),
{
    let base = base_name(name);
    lemma_base_name_bare(name);
    lemma_requested_suffix(operation);
    match requested_suffix(operation) {
        Some(suffix) => {
            if suffix.len() == 0 {
                assert(base + suffix =~= base);
            } else {
                let offset = choose|offset: Seq<char>|
                    is_offset(offset) && suffix == #[trigger] suffix_of(offset);
                lemma_attach_keeps_base(base, offset);
            }
        },
        None => {},
    }
}

/// A name that comes out of a transformation carries at most one timezone
/// suffix: with one suffix taken off its end, no suffix is left there, and
/// what is left is the base.
pub proof fn law_at_most_one_suffix(name: Seq<char>, operation: OperationView)
    requires
        operation.well_formed(),
    ensures
        !ends_with_suffix(without_suffix(transformed(name, operation).candidate_name)),
        without_suffix(transformed(name, operation).candidate_name) == base_name(name),
        !ends_with_suffix(base_name(transformed(name, operation).candidate_name)),
{
    let base = base_name(name);
    let candidate = transformed(name, operation).candidate_name;
    lemma_base_name_bare(name);
    lemma_base_name_bare(candidate);
    lemma_requested_suffix(operation);
    match requested_suffix(operation) {
        Some(suffix) => {
            if suffix.len() == 0 {
                assert(candidate =~= base);
                assert(without_suffix(base) =~= base);
            } else {
                let offset = choose|offset: Seq<char>|
                    is_offset(offset) && suffix == #[trigger] suffix_of(offset);
                lemma_attach(base, offset);
            }
        },
        None => {
            assert(without_suffix(base) =~= base);
        },
    }
}

/// Asking for the same thing a second time changes nothing: the name stays,
/// and the outcome is `Unchanged`, or `Invalid` again for a custom offset
/// that is none.
pub proof fn law_repeat_changes_nothing(name: Seq<char>, operation: OperationView)
    requires
        operation.well_formed(),
    ensures
        transformed(transformed(name, operation).candidate_name, operation).candidate_name
            == transformed(name, operation).candidate_name,
        transformed(transformed(name, operation).candidate_name, operation).outcome == if
            transformed(name, operation).outcome == Outcome::Invalid {
            Outcome::Invalid
        } else {
            Outcome::Unchanged
        },
{
    law_base_preserved(name, operation);
}

/// A name that ends with no timezone suffix is kept whole, whatever stands in
/// it: the new name is the old one followed by the requested suffix.
pub proof fn law_bare_name_kept(name: Seq<char>, operation: OperationView)
    requires
        !ends_with_suffix(name),
    ensures
        transformed(name, operation).candidate_name == match requested_suffix(operation) {
            Some(suffix) => name + suffix,
            None => name,
        },
{
}

/// The outcome is `Invalid` for a custom offset outside the clock form and
/// for nothing else; otherwise it is `Unchanged` exactly where the candidate
/// is the current name.
pub proof fn law_outcome(name: Seq<char>, operation: OperationView)
    ensures
        transformed(name, operation).outcome == Outcome::Invalid <==> requested_suffix(operation)
            is None,
        transformed(name, operation).outcome == Outcome::Unchanged <==> requested_suffix(
            operation,
        ) is Some && transformed(name, operation).candidate_name == name,
{
}

/// The platform is asked to store a nickname only inside a group, only for a
/// command that could be read, and only where the new nickname differs from
/// the name shown.
pub proof fn law_rename_is_news(invocation: InvocationView)
    ensures
        responded(invocation) matches StepView::Rename(new_name) ==> {
            let shown = shown_name(invocation.nickname, invocation.account_name);
            &&& invocation.in_group
            &&& new_name != shown
            &&& interpreted(invocation.command_name, invocation.option_values) matches Ok(
                operation,
            ) && transformed(shown, operation).candidate_name == new_name
        },
{
}

/// `custom` with one value is read as the request for that value, whatever
/// the value is, and `clear` is read as such whatever comes with it: the
/// three commands do not stand in each other's way.
pub proof fn law_commands_are_read(raw: Seq<char>, options: Seq<Seq<char>>)
    ensures
        interpreted(CUSTOM_COMMAND@, seq![raw]) == Ok::<OperationView, InterpretError>(
            OperationView::SetCustom(raw),
        ),
        interpreted(CLEAR_COMMAND@, options) == Ok::<OperationView, InterpretError>(
            OperationView::Clear,
        ),
{
    reveal_strlit("tz");
    reveal_strlit("custom");
    reveal_strlit("clear");
    assert(TZ_COMMAND@.len() == 2);
    assert(CUSTOM_COMMAND@.len() == 6);
    assert(CLEAR_COMMAND@.len() == 5);
}

/// No two of the platform's choices are written alike.
pub proof fn law_choices_differ(a: int, b: int)
    requires
        -12 <= a <= 12,
        -12 <= b <= 12,
        standard_text(a) == standard_text(b),
    ensures
        a == b,
{
    assert(whole_hour_value(standard_text(a)) == a);
    assert(whole_hour_value(standard_text(b)) == b);
}

/// Each of the twenty-five choices that the platform offers is read as the
/// offset it stands for.
pub proof fn law_choices_are_read(hours: int)
    requires
        -12 <= hours <= 12,
    ensures
        interpreted(TZ_COMMAND@, seq![standard_text(hours)]) == Ok::<
            OperationView,
            InterpretError,
        >(OperationView::SetStandard(hours)),
{
    assert(whole_hour_value(standard_text(hours)) == hours);
}

} // verus!
