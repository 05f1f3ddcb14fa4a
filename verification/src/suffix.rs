//! The timezone suffix of a display name.
//!
//! A display name is a base name, followed by nothing or by one suffix of the
//! form ` (UTC<offset>)`. This module recognises the suffix, measures it and
//! takes it off.

use vstd::prelude::*;
use vstd::string::*;
use crate::offset::{is_offset, offset_between};

verus! {

/// What every suffix begins with: a space, an opening bracket and `UTC`.
pub open spec fn suffix_open() -> Seq<char> {
    seq![' ', '(', 'U', 'T', 'C']
}

/// The suffix that announces `offset`.
pub open spec fn suffix_of(offset: Seq<char>) -> Seq<char> {
    suffix_open() + offset + seq![')']
}

/// Whether `s`, taken whole, is a timezone suffix.
pub open spec fn is_suffix(s: Seq<char>) -> bool {
    &&& s.len() >= 6
    &&& s.take(5) == suffix_open()
    &&& s.last() == ')'
    &&& is_offset(s.subrange(5, s.len() - 1))
}

/// Whether the last `width` characters of `name` are a timezone suffix.
pub open spec fn ends_with_suffix_of(name: Seq<char>, width: int) -> bool {
    0 <= width <= name.len() && is_suffix(name.skip(name.len() - width))
}

/// Whether `name` ends with a timezone suffix.
pub open spec fn ends_with_suffix(name: Seq<char>) -> bool {
    exists|width: int| ends_with_suffix_of(name, width)
}

/// How many characters the suffix at the end of `name` takes; 0 without one.
pub open spec fn suffix_width(name: Seq<char>) -> int {
    if ends_with_suffix(name) {
        choose|width: int| ends_with_suffix_of(name, width)
    } else {
        0
    }
}

/// `name` with the suffix at its end taken off, if it has one. A second
/// suffix in front of the first stays.
pub open spec fn without_suffix(name: Seq<char>) -> Seq<char> {
    name.take(name.len() - suffix_width(name))
}

/// `name` with every suffix at its end taken off: what the member is called
/// apart from any timezone.
pub open spec fn base_name(name: Seq<char>) -> Seq<char>
    decreases name.len(),
    via base_name_shrinks
{
    if ends_with_suffix(name) {
        base_name(without_suffix(name))
    } else {
        name
    }
}

#[via_fn]
proof fn base_name_shrinks(name: Seq<char>) {
    if ends_with_suffix(name) {
        lemma_suffix_width(name, suffix_width(name));
    }
}

/// A suffix is 8, 9, 11 or 12 characters long.
pub proof fn lemma_suffix_lengths(s: Seq<char>)
    requires
        is_suffix(s),
    ensures
        s.len() == 8 || s.len() == 9 || s.len() == 11 || s.len() == 12,
{
    let offset = s.subrange(5, s.len() - 1);
    assert(offset.len() == s.len() - 6);
}

/// The suffix of an offset is a suffix, six characters longer than the offset.
pub proof fn lemma_suffix_of(offset: Seq<char>)
    requires
        is_offset(offset),
    ensures
        is_suffix(suffix_of(offset)),
        suffix_of(offset).len() == offset.len() + 6,
{
    let s = suffix_of(offset);
    assert(s.take(5) =~= suffix_open());
    assert(s.subrange(5, s.len() - 1) =~= offset);
}

/// A name ends with at most one suffix: two widths that both fit are equal.
pub proof fn lemma_suffix_unique(name: Seq<char>, a: int, b: int)
    requires
        ends_with_suffix_of(name, a),
        ends_with_suffix_of(name, b),
    ensures
        a == b,
{
    let n = name.len() as int;
    let long = if a < b {
        name.skip(n - b)
    } else {
        name.skip(n - a)
    };
    let short = if a < b {
        name.skip(n - a)
    } else {
        name.skip(n - b)
    };
    lemma_suffix_lengths(long);
    lemma_suffix_lengths(short);
    let gap = long.len() - short.len();
    if gap != 0 {
        // The shorter suffix opens with a space where the longer one has a
        // bracket or a letter.
        assert(0 < gap < 5);
        assert(short.take(5)[0] == ' ');
        assert(short[0] == long[gap]);
        assert(long.take(5)[gap] == long[gap]);
    }
}

/// The width that fits is the width of the suffix.
pub proof fn lemma_suffix_width(name: Seq<char>, width: int)
    requires
        ends_with_suffix_of(name, width),
    ensures
        ends_with_suffix(name),
        suffix_width(name) == width,
        width >= 8,
{
    lemma_suffix_unique(name, width, suffix_width(name));
    lemma_suffix_lengths(name.skip(name.len() - width));
}

/// Taking the suffix off a base with one suffix attached gives the base back.
pub proof fn lemma_attach(base: Seq<char>, offset: Seq<char>)
    requires
        is_offset(offset),
    ensures
        ends_with_suffix(base + suffix_of(offset)),
        suffix_width(base + suffix_of(offset)) == offset.len() + 6,
        without_suffix(base + suffix_of(offset)) == base,
{
    let name = base + suffix_of(offset);
    let width = offset.len() as int + 6;
    lemma_suffix_of(offset);
    assert(name.skip(name.len() - width) =~= suffix_of(offset));
    lemma_suffix_width(name, width);
    assert(name.take(name.len() - width) =~= base);
}

/// A suffix attached to a name leaves its base as it was.
pub proof fn lemma_attach_keeps_base(name: Seq<char>, offset: Seq<char>)
    requires
        is_offset(offset),
    ensures
        base_name(name + suffix_of(offset)) == base_name(name),
{
    lemma_attach(name, offset);
}

/// What is left after all suffixes are off ends with none.
pub proof fn lemma_base_name_bare(name: Seq<char>)
    ensures
        !ends_with_suffix(base_name(name)),
        base_name(name).len() <= name.len(),
    decreases name.len(),
{
    if ends_with_suffix(name) {
        lemma_suffix_width(name, suffix_width(name));
        lemma_base_name_bare(without_suffix(name));
    }
}

/// Tests whether the characters of `name` from `from` to its end are a
/// suffix. `n` is the length of `name` in characters.
fn is_suffix_from(name: &str, n: usize, from: usize) -> (b: bool)
    requires
        n == name@.len(),
        from <= n,
    ensures
        b == is_suffix(name@.skip(from as int)),
{
    let ghost s = name@.skip(from as int);
    if n - from < 6 {
        return false;
    }
    let opens = name.get_char(from) == ' ' && name.get_char(from + 1) == '(' && name.get_char(
        from + 2,
    ) == 'U' && name.get_char(from + 3) == 'T' && name.get_char(from + 4) == 'C';
    proof {
        assert(s.take(5)[0] == name@[from as int]);
        assert(s.take(5)[1] == name@[from + 1]);
        assert(s.take(5)[2] == name@[from + 2]);
        assert(s.take(5)[3] == name@[from + 3]);
        assert(s.take(5)[4] == name@[from + 4]);
        assert(opens <==> s.take(5) =~= suffix_open());
        assert(s.last() == name@[n - 1]);
        assert(s.subrange(5, s.len() - 1) =~= name@.subrange(from + 5, n - 1));
    }
    opens && name.get_char(n - 1) == ')' && offset_between(name, from + 5, n - 1)
}

/// Measures the suffix at the end of `name`: its length in characters, or 0
/// where `name` ends with none.
pub fn measure_suffix(name: &str) -> (width: usize)
    ensures
        width == suffix_width(name@),
        width > 0 <==> ends_with_suffix(name@),
        width <= name@.len(),
{
    // No suffix is longer than twelve characters, so the end of the name is
    // all that has to be read.
    let n = name.unicode_len();
    let (tail, m): (&str, usize) = if n > 12 {
        (name.substring_char(n - 12, n), 12)
    } else {
        (name, n)
    };
    proof {
        if m >= 8 {
            assert(tail@.skip(m - 8) =~= name@.skip(n - 8));
        }
        if m >= 9 {
            assert(tail@.skip(m - 9) =~= name@.skip(n - 9));
        }
        if m >= 11 {
            assert(tail@.skip(m - 11) =~= name@.skip(n - 11));
        }
        if m >= 12 {
            assert(tail@.skip(m - 12) =~= name@.skip(n - 12));
        }
    }
    let width: usize = if m >= 8 && is_suffix_from(tail, m, m - 8) {
        8
    } else if m >= 9 && is_suffix_from(tail, m, m - 9) {
        9
    } else if m >= 11 && is_suffix_from(tail, m, m - 11) {
        11
    } else if m >= 12 && is_suffix_from(tail, m, m - 12) {
        12
    } else {
        0
    };
    proof {
        if width > 0 {
            lemma_suffix_width(name@, width as int);
        } else {
            assert forall|w: int| !ends_with_suffix_of(name@, w) by {
                if ends_with_suffix_of(name@, w) {
                    lemma_suffix_lengths(name@.skip(name@.len() - w));
                }
            }
        }
    }
    width
}

/// Takes every timezone suffix off the end of `name`. A name that ends with
/// none comes back whole, brackets and all.
pub fn strip_suffix(name: &str) -> (base: &str)
    ensures
        base@ == base_name(name@),
        !ends_with_suffix(base@),
        !ends_with_suffix(name@) ==> base@ == name@,
{
    let mut rest: &str = name;
    loop
        invariant
            base_name(rest@) == base_name(name@),
        ensures
            rest@ == base_name(name@),
        decreases rest@.len(),
    {
        let width = measure_suffix(rest);
        if width == 0 {
            break;
        }
        let n = rest.unicode_len();
        rest = rest.substring_char(0, n - width);
    }
    proof {
        lemma_base_name_bare(name@);
    }
    rest
}

/// Writes `base` followed by the suffix that announces `offset`.
pub fn with_suffix(base: &str, offset: &str) -> (name: String)
    ensures
        name@ == base@ + suffix_of(offset@),
{
    let mut name = String::from_str(base);
    name.append(" (UTC");
    name.append(offset);
    name.append(")");
    proof {
        reveal_strlit(" (UTC");
        reveal_strlit(")");
        assert(" (UTC"@ =~= suffix_open());
        assert(")"@ =~= seq![')']);
        assert(name@ =~= base@ + suffix_of(offset@));
    }
    name
}

} // verus!
