//! The grammar of UTC offsets.
//!
//! An offset is written either as a signed whole number of hours from 0 to 12
//! (`+5`, `-11`) or as a signed clock reading with hours from 0 to 12 and
//! minutes from 00 to 59 (`+1:30`, `-09:45`). The whole-hour form is what the
//! platform offers as fixed choices; the clock form is what members type
//! themselves.

use vstd::prelude::*;
use vstd::string::*;

verus! {

/// Whether `c` is `+` or `-`.
pub open spec fn is_sign(c: char) -> bool {
    c == '+' || c == '-'
}

/// Whether `c` is a decimal digit.
pub open spec fn is_digit(c: char) -> bool {
    '0' <= c <= '9'
}

/// Whether `a` followed by `b` is a two-digit hour field, `00` to `12`.
pub open spec fn is_hour_pair(a: char, b: char) -> bool {
    (a == '0' && is_digit(b)) || (a == '1' && '0' <= b <= '2')
}

/// Whether `a` followed by `b` is a minute field, `00` to `59`.
pub open spec fn is_minute_pair(a: char, b: char) -> bool {
    '0' <= a <= '5' && is_digit(b)
}

/// The whole-hour form: a sign, then `0` to `12` with no leading zero.
pub open spec fn is_whole_hour_offset(s: Seq<char>) -> bool {
    ||| s.len() == 2 && is_sign(s[0]) && is_digit(s[1])
    ||| s.len() == 3 && is_sign(s[0]) && s[1] == '1' && '0' <= s[2] <= '2'
}

/// The clock form: a sign, hours `0` to `12` in one or two digits, a colon,
/// and minutes `00` to `59`.
pub open spec fn is_clock_offset(s: Seq<char>) -> bool {
    ||| s.len() == 5 && is_sign(s[0]) && is_digit(s[1]) && s[2] == ':' && is_minute_pair(
        s[3],
        s[4],
    )
    ||| s.len() == 6 && is_sign(s[0]) && is_hour_pair(s[1], s[2]) && s[3] == ':'
        && is_minute_pair(s[4], s[5])
}

/// Either form of offset.
pub open spec fn is_offset(s: Seq<char>) -> bool {
    is_whole_hour_offset(s) || is_clock_offset(s)
}

/// The character that stands for the digit `d`.
pub open spec fn digit_char(d: int) -> char
    recommends
        0 <= d <= 9,
{
    (d + '0' as int) as char
}

/// How a whole number of hours is written: `+` for zero and above, `-` below,
/// then the magnitude in decimal.
pub open spec fn standard_text(hours: int) -> Seq<char>
    recommends
        -12 <= hours <= 12,
{
    let sign = if hours < 0 {
        '-'
    } else {
        '+'
    };
    let magnitude = if hours < 0 {
        -hours
    } else {
        hours
    };
    if magnitude < 10 {
        seq![sign, digit_char(magnitude)]
    } else {
        seq![sign, '1', digit_char(magnitude - 10)]
    }
}

/// Whether `s` is one of the twenty-five texts `-12`, ..., `-1`, `+0`, `+1`,
/// ..., `+12` that the platform offers.
pub open spec fn is_standard_text(s: Seq<char>) -> bool {
    exists|hours: int| -12 <= hours <= 12 && s == #[trigger] standard_text(hours)
}

/// Every standard text is a whole-hour offset.
pub proof fn lemma_standard_text_is_offset(hours: int)
    requires
        -12 <= hours <= 12,
    ensures
        is_whole_hour_offset(standard_text(hours)),
        is_offset(standard_text(hours)),
{
}

/// The hours that a whole-hour offset stands for.
pub open spec fn whole_hour_value(s: Seq<char>) -> int
    recommends
        is_whole_hour_offset(s),
{
    let magnitude = if s.len() == 2 {
        s[1] as int - '0' as int
    } else {
        10 + s[2] as int - '0' as int
    };
    if s[0] == '-' {
        -magnitude
    } else {
        magnitude
    }
}

/// The platform's texts are the whole-hour offsets but for `-0`: zero is
/// written `+0` only.
pub proof fn lemma_standard_texts(s: Seq<char>)
    ensures
        is_standard_text(s) <==> is_whole_hour_offset(s) && !(s[0] == '-' && whole_hour_value(s)
            == 0),
        is_standard_text(s) ==> -12 <= whole_hour_value(s) <= 12 && s == standard_text(
            whole_hour_value(s),
        ),
{
    if is_standard_text(s) {
        let hours = choose|hours: int| -12 <= hours <= 12 && s == #[trigger] standard_text(hours);
        assert(whole_hour_value(standard_text(hours)) == hours);
    } else if is_whole_hour_offset(s) && !(s[0] == '-' && whole_hour_value(s) == 0) {
        assert(s =~= standard_text(whole_hour_value(s)));
    }
}

fn is_sign_char(c: char) -> (b: bool)
    ensures
        b == is_sign(c),
{
    c == '+' || c == '-'
}

fn is_digit_upto(c: char, top: char) -> (b: bool)
    ensures
        b == ('0' <= c <= top),
{
    '0' <= c && c <= top
}

/// Tests the characters of `text` from `from` up to `to` against the
/// whole-hour form.
pub(crate) fn whole_hour_between(text: &str, from: usize, to: usize) -> (b: bool)
    requires
        from <= to <= text@.len(),
    ensures
        b == is_whole_hour_offset(text@.subrange(from as int, to as int)),
{
    let ghost s = text@.subrange(from as int, to as int);
    let width = to - from;
    if width == 2 {
        let sign = text.get_char(from);
        let ones = text.get_char(from + 1);
        assert(s[0] == sign && s[1] == ones);
        is_sign_char(sign) && is_digit_upto(ones, '9')
    } else if width == 3 {
        let sign = text.get_char(from);
        let tens = text.get_char(from + 1);
        let ones = text.get_char(from + 2);
        assert(s[0] == sign && s[1] == tens && s[2] == ones);
        is_sign_char(sign) && tens == '1' && is_digit_upto(ones, '2')
    } else {
        false
    }
}

/// Tests the characters of `text` from `from` up to `to` against the clock
/// form.
pub(crate) fn clock_between(text: &str, from: usize, to: usize) -> (b: bool)
    requires
        from <= to <= text@.len(),
    ensures
        b == is_clock_offset(text@.subrange(from as int, to as int)),
{
    let ghost s = text@.subrange(from as int, to as int);
    let width = to - from;
    if width == 5 {
        let sign = text.get_char(from);
        let hour = text.get_char(from + 1);
        let colon = text.get_char(from + 2);
        let tens = text.get_char(from + 3);
        let ones = text.get_char(from + 4);
        assert(s[0] == sign && s[1] == hour && s[2] == colon && s[3] == tens && s[4] == ones);
        is_sign_char(sign) && is_digit_upto(hour, '9') && colon == ':' && is_digit_upto(tens, '5')
            && is_digit_upto(ones, '9')
    } else if width == 6 {
        let sign = text.get_char(from);
        let hour_tens = text.get_char(from + 1);
        let hour_ones = text.get_char(from + 2);
        let colon = text.get_char(from + 3);
        let tens = text.get_char(from + 4);
        let ones = text.get_char(from + 5);
        assert(s[0] == sign && s[1] == hour_tens && s[2] == hour_ones && s[3] == colon && s[4]
            == tens && s[5] == ones);
        let hours_ok = (hour_tens == '0' && is_digit_upto(hour_ones, '9')) || (hour_tens == '1'
            && is_digit_upto(hour_ones, '2'));
        is_sign_char(sign) && hours_ok && colon == ':' && is_digit_upto(tens, '5')
            && is_digit_upto(ones, '9')
    } else {
        false
    }
}

/// Tests the characters of `text` from `from` up to `to` against both forms.
pub(crate) fn offset_between(text: &str, from: usize, to: usize) -> (b: bool)
    requires
        from <= to <= text@.len(),
    ensures
        b == is_offset(text@.subrange(from as int, to as int)),
{
    whole_hour_between(text, from, to) || clock_between(text, from, to)
}

/// Decides whether what a member typed is an offset in the clock form. The
/// whole text has to match: no spaces, no `UTC` in front, the sign written
/// out.
pub fn is_custom_offset(raw: &str) -> (b: bool)
    ensures
        b == is_clock_offset(raw@),
{
    let n = raw.unicode_len();
    assert(raw@.subrange(0, n as int) == raw@);
    clock_between(raw, 0, n)
}

/// One of the twenty-five whole-hour offsets that the platform offers, from
/// twelve hours behind UTC to twelve hours ahead.
#[derive(Clone, Copy, Debug, PartialEq, Eq)]
pub struct StandardOffset {
    hours: i8,
}

impl View for StandardOffset {
    type V = int;

    /// The hours ahead of UTC; negative when behind.
    closed spec fn view(&self) -> int {
        self.hours as int
    }
}

impl StandardOffset {
    #[verifier::type_invariant]
    spec fn in_range(self) -> bool {
        -12 <= self.hours <= 12
    }

    /// The offset of `hours` hours, where there is one.
    pub fn new(hours: i8) -> (made: Option<StandardOffset>)
        ensures
            made is Some <==> -12 <= hours <= 12,
            made matches Some(offset) ==> offset@ == hours,
    {
        if -12 <= hours && hours <= 12 {
            Some(StandardOffset { hours })
        } else {
            None
        }
    }

    /// The hours ahead of UTC; negative when behind.
    pub fn hours(&self) -> (hours: i8)
        ensures
            hours == self@,
            -12 <= hours <= 12,
    {
        proof {
            use_type_invariant(self);
        }
        self.hours
    }

    /// Reads one of the platform's texts. `-0`, padded numbers and anything
    /// beyond twelve hours are not among them.
    pub fn parse(text: &str) -> (read: Option<StandardOffset>)
        ensures
            read is Some <==> is_standard_text(text@),
            read matches Some(offset) ==> offset@ == whole_hour_value(text@) && text@
                == standard_text(offset@),
    {
        let n = text.unicode_len();
        proof {
            assert(text@.subrange(0, n as int) == text@);
            lemma_standard_texts(text@);
        }
        if !whole_hour_between(text, 0, n) {
            return None;
        }
        let negative = text.get_char(0) == '-';
        let ones: i8 = (text.get_char(n - 1) as u8 - '0' as u8) as i8;
        let magnitude: i8 = if n == 2 {
            ones
        } else {
            10 + ones
        };
        if negative && magnitude == 0 {
            return None;
        }
        let hours: i8 = if negative {
            -magnitude
        } else {
            magnitude
        };
        Some(StandardOffset { hours })
    }

    /// Writes the offset as the platform does: `+0`, `-7`, `+12`.
    pub fn literal(&self) -> (text: String)
        ensures
            text@ == standard_text(self@),
    {
        let hours = self.hours();
        let (sign, magnitude): (&str, i8) = if hours < 0 {
            ("-", -hours)
        } else {
            ("+", hours)
        };
        let mut text = String::from_str(sign);
        if magnitude >= 10 {
            text.append("1");
            text.append(digit_text(magnitude - 10));
        } else {
            text.append(digit_text(magnitude));
        }
        proof {
            reveal_strlit("-");
            reveal_strlit("+");
            reveal_strlit("1");
            assert(text@ =~= standard_text(self@));
        }
        text
    }

    /// The name under which the platform lists the offset: `UTC+0`, `UTC-7`.
    pub fn label(&self) -> (text: String)
        ensures
            text@ == "UTC"@ + standard_text(self@),
    {
        let mut text = String::from_str("UTC");
        let literal = self.literal();
        text.append(literal.as_str());
        text
    }

    /// All twenty-five offsets, from `-12` up to `+12`.
    pub fn all() -> (list: Vec<StandardOffset>)
        ensures
            list@.len() == 25,
            forall|i: int| 0 <= i < 25 ==> (#[trigger] list@[i])@ == i - 12,
    {
        let mut list: Vec<StandardOffset> = Vec::new();
        let mut hours: i8 = -12;
        while hours <= 12
            invariant
                -12 <= hours <= 13,
                list@.len() == hours + 12,
                forall|i: int| 0 <= i < list@.len() ==> (#[trigger] list@[i])@ == i - 12,
            decreases 13 - hours,
        {
            list.push(StandardOffset { hours });
            hours = hours + 1;
        }
        list
    }
}

/// The text of one decimal digit.
fn digit_text(d: i8) -> (text: &'static str)
    requires
        0 <= d <= 9,
    ensures
        text@ == seq![digit_char(d as int)],
{
    let text = match d {
        0 => "0",
        1 => "1",
        2 => "2",
        3 => "3",
        4 => "4",
        5 => "5",
        6 => "6",
        7 => "7",
        8 => "8",
        _ => "9",
    };
    proof {
        reveal_strlit("0");
        reveal_strlit("1");
        reveal_strlit("2");
        reveal_strlit("3");
        reveal_strlit("4");
        reveal_strlit("5");
        reveal_strlit("6");
        reveal_strlit("7");
        reveal_strlit("8");
        reveal_strlit("9");
        assert(text@ =~= seq![digit_char(d as int)]);
    }
    text
}

} // verus!
