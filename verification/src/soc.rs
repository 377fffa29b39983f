//! The state of charge that a meter reading reports.
//!
//! A reading carries a list of sampled values. The state of charge is the
//! first of them whose measurand is `SoC`, and its value is a decimal number
//! written as text: an optional sign, digits, and an optional point followed
//! by more digits, with a digit on at least one side of the point. The
//! percentage is the number's whole part, held within the range of an `i8`.
//! Anything else is unreadable.

use vstd::prelude::*;
use vstd::string::{StrSliceExecFns, StringExecFns};
use crate::types::{MeterValue, MeterValueView, SampledValueView};

verus! {

/// What [`parse_meterval`] returns where no state of charge can be read.
pub const UNREADABLE_SOC: i8 = -1;

pub open spec fn is_digit(c: char) -> bool {
    '0' <= c && c <= '9'
}

pub open spec fn digit_value(c: char) -> int {
    c as int - '0' as int
}

pub open spec fn all_digits(text: Seq<char>) -> bool {
    forall|i: int| 0 <= i < text.len() ==> is_digit(#[trigger] text[i])
}

/// The number that a sequence of digits writes out in base ten; zero for the
/// empty sequence.
pub open spec fn digits_value(digits: Seq<char>) -> int
    decreases digits.len(),
{
    if digits.len() == 0 {
        0
    } else {
        digits_value(digits.drop_last()) * 10 + digit_value(digits.last())
    }
}

/// The number of digits that `text` begins with.
pub open spec fn digit_run(text: Seq<char>) -> int
    decreases text.len(),
{
    if text.len() > 0 && is_digit(text[0]) {
        1 + digit_run(text.skip(1))
    } else {
        0
    }
}

pub open spec fn is_signed(text: Seq<char>) -> bool {
    text.len() > 0 && (text[0] == '+' || text[0] == '-')
}

/// `text` without its sign.
pub open spec fn unsigned_part(text: Seq<char>) -> Seq<char> {
    if is_signed(text) {
        text.skip(1)
    } else {
        text
    }
}

/// Whether `number` is digits, or digits with a point among them or at
/// either end, and holds a digit at all.
pub open spec fn is_decimal(number: Seq<char>) -> bool {
    let rest = number.skip(digit_run(number));
    if rest.len() == 0 {
        number.len() > 0
    } else {
        rest[0] == '.' && all_digits(rest.skip(1)) && number.len() > 1
    }
}

/// The value of the digits before the point.
pub open spec fn whole_value(number: Seq<char>) -> int {
    digits_value(number.take(digit_run(number)))
}

/// The percentage that `text` writes out: the whole part of the decimal
/// number, no lower than -128 and no higher than 127; nothing where `text` is
/// no decimal number.
pub open spec fn soc_of_text(text: Seq<char>) -> Option<i8> {
    let number = unsigned_part(text);
    if !is_decimal(number) {
        None
    } else if text[0] == '-' {
        Some(vstd::math::max(-whole_value(number), -128) as i8)
    } else {
        Some(vstd::math::min(whole_value(number), 127) as i8)
    }
}

/// Whether a sampled value is a state of charge.
pub open spec fn reports_soc(entry: SampledValueView) -> bool {
    entry.measurand == Some("SoC"@)
}

/// Whether `sampled[i]` is the first state of charge among `sampled`.
pub open spec fn is_first_soc(sampled: Seq<SampledValueView>, i: int) -> bool {
    &&& 0 <= i < sampled.len()
    &&& reports_soc(sampled[i])
    &&& forall|j: int| 0 <= j < i ==> !reports_soc(#[trigger] sampled[j])
}

/// The first state of charge among `sampled`, where there is one.
pub open spec fn soc_entry(sampled: Seq<SampledValueView>) -> Option<SampledValueView> {
    if exists|i: int| is_first_soc(sampled, i) {
        Some(sampled[choose|i: int| is_first_soc(sampled, i)])
    } else {
        None
    }
}

/// The percentage that a sampled value holds, or [`UNREADABLE_SOC`] where its
/// value is absent or no decimal number.
pub open spec fn soc_of_entry(entry: SampledValueView) -> i8 {
    match entry.value {
        Some(text) => match soc_of_text(text) {
            Some(soc) => soc,
            None => UNREADABLE_SOC,
        },
        None => UNREADABLE_SOC,
    }
}

/// The state of charge that a meter reading reports, or [`UNREADABLE_SOC`].
pub open spec fn soc_of_meterval(metervalue: MeterValueView) -> i8 {
    match soc_entry(metervalue.sampled_value) {
        Some(entry) => soc_of_entry(entry),
        None => UNREADABLE_SOC,
    }
}

/// The percentage still missing to reach `desired_soc`; nothing where
/// `current_soc` has reached it.
pub open spec fn spec_soc_needed(desired_soc: int, current_soc: int) -> int {
    if current_soc >= desired_soc {
        0
    } else {
        desired_soc - current_soc
    }
}

/// The value of a decimal digit.
pub fn digit_of(c: char) -> (digit: Option<u8>)
    ensures
        digit is Some == is_digit(c),
        is_digit(c) ==> digit == Some(digit_value(c) as u8),
{
    if '0' <= c && c <= '9' {
        Some((c as u32 - '0' as u32) as u8)
    } else {
        None
    }
}

/// The percentage that `text` writes out, where it is a decimal number.
pub fn parse_soc_text(text: &String) -> (reading: Option<i8>)
    ensures
        reading == soc_of_text(text@),
{
    let s = text.as_str();
    let n = s.unicode_len();
    let mut negative = false;
    let mut start: usize = 0;
    if n > 0 {
        let sign = s.get_char(0);
        if sign == '-' {
            negative = true;
            start = 1;
        } else if sign == '+' {
            start = 1;
        }
    }
    let ghost number = unsigned_part(text@);
    assert(number =~= text@.skip(start as int));

    let mut i: usize = start;
    let mut whole: i16 = 0;
    proof {
        assert(text@.subrange(start as int, i as int) =~= Seq::empty());
    }
    loop
        invariant
            start <= i <= n,
            n == text@.len(),
            s@ == text@,
            forall|k: int| start <= k < i ==> is_digit(#[trigger] text@[k]),
            whole == vstd::math::min(
                digits_value(text@.subrange(start as int, i as int)),
                128,
            ),
            0 <= digits_value(text@.subrange(start as int, i as int)),
        ensures
            i == n || !is_digit(text@[i as int]),
        decreases n - i,
    {
        if i >= n {
            break ;
        }
        match digit_of(s.get_char(i)) {
            None => {
                break ;
            },
            Some(digit) => {
                proof {
                    assert(text@.subrange(start as int, i + 1).drop_last() =~= text@.subrange(
                        start as int,
                        i as int,
                    ));
                }
                let next: i16 = whole * 10 + digit as i16;
                whole = if next > 128 { 128 } else { next };
                i += 1;
            },
        }
    }
    let whole_len: usize = i - start;
    proof {
        lemma_digit_run(number, whole_len as int);
        assert(number.take(whole_len as int) =~= text@.subrange(start as int, i as int));
    }
    let ghost rest = number.skip(whole_len as int);
    let has_point = i < n;
    if has_point {
        assert(rest[0] == text@[i as int]);
        if s.get_char(i) != '.' {
            return None;
        }
        let point: usize = i;
        i += 1;
        while i < n
            invariant
                point < i <= n,
                n == text@.len(),
                s@ == text@,
                point == start + whole_len,
                number == unsigned_part(text@),
                digit_run(number) == whole_len,
                rest == number.skip(whole_len as int),
                rest == text@.skip(point as int),
                forall|k: int| point < k < i ==> is_digit(#[trigger] text@[k]),
            decreases n - i,
        {
            if digit_of(s.get_char(i)).is_none() {
                assert(!is_digit(rest.skip(1)[i - point - 1]));
                return None;
            }
            i += 1;
        }
        assert forall|k: int| 0 <= k < rest.skip(1).len() implies is_digit(
            #[trigger] rest.skip(1)[k],
        ) by {
            assert(rest.skip(1)[k] == text@[point + 1 + k]);
        }
    }
    let length: usize = n - start;
    if length == 0 || (has_point && length == 1) {
        return None;
    }
    if negative {
        Some((-whole) as i8)
    } else if whole > 127 {
        Some(127)
    } else {
        Some(whole as i8)
    }
}

/// The state of charge that a meter reading reports, as a percentage, or
/// [`UNREADABLE_SOC`] where it reports none that can be read.
///
/// The state of charge is the first sampled value whose measurand is `SoC`.
/// It is unreadable where there is none, where that one has no value, and
/// where its value is no decimal number. A reading of -1 percent is not told
/// apart from an unreadable one.
pub fn parse_meterval(metervalue: &MeterValue) -> (soc: i8)
    ensures
        soc == soc_of_meterval(metervalue@),
{
    let soc_name = String::from_str("SoC");
    let ghost sampled = metervalue@.sampled_value;
    let mut i: usize = 0;
    while i < metervalue.sampled_value.len()
        invariant
            i <= metervalue.sampled_value.len(),
            sampled == metervalue.sampled_value.deep_view(),
            soc_name@ == "SoC"@,
            forall|j: int| 0 <= j < i ==> !reports_soc(#[trigger] sampled[j]),
        decreases metervalue.sampled_value.len() - i,
    {
        let entry = &metervalue.sampled_value[i];
        assert(sampled[i as int] == entry@);
        let found = match &entry.measurand {
            Some(measurand) => *measurand == soc_name,
            None => false,
        };
        if found {
            assert(is_first_soc(sampled, i as int));
            return match &entry.value {
                Some(text) => match parse_soc_text(text) {
                    Some(soc) => soc,
                    None => UNREADABLE_SOC,
                },
                None => UNREADABLE_SOC,
            };
        }
        i += 1;
    }
    UNREADABLE_SOC
}

/// The percentage still missing to reach `desired_soc`: the difference where
/// `current_soc` lies below it, and nothing where it does not.
pub fn soc_needed(desired_soc: i8, current_soc: i8) -> (needed: i16)
    ensures
        needed == spec_soc_needed(desired_soc as int, current_soc as int),
        0 <= needed <= 255,
{
    if current_soc >= desired_soc {
        0
    } else {
        desired_soc as i16 - current_soc as i16
    }
}

/// A text that begins with `n` digits and goes on with something else, or
/// ends there, has a digit run of `n`.
pub proof fn lemma_digit_run(text: Seq<char>, n: int)
    requires
        0 <= n <= text.len(),
        forall|i: int| 0 <= i < n ==> is_digit(#[trigger] text[i]),
        n == text.len() || !is_digit(text[n]),
    ensures
        digit_run(text) == n,
    decreases n,
{
    if n > 0 {
        assert forall|i: int| 0 <= i < n - 1 implies is_digit(#[trigger] text.skip(1)[i]) by {
            assert(text.skip(1)[i] == text[i + 1]);
        }
        lemma_digit_run(text.skip(1), n - 1);
    }
}

} // verus!
