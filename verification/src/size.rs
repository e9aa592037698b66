//! The size-string grammar: one or more ASCII digits followed by exactly one
//! of the unit suffixes `B`, `K`, `M`, `G`.
//!
//! The suffix is case-sensitive. There is no sign, no whitespace, no decimal
//! point, and only one unit.

use vstd::prelude::*;
use crate::error::NumericErrorKind;
use crate::error::ResourceError;
use crate::error::ResourceErrorView;

verus! {

/// The multiplier of the suffix `K`.
pub const KIB: u64 = 1024;

/// The multiplier of the suffix `M`.
pub const MIB: u64 = 1024 * 1024;

/// The multiplier of the suffix `G`.
pub const GIB: u64 = 1024 * 1024 * 1024;

/// The four unit suffixes.
pub open spec fn is_unit_suffix(c: char) -> bool {
    c == 'B' || c == 'K' || c == 'M' || c == 'G'
}

/// The four multipliers.
pub open spec fn is_unit_multiplier(m: u64) -> bool {
    m == 1 || m == KIB || m == MIB || m == GIB
}

/// The multiplier that a unit suffix stands for, if `c` is one.
pub open spec fn unit_multiplier(c: char) -> Option<u64> {
    if c == 'B' {
        Some(1u64)
    } else if c == 'K' {
        Some(KIB)
    } else if c == 'M' {
        Some(MIB)
    } else if c == 'G' {
        Some(GIB)
    } else {
        None
    }
}

/// The ten ASCII digits.
pub open spec fn is_digit(c: char) -> bool {
    '0' <= c <= '9'
}

/// Every character of `s` is a digit.
pub open spec fn all_digits(s: Seq<char>) -> bool {
    forall|i: int| 0 <= i < s.len() ==> is_digit(#[trigger] s[i])
}

/// The value of a digit; zero for any other character.
pub open spec fn digit_value(c: char) -> nat {
    if is_digit(c) {
        (c as int - '0' as int) as nat
    } else {
        0
    }
}

/// The number that a sequence of digits denotes in base ten.
pub open spec fn decimal_value(s: Seq<char>) -> nat
    decreases s.len(),
{
    if s.len() == 0 {
        0
    } else {
        10 * decimal_value(s.drop_last()) + digit_value(s.last())
    }
}

/// Some run of digits at the start of `s` already denotes a number that does
/// not fit in 64 bits.
pub open spec fn overflows(s: Seq<char>) -> bool {
    exists|n: int|
        0 <= n <= s.len() && all_digits(#[trigger] s.take(n)) && decimal_value(s.take(n))
            > u64::MAX
}

/// What the numeric part of a size string decodes to. Where more than one
/// thing is wrong with it, the first from the left decides: digits that run
/// out of range are an overflow even where a character that is no digit
/// follows them.
pub open spec fn parsed_decimal(s: Seq<char>) -> Result<u64, NumericErrorKind> {
    if s.len() == 0 {
        Err(NumericErrorKind::Empty)
    } else if overflows(s) {
        Err(NumericErrorKind::Overflow)
    } else if !all_digits(s) {
        Err(NumericErrorKind::InvalidDigit)
    } else {
        Ok(decimal_value(s) as u64)
    }
}

/// What a size string decodes to: the number and the multiplier of its unit.
pub open spec fn decoded_size(s: Seq<char>) -> Result<(u64, u64), ResourceErrorView> {
    if s.len() == 0 {
        Err(ResourceErrorView::InvalidSuffix)
    } else {
        match unit_multiplier(s.last()) {
            None => Err(ResourceErrorView::InvalidSuffix),
            Some(multiplier) => match parsed_decimal(s.drop_last()) {
                Ok(size) => Ok((size, multiplier)),
                Err(kind) => Err(
                    ResourceErrorView::InvalidNumericValue { text: s.drop_last(), kind },
                ),
            },
        }
    }
}

/// A size string: one or more digits, then a unit suffix.
pub open spec fn is_size_string(s: Seq<char>) -> bool {
    &&& s.len() >= 2
    &&& is_unit_suffix(s.last())
    &&& all_digits(s.drop_last())
}

/// The characters of `s`, in order.
pub fn chars_of(s: &str) -> (v: Vec<char>)
    ensures
        v@ == s@,
{
    let mut v: Vec<char> = Vec::new();
    for c in it: s.chars()
        invariant
            it.seq() == s@,
            v@ == it.seq().take(it.index()),
    {
        v.push(c);
    }
    v
}

/// The multiplier of the unit suffix `c`, if it is one.
pub fn multiplier_of(c: char) -> (r: Option<u64>)
    ensures
        r == unit_multiplier(c),
{
    if c == 'B' {
        Some(1)
    } else if c == 'K' {
        Some(KIB)
    } else if c == 'M' {
        Some(MIB)
    } else if c == 'G' {
        Some(GIB)
    } else {
        None
    }
}

/// Reads `digits` as an unsigned decimal number of 64 bits.
pub fn parse_decimal(digits: &[char]) -> (r: Result<u64, NumericErrorKind>)
    ensures
        r == parsed_decimal(digits@),
{
    let n: usize = digits.len();
    if n == 0 {
        return Err(NumericErrorKind::Empty);
    }
    let mut value: u64 = 0;
    let mut i: usize = 0;
    while i < n
        invariant
            n == digits@.len(),
            0 <= i <= n,
            all_digits(digits@.take(i as int)),
            value == decimal_value(digits@.take(i as int)),
        decreases n - i,
    {
        let c: char = digits[i];
        if !(c >= '0' && c <= '9') {
            proof {
                lemma_digits_end_at(digits@, i as int);
            }
            return Err(NumericErrorKind::InvalidDigit);
        }
        let d: u64 = (c as u32 - '0' as u32) as u64;
        proof {
            lemma_one_more_digit(digits@, i as int);
        }
        let next: Option<u64> = match value.checked_mul(10) {
            Some(tens) => tens.checked_add(d),
            None => None,
        };
        value = match next {
            Some(v) => v,
            None => {
                return Err(NumericErrorKind::Overflow);
            },
        };
        i += 1;
    }
    proof {
        assert(digits@.take(n as int) == digits@);
        lemma_in_range_never_overflows(digits@);
    }
    Ok(value)
}

/// Decodes a size string into its number and the multiplier of its unit.
pub fn decode_size(s: &str) -> (r: Result<(u64, u64), ResourceError>)
    ensures
        r matches Ok(pair) ==> decoded_size(s@) == Ok::<(u64, u64), ResourceErrorView>(pair),
        r matches Err(e) ==> decoded_size(s@) == Err::<(u64, u64), ResourceErrorView>(e@),
{
    let mut chars: Vec<char> = chars_of(s);
    let n: usize = chars.len();
    let last: char = match chars.pop() {
        Some(c) => c,
        None => {
            return Err(ResourceError::InvalidSuffix);
        },
    };
    let multiplier: u64 = match multiplier_of(last) {
        Some(m) => m,
        None => {
            return Err(ResourceError::InvalidSuffix);
        },
    };
    match parse_decimal(chars.as_slice()) {
        Ok(size) => Ok((size, multiplier)),
        Err(kind) => {
            let text: String = s.substring_char(0, n - 1).to_owned();
            Err(ResourceError::InvalidNumericValue { text, kind })
        },
    }
}

/// A longer run of characters denotes no smaller number than its start.
pub proof fn lemma_decimal_value_grows(s: Seq<char>, n: int)
    requires
        0 <= n <= s.len(),
    ensures
        decimal_value(s.take(n)) <= decimal_value(s),
    decreases s.len(),
{
    if n == s.len() {
        assert(s.take(n) == s);
    } else {
        lemma_decimal_value_grows(s.drop_last(), n);
        assert(s.drop_last().take(n) == s.take(n));
    }
}

/// After `n` digits, one more digit multiplies the value by ten and adds its
/// own.
proof fn lemma_one_more_digit(s: Seq<char>, n: int)
    requires
        0 <= n < s.len(),
        all_digits(s.take(n)),
        is_digit(s[n]),
    ensures
        all_digits(s.take(n + 1)),
        decimal_value(s.take(n + 1)) == 10 * decimal_value(s.take(n)) + (s[n] as int - '0' as int),
{
    let before = s.take(n);
    let after = s.take(n + 1);
    assert(after.drop_last() == before);
    assert(after.last() == s[n]);
    assert forall|j: int| 0 <= j < after.len() implies is_digit(#[trigger] after[j]) by {
        if j < n {
            assert(before[j] == after[j]);
        }
    }
}

/// Where the digits end at position `n` with a value in range, the whole is
/// refused for the character at `n`, not for its size.
proof fn lemma_digits_end_at(s: Seq<char>, n: int)
    requires
        0 <= n < s.len(),
        all_digits(s.take(n)),
        !is_digit(s[n]),
        decimal_value(s.take(n)) <= u64::MAX,
    ensures
        !all_digits(s),
        !overflows(s),
{
    assert forall|m: int| 0 <= m <= s.len() && all_digits(#[trigger] s.take(m)) implies decimal_value(
        s.take(m),
    ) <= u64::MAX by {
        if m > n {
            assert(s.take(m)[n] == s[n]);
        } else {
            lemma_decimal_value_grows(s.take(n), m);
            assert(s.take(n).take(m) == s.take(m));
        }
    }
}

/// Digits whose value is in range have no start that is out of range.
proof fn lemma_in_range_never_overflows(s: Seq<char>)
    requires
        decimal_value(s) <= u64::MAX,
    ensures
        !overflows(s),
{
    assert forall|m: int| 0 <= m <= s.len() implies decimal_value(#[trigger] s.take(m))
        <= u64::MAX by {
        lemma_decimal_value_grows(s, m);
    }
}

/// A string of one or more digits whose value fits in 64 bits, followed by a
/// unit suffix, decodes to that value and the multiplier of the suffix.
pub proof fn lemma_well_formed_size_is_decoded(digits: Seq<char>, suffix: char)
    requires
        digits.len() >= 1,
        all_digits(digits),
        decimal_value(digits) <= u64::MAX,
        is_unit_suffix(suffix),
    ensures
        unit_multiplier(suffix) is Some,
        decoded_size(digits.push(suffix)) == Ok::<(u64, u64), ResourceErrorView>(
            (decimal_value(digits) as u64, unit_multiplier(suffix)->0),
        ),
{
    let s = digits.push(suffix);
    assert(s.last() == suffix);
    assert(s.drop_last() == digits);
    lemma_in_range_never_overflows(digits);
}

/// A string that does not end in a unit suffix is refused for its suffix,
/// whatever stands before.
pub proof fn lemma_missing_suffix_is_refused(s: Seq<char>)
    requires
        s.len() == 0 || !is_unit_suffix(s.last()),
    ensures
        decoded_size(s) == Err::<(u64, u64), ResourceErrorView>(ResourceErrorView::InvalidSuffix),
{
}

/// With a unit suffix, but nothing or a character that is no digit before it,
/// a string is refused for its number, and the error holds what stands before
/// the suffix.
pub proof fn lemma_malformed_number_is_refused(prefix: Seq<char>, suffix: char)
    requires
        is_unit_suffix(suffix),
        prefix.len() == 0 || !all_digits(prefix),
    ensures
        decoded_size(prefix.push(suffix)) == Err::<(u64, u64), ResourceErrorView>(
            ResourceErrorView::InvalidNumericValue {
                text: prefix,
                kind: if prefix.len() == 0 {
                    NumericErrorKind::Empty
                } else if overflows(prefix) {
                    NumericErrorKind::Overflow
                } else {
                    NumericErrorKind::InvalidDigit
                },
            },
        ),
{
    let s = prefix.push(suffix);
    assert(s.last() == suffix);
    assert(s.drop_last() == prefix);
}

/// Digits whose value does not fit in 64 bits are refused for their number,
/// even before a unit suffix.
pub proof fn lemma_oversized_number_is_refused(digits: Seq<char>, suffix: char)
    requires
        is_unit_suffix(suffix),
        all_digits(digits),
        decimal_value(digits) > u64::MAX,
    ensures
        decoded_size(digits.push(suffix)) == Err::<(u64, u64), ResourceErrorView>(
            ResourceErrorView::InvalidNumericValue {
                text: digits,
                kind: NumericErrorKind::Overflow,
            },
        ),
{
    let s = digits.push(suffix);
    assert(s.last() == suffix);
    assert(s.drop_last() == digits);
    assert(digits.take(digits.len() as int) == digits);
}

/// Decoding succeeds on the size strings whose number fits in 64 bits, and
/// on nothing else.
pub proof fn lemma_decoded_exactly_the_grammar(s: Seq<char>)
    ensures
        decoded_size(s) is Ok <==> is_size_string(s) && decimal_value(s.drop_last()) <= u64::MAX,
{
    if s.len() >= 1 {
        let prefix = s.drop_last();
        if decimal_value(prefix) <= u64::MAX {
            lemma_in_range_never_overflows(prefix);
        } else if all_digits(prefix) {
            assert(prefix.take(prefix.len() as int) == prefix);
        }
    }
}

/// Whatever decodes has one of the four multipliers.
pub proof fn lemma_decoded_multiplier_is_unit(s: Seq<char>)
    ensures
        decoded_size(s) matches Ok(pair) ==> is_unit_multiplier(pair.1),
{
}

} // verus!
