//! The mathematical model of the decimal-text converter.
//!
//! These specification functions say, over sequences of characters, what the
//! parser accepts and what value it yields, and what string the display
//! direction produces. The executable code in `parse` and `render` is proved
//! against them.
use vstd::prelude::*;
use crate::error::DecimalNumberParsingError;
use crate::ONE_GIGA_GAS;
use crate::ONE_TERA_GAS;

verus! {

/// Whether `c` is an ASCII decimal digit.
pub open spec fn is_digit(c: char) -> bool {
    '0' <= c && c <= '9'
}

/// The numeric value of an ASCII decimal digit; zero on any other character.
pub open spec fn digit_of(c: char) -> nat {
    if c == '1' {
        1
    } else if c == '2' {
        2
    } else if c == '3' {
        3
    } else if c == '4' {
        4
    } else if c == '5' {
        5
    } else if c == '6' {
        6
    } else if c == '7' {
        7
    } else if c == '8' {
        8
    } else if c == '9' {
        9
    } else {
        0
    }
}

/// The ASCII decimal digit with numeric value `n`; `'0'` above nine.
pub open spec fn digit_char(n: nat) -> char {
    if n == 1 {
        '1'
    } else if n == 2 {
        '2'
    } else if n == 3 {
        '3'
    } else if n == 4 {
        '4'
    } else if n == 5 {
        '5'
    } else if n == 6 {
        '6'
    } else if n == 7 {
        '7'
    } else if n == 8 {
        '8'
    } else if n == 9 {
        '9'
    } else {
        '0'
    }
}

/// Whether `c` is an ASCII letter.
pub open spec fn is_alpha(c: char) -> bool {
    ('a' <= c && c <= 'z') || ('A' <= c && c <= 'Z')
}

/// Whether `c` is ASCII whitespace trimmed around the numeric portion.
pub open spec fn is_space(c: char) -> bool {
    c == ' ' || c == '\t' || c == '\n' || c == '\r'
}

/// Whether every character of `s` is an ASCII decimal digit.
pub open spec fn all_digits(s: Seq<char>) -> bool {
    forall|i: int| 0 <= i < s.len() ==> is_digit(#[trigger] s[i])
}

/// The number denoted by a sequence of decimal digits, most significant
/// first; an empty sequence denotes zero.
pub open spec fn digits_value(s: Seq<char>) -> nat
    decreases s.len(),
{
    if s.len() == 0 {
        0
    } else {
        digits_value(s.drop_last()) * 10 + digit_of(s.last())
    }
}

/// Ten to the power `n`.
pub open spec fn pow10(n: nat) -> nat
    decreases n,
{
    if n == 0 {
        1
    } else {
        10 * pow10((n - 1) as nat)
    }
}

/// The position of the first `'.'` in `s`, or `s.len()` if there is none.
pub open spec fn dot_pos(s: Seq<char>) -> int
    decreases s.len(),
{
    if s.len() == 0 {
        0
    } else if s[0] == '.' {
        0
    } else {
        1 + dot_pos(s.skip(1))
    }
}

/// The integer part of a decimal literal: everything before the first `'.'`.
pub open spec fn int_part(s: Seq<char>) -> Seq<char> {
    s.take(dot_pos(s))
}

/// The fraction part of a decimal literal: everything after the first `'.'`,
/// or empty if there is no `'.'`.
pub open spec fn frac_part(s: Seq<char>) -> Seq<char> {
    if dot_pos(s) == s.len() {
        Seq::empty()
    } else {
        s.skip(dot_pos(s) + 1)
    }
}

/// Whether `s` has the shape `digits [ '.' digits ]`, with at least one digit
/// on each side of the dot.
pub open spec fn valid_decimal(s: Seq<char>) -> bool {
    &&& int_part(s).len() > 0
    &&& all_digits(int_part(s))
    &&& (dot_pos(s) < s.len() ==> frac_part(s).len() > 0 && all_digits(frac_part(s)))
}

/// The number of fractional digits a unit multiplier can represent exactly:
/// the count of trailing zero digits of the multiplier.
pub open spec fn scale_digits(precision: u64) -> nat {
    if precision == ONE_TERA_GAS {
        12
    } else if precision == ONE_GIGA_GAS {
        9
    } else {
        0
    }
}

/// The exact base-unit value of a valid decimal literal under a unit
/// multiplier: the integer part scaled up, plus the fraction right-padded
/// with zeros to the multiplier's digit count. Meaningful only when the
/// fraction is no longer than `scale_digits(precision)`.
pub open spec fn decimal_value(s: Seq<char>, precision: u64) -> nat {
    digits_value(int_part(s)) * (precision as nat) + digits_value(frac_part(s)) * pow10(
        (scale_digits(precision) - frac_part(s).len()) as nat,
    )
}

/// Whether parsing `s` under `precision` succeeds: the shape is valid, the
/// fraction is representable, and the scaled value fits in 64 bits.
pub open spec fn decimal_fits(s: Seq<char>, precision: u64) -> bool {
    &&& valid_decimal(s)
    &&& frac_part(s).len() <= scale_digits(precision)
    &&& decimal_value(s, precision) <= u64::MAX
}

/// Which numeric parsing error is owed for `s` under `precision`, and with
/// what payload. Exactly one variant matches any rejected input.
pub open spec fn decimal_err_matches(
    s: Seq<char>,
    precision: u64,
    e: DecimalNumberParsingError,
) -> bool {
    match e {
        DecimalNumberParsingError::InvalidNumber(t) => !valid_decimal(s) && t@ == s,
        DecimalNumberParsingError::LongFractional(t) => valid_decimal(s) && frac_part(s).len()
            > scale_digits(precision) && t@ == frac_part(s),
        DecimalNumberParsingError::LongWhole(t) => valid_decimal(s) && frac_part(s).len()
            <= scale_digits(precision) && decimal_value(s, precision) > u64::MAX && t@ == int_part(
            s,
        ),
    }
}

/// Where the trailing run of ASCII letters begins in `s`; `s.len()` if the
/// last character is not a letter.
pub open spec fn suffix_start(s: Seq<char>) -> int
    decreases s.len(),
{
    if s.len() > 0 && is_alpha(s[s.len() - 1]) {
        suffix_start(s.drop_last())
    } else {
        s.len() as int
    }
}

/// The unit suffix of a gas string: its trailing run of ASCII letters.
pub open spec fn unit_part(s: Seq<char>) -> Seq<char> {
    s.skip(suffix_start(s))
}

/// `s` without its leading whitespace.
pub open spec fn trim_start(s: Seq<char>) -> Seq<char>
    decreases s.len(),
{
    if s.len() > 0 && is_space(s[0]) {
        trim_start(s.skip(1))
    } else {
        s
    }
}

/// `s` without its trailing whitespace.
pub open spec fn trim_end(s: Seq<char>) -> Seq<char>
    decreases s.len(),
{
    if s.len() > 0 && is_space(s.last()) {
        trim_end(s.drop_last())
    } else {
        s
    }
}

/// `s` without leading and trailing whitespace.
pub open spec fn trim(s: Seq<char>) -> Seq<char> {
    trim_end(trim_start(s))
}

/// The numeric portion of a gas string: everything before the unit suffix,
/// trimmed of surrounding whitespace.
pub open spec fn amount_part(s: Seq<char>) -> Seq<char> {
    trim(s.take(suffix_start(s)))
}

/// The upper-case form of the lower-case letters that unit tokens use; any
/// other character is left as it is.
pub open spec fn upper_of(c: char) -> char {
    if c == 'a' {
        'A'
    } else if c == 'e' {
        'E'
    } else if c == 'g' {
        'G'
    } else if c == 'i' {
        'I'
    } else if c == 'r' {
        'R'
    } else if c == 's' {
        'S'
    } else if c == 't' {
        'T'
    } else {
        c
    }
}

/// Whether `s` spells the lower-case token `token`, each letter in either
/// case.
pub open spec fn matches_token(s: Seq<char>, token: Seq<char>) -> bool {
    s.len() == token.len() && forall|i: int|
        0 <= i < s.len() ==> (#[trigger] s[i]) == token[i] || s[i] == upper_of(token[i])
}

/// The unit multiplier a suffix token denotes, or `None` if the token is not
/// recognized. Tokens are matched case-insensitively.
pub open spec fn token_scale(u: Seq<char>) -> Option<u64> {
    if matches_token(u, "tgas"@) || matches_token(u, "teragas"@) {
        Some(ONE_TERA_GAS)
    } else if matches_token(u, "ggas"@) || matches_token(u, "gigagas"@) {
        Some(ONE_GIGA_GAS)
    } else if matches_token(u, "gas"@) {
        Some(1u64)
    } else {
        None
    }
}

/// The decimal digits of `n`, most significant first, with no leading zeros
/// except for `n == 0` itself.
pub open spec fn dec_digits(n: nat) -> Seq<char>
    decreases n,
{
    if n < 10 {
        seq![digit_char(n)]
    } else {
        dec_digits(n / 10) + seq![digit_char(n % 10)]
    }
}

/// The decimal digits of `n` left-padded with zeros to three places;
/// meaningful for `n <= 999`.
pub open spec fn padded3(n: nat) -> Seq<char> {
    if n < 10 {
        "00"@ + dec_digits(n)
    } else if n < 100 {
        "0"@ + dec_digits(n)
    } else {
        dec_digits(n)
    }
}

/// The giga-unit count of `v` rounded up, for the three-decimal display
/// breakpoint.
pub open spec fn ceil_giga(v: u64) -> nat {
    ((v + ONE_GIGA_GAS - 1) / (ONE_GIGA_GAS as int)) as nat
}

/// The tenths-of-tera count of `v` rounded up, for the one-decimal display
/// breakpoint. The rounding addend saturates at `u64::MAX`, so the very top
/// of the range divides without the ceiling adjustment.
pub open spec fn tenths_tera(v: u64) -> nat {
    if v + 100 * ONE_GIGA_GAS - 1 > u64::MAX {
        ((u64::MAX as int / ONE_GIGA_GAS as int) / 100) as nat
    } else {
        (((v + 100 * ONE_GIGA_GAS - 1) / (ONE_GIGA_GAS as int)) / 100) as nat
    }
}

/// The display string of a quantity of `v` base units: tera-scale, rounded
/// up, with four breakpoints.
pub open spec fn display_text(v: u64) -> Seq<char> {
    if v == 0 {
        "0 Tgas"@
    } else if v < ONE_GIGA_GAS {
        "<0.001 Tgas"@
    } else if v <= 999 * ONE_GIGA_GAS {
        "0."@ + padded3(ceil_giga(v)) + " Tgas"@
    } else {
        dec_digits(tenths_tera(v) / 10) + "."@ + seq![digit_char(tenths_tera(v) % 10)] + " Tgas"@
    }
}

} // verus!
