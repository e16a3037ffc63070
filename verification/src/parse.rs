//! The parse direction of the decimal-text converter: reading a gas quantity
//! from a human-entered decimal string with a unit suffix.
use vstd::prelude::*;
use vstd::arithmetic::mul::lemma_mul_inequality;
use crate::error::DecimalNumberParsingError;
use crate::error::UncGasError;
use crate::text::all_digits;
use crate::text::amount_part;
use crate::text::decimal_err_matches;
use crate::text::decimal_fits;
use crate::text::decimal_value;
use crate::text::digit_of;
use crate::text::digits_value;
use crate::text::dot_pos;
use crate::text::frac_part;
use crate::text::int_part;
use crate::text::is_alpha;
use crate::text::is_digit;
use crate::text::is_space;
use crate::text::matches_token;
use crate::text::pow10;
use crate::text::scale_digits;
use crate::text::suffix_start;
use crate::text::token_scale;
use crate::text::trim_end;
use crate::text::trim_start;
use crate::text::unit_part;
use crate::text::upper_of;
use crate::text::valid_decimal;
use crate::UncGas;
use crate::ONE_GIGA_GAS;
use crate::ONE_TERA_GAS;

verus! {

proof fn lemma_pow10_mono(a: nat, b: nat)
    requires
        a <= b,
    ensures
        pow10(a) <= pow10(b),
    decreases b,
{
    if a < b {
        lemma_pow10_mono(a, (b - 1) as nat);
    }
}

proof fn lemma_pow10_pos(n: nat)
    ensures
        pow10(n) >= 1,
    decreases n,
{
    if n > 0 {
        lemma_pow10_pos((n - 1) as nat);
    }
}

proof fn lemma_pow10_adds(a: nat, b: nat)
    ensures
        pow10(a + b) == pow10(a) * pow10(b),
    decreases a,
{
    if a == 0 {
        assert(pow10(0) == 1);
    } else {
        lemma_pow10_adds((a - 1) as nat, b);
        assert(pow10(a + b) == 10 * pow10((a + b - 1) as nat));
        assert(pow10(a) == 10 * pow10((a - 1) as nat));
        assert(10 * (pow10((a - 1) as nat) * pow10(b)) == (10 * pow10((a - 1) as nat)) * pow10(b))
            by (nonlinear_arith);
    }
}

proof fn lemma_pow10_values()
    ensures
        pow10(9) == ONE_GIGA_GAS,
        pow10(12) == ONE_TERA_GAS,
{
    assert(pow10(0) == 1);
    assert(pow10(1) == 10);
    assert(pow10(2) == 100);
    assert(pow10(3) == 1000);
    assert(pow10(4) == 10000);
    assert(pow10(5) == 100000);
    assert(pow10(6) == 1000000);
    assert(pow10(7) == 10000000);
    assert(pow10(8) == 100000000);
    assert(pow10(9) == 1000000000);
    assert(pow10(10) == 10000000000);
    assert(pow10(11) == 100000000000);
    assert(pow10(12) == 1000000000000);
}

/// `dot_pos` is the one position with a dot there and none before it.
proof fn lemma_dot_pos_at(s: Seq<char>, i: int)
    requires
        0 <= i <= s.len(),
        forall|j: int| 0 <= j < i ==> s[j] != '.',
        i < s.len() ==> s[i] == '.',
    ensures
        dot_pos(s) == i,
    decreases s.len(),
{
    if s.len() == 0 {
    } else if s[0] == '.' {
        assert(i == 0);
    } else {
        assert(i >= 1);
        assert forall|j: int| 0 <= j < i - 1 implies s.skip(1)[j] != '.' by {
            assert(s.skip(1)[j] == s[j + 1]);
        }
        lemma_dot_pos_at(s.skip(1), i - 1);
    }
}

/// Whether `c` is an ASCII decimal digit.
fn is_digit_exec(c: char) -> (r: bool)
    ensures
        r == is_digit(c),
{
    '0' <= c && c <= '9'
}

/// The numeric value of an ASCII decimal digit; zero on any other character.
fn digit_val(c: char) -> (r: u64)
    ensures
        r as nat == digit_of(c),
        r < 10,
{
    if c == '1' {
        1
    } else if c == '2' {
        2
    } else if c == '3' {
        3
    } else if c == '4' {
        4
    } else if c == '5' {
        5
    } else if c == '6' {
        6
    } else if c == '7' {
        7
    } else if c == '8' {
        8
    } else if c == '9' {
        9
    } else {
        0
    }
}

/// Ten to the power `e`, for exponents up to the tera scale.
fn pow10_u64(e: usize) -> (r: u64)
    requires
        e <= 12,
    ensures
        r as nat == pow10(e as nat),
{
    let mut r: u64 = 1;
    let mut k: usize = 0;
    while k < e
        invariant
            k <= e <= 12,
            r as nat == pow10(k as nat),
        decreases e - k,
    {
        proof {
            lemma_pow10_mono((k + 1) as nat, 12);
            lemma_pow10_values();
        }
        r = r * 10;
        k = k + 1;
    }
    r
}

/// The number of fractional digits `precision` can represent exactly.
fn scale_digits_exec(precision: u64) -> (r: usize)
    ensures
        r as nat == scale_digits(precision),
{
    if precision == ONE_TERA_GAS {
        12
    } else if precision == ONE_GIGA_GAS {
        9
    } else {
        0
    }
}

/// Parses a decimal literal of the shape `digits [ '.' digits ]` into the
/// exact count of base units under the given unit multiplier: the integer
/// part times the multiplier, plus the fraction right-padded with zeros to
/// the multiplier's digit count. A fraction longer than the multiplier can
/// represent exactly, or a scaled value above `u64::MAX`, is an error, never
/// a truncation.
pub fn parse_decimal_number(s: &str, precision: u64) -> (r: Result<
    u64,
    DecimalNumberParsingError,
>)
    requires
        precision == 1 || precision == ONE_GIGA_GAS || precision == ONE_TERA_GAS,
    ensures
        match r {
            Ok(v) => decimal_fits(s@, precision) && v as nat == decimal_value(s@, precision),
            Err(e) => decimal_err_matches(s@, precision, e),
        },
{
    let n = s.unicode_len();
    // Find the first dot, if any.
    let mut dot: usize = n;
    let mut i: usize = 0;
    while i < n
        invariant
            i <= n,
            n == s@.len(),
            dot == n || dot < i,
            dot == n ==> forall|j: int| 0 <= j < i ==> s@[j] != '.',
            dot < n ==> s@[dot as int] == '.' && (forall|j: int| 0 <= j < dot ==> s@[j] != '.'),
        decreases n - i,
    {
        if dot == n && s.get_char(i) == '.' {
            dot = i;
        }
        i = i + 1;
    }
    proof {
        lemma_dot_pos_at(s@, dot as int);
    }
    if dot == 0 {
        return Err(DecimalNumberParsingError::InvalidNumber(s.to_owned()));
    }
    // Validate the whole part and accumulate its value, tracking overflow.
    let mut whole: u64 = 0;
    let mut too_big: bool = false;
    let mut j: usize = 0;
    while j < dot
        invariant
            j <= dot <= n,
            n == s@.len(),
            dot_pos(s@) == dot,
            forall|k: int| 0 <= k < j ==> is_digit(#[trigger] s@[k]),
            !too_big ==> whole as nat == digits_value(s@.take(j as int)),
            too_big ==> digits_value(s@.take(j as int)) > u64::MAX,
        decreases dot - j,
    {
        let c = s.get_char(j);
        if !is_digit_exec(c) {
            assert(int_part(s@)[j as int] == s@[j as int]);
            return Err(DecimalNumberParsingError::InvalidNumber(s.to_owned()));
        }
        let d = digit_val(c);
        proof {
            assert(s@.take(j + 1).drop_last() =~= s@.take(j as int));
            assert(s@.take(j + 1).last() == s@[j as int]);
        }
        if !too_big {
            match whole.checked_mul(10) {
                Some(w10) => {
                    match w10.checked_add(d) {
                        Some(w) => {
                            whole = w;
                        },
                        None => {
                            too_big = true;
                        },
                    }
                },
                None => {
                    too_big = true;
                },
            }
        }
        j = j + 1;
    }
    proof {
        assert(s@.take(dot as int) =~= int_part(s@));
    }
    // Validate the fraction part and accumulate its value.
    let mut fra: u64 = 0;
    let flen: usize = if dot < n {
        n - dot - 1
    } else {
        0
    };
    if dot < n {
        if flen == 0 {
            return Err(DecimalNumberParsingError::InvalidNumber(s.to_owned()));
        }
        let ghost fseq = frac_part(s@);
        proof {
            assert(fseq =~= s@.skip(dot + 1));
        }
        proof {
            assert(pow10(0) == 1);
        }
        let mut j2: usize = 0;
        while j2 < flen
            invariant
                j2 <= flen,
                flen == n - dot - 1,
                dot < n,
                n == s@.len(),
                dot_pos(s@) == dot,
                fseq == frac_part(s@),
                fseq == s@.skip(dot + 1),
                forall|k: int| 0 <= k < j2 ==> is_digit(#[trigger] fseq[k]),
                flen <= 12 ==> fra as nat == digits_value(fseq.take(j2 as int)) && (fra as nat)
                    < pow10(j2 as nat),
                flen > 12 ==> fra == 0,
            decreases flen - j2,
        {
            let c = s.get_char(dot + 1 + j2);
            proof {
                assert(fseq[j2 as int] == s@[dot + 1 + j2]);
            }
            if !is_digit_exec(c) {
                return Err(DecimalNumberParsingError::InvalidNumber(s.to_owned()));
            }
            let d = digit_val(c);
            proof {
                assert(fseq.take(j2 + 1).drop_last() =~= fseq.take(j2 as int));
                assert(fseq.take(j2 + 1).last() == fseq[j2 as int]);
            }
            if flen <= 12 {
                proof {
                    lemma_pow10_mono((j2 + 1) as nat, 12);
                    lemma_pow10_values();
                    assert(pow10((j2 + 1) as nat) == 10 * pow10(j2 as nat));
                }
                fra = fra * 10 + d;
            }
            j2 = j2 + 1;
        }
        proof {
            assert(fseq.take(flen as int) =~= fseq);
        }
    }
    // The shape is now known to be valid.
    proof {
        assert(valid_decimal(s@));
        if dot == n {
            assert(frac_part(s@) =~= Seq::<char>::empty());
        }
    }
    let digits = scale_digits_exec(precision);
    if flen > digits {
        let ftext = s.substring_char(dot + 1, n);
        proof {
            assert(ftext@ =~= frac_part(s@));
        }
        return Err(DecimalNumberParsingError::LongFractional(ftext.to_owned()));
    }
    // Pad the fraction to the multiplier's digit count. The padded fraction
    // is below the multiplier itself, so it always fits.
    proof {
        assert(pow10(0) == 1);
        assert(frac_part(s@).len() == flen);
        assert(fra as nat == digits_value(frac_part(s@)));
        assert((fra as nat) < pow10(flen as nat));
    }
    let m = pow10_u64(digits - flen);
    proof {
        lemma_pow10_adds(flen as nat, (digits - flen) as nat);
        lemma_pow10_mono(digits as nat, 12);
        lemma_pow10_values();
        lemma_pow10_pos((digits - flen) as nat);
        lemma_mul_inequality(fra as int, pow10(flen as nat) as int - 1, m as int);
        assert((pow10(flen as nat) as int - 1) * (m as int) == pow10(flen as nat) as int * (m as int)
            - m as int) by (nonlinear_arith);
        assert((fra as nat) * (m as nat) < pow10(digits as nat));
    }
    let fra_padded: u64 = fra * m;
    let ghost total = decimal_value(s@, precision);
    proof {
        assert(total == digits_value(int_part(s@)) * (precision as nat) + fra_padded as nat);
        if too_big {
            lemma_mul_inequality(1, precision as int, digits_value(int_part(s@)) as int);
        }
    }
    if too_big {
        let itext = s.substring_char(0, dot);
        proof {
            assert(itext@ =~= int_part(s@));
        }
        return Err(DecimalNumberParsingError::LongWhole(itext.to_owned()));
    }
    match whole.checked_mul(precision) {
        Some(scaled) => {
            match scaled.checked_add(fra_padded) {
                Some(result) => Ok(result),
                None => {
                    let itext = s.substring_char(0, dot);
                    proof {
                        assert(itext@ =~= int_part(s@));
                    }
                    Err(DecimalNumberParsingError::LongWhole(itext.to_owned()))
                },
            }
        },
        None => {
            let itext = s.substring_char(0, dot);
            proof {
                assert(itext@ =~= int_part(s@));
            }
            Err(DecimalNumberParsingError::LongWhole(itext.to_owned()))
        },
    }
}

/// Whether `c` is an ASCII letter.
fn is_alpha_exec(c: char) -> (r: bool)
    ensures
        r == is_alpha(c),
{
    ('a' <= c && c <= 'z') || ('A' <= c && c <= 'Z')
}

/// Whether `c` is ASCII whitespace.
fn is_space_exec(c: char) -> (r: bool)
    ensures
        r == is_space(c),
{
    c == ' ' || c == '\t' || c == '\n' || c == '\r'
}

/// The upper-case form of the lower-case letters that unit tokens use.
fn upper_of_exec(c: char) -> (r: char)
    ensures
        r == upper_of(c),
{
    if c == 'a' {
        'A'
    } else if c == 'e' {
        'E'
    } else if c == 'g' {
        'G'
    } else if c == 'i' {
        'I'
    } else if c == 'r' {
        'R'
    } else if c == 's' {
        'S'
    } else if c == 't' {
        'T'
    } else {
        c
    }
}

/// Whether `s` spells the lower-case token `token`, each letter in either
/// case.
fn token_ieq(s: &str, token: &str) -> (r: bool)
    ensures
        r == matches_token(s@, token@),
{
    let n = s.unicode_len();
    if n != token.unicode_len() {
        return false;
    }
    let mut i: usize = 0;
    while i < n
        invariant
            i <= n,
            n == s@.len() == token@.len(),
            forall|j: int|
                0 <= j < i ==> (#[trigger] s@[j]) == token@[j] || s@[j] == upper_of(token@[j]),
        decreases n - i,
    {
        let c = s.get_char(i);
        let t = token.get_char(i);
        if !(c == t || c == upper_of_exec(t)) {
            return false;
        }
        i = i + 1;
    }
    true
}

/// The recognized unit suffix tokens and the multiplier each denotes, one
/// row per canonical spelling, for callers that enumerate the accepted
/// units. Matching in [`UncGas::from_text`] also accepts each letter in
/// either case.
pub fn unit_tokens() -> (r: Vec<(&'static str, u64)>)
    ensures
        r@.len() == 5,
        forall|i: int|
            0 <= i < r@.len() ==> token_scale((#[trigger] r@[i]).0@) == Some(r@[i].1),
{
    proof {
        reveal_strlit("Tgas");
        reveal_strlit("TeraGas");
        reveal_strlit("Ggas");
        reveal_strlit("GigaGas");
        reveal_strlit("gas");
        reveal_strlit("tgas");
        reveal_strlit("teragas");
        reveal_strlit("ggas");
        reveal_strlit("gigagas");
    }
    let mut v: Vec<(&'static str, u64)> = Vec::new();
    v.push(("Tgas", ONE_TERA_GAS));
    v.push(("TeraGas", ONE_TERA_GAS));
    v.push(("Ggas", ONE_GIGA_GAS));
    v.push(("GigaGas", ONE_GIGA_GAS));
    v.push(("gas", 1));
    proof {
        assert(!matches_token("Ggas"@, "tgas"@)) by {
            assert("Ggas"@[0] == 'G');
            assert("tgas"@[0] == 't');
            assert(upper_of('t') == 'T');
        }
        assert(!matches_token("GigaGas"@, "teragas"@)) by {
            assert("GigaGas"@[0] == 'G');
            assert("teragas"@[0] == 't');
            assert(upper_of('t') == 'T');
        }
        assert(token_scale("Tgas"@) == Some(ONE_TERA_GAS));
        assert(token_scale("TeraGas"@) == Some(ONE_TERA_GAS));
        assert(token_scale("Ggas"@) == Some(ONE_GIGA_GAS));
        assert(token_scale("GigaGas"@) == Some(ONE_GIGA_GAS));
        assert(token_scale("gas"@) == Some(1u64));
        assert(v@[0] == ("Tgas", ONE_TERA_GAS));
        assert(v@[1] == ("TeraGas", ONE_TERA_GAS));
        assert(v@[2] == ("Ggas", ONE_GIGA_GAS));
        assert(v@[3] == ("GigaGas", ONE_GIGA_GAS));
        assert(v@[4] == ("gas", 1u64));
    }
    v
}

impl UncGas {
    /// Parses a gas quantity from text of the shape
    /// `<digits>[.<digits>] <unit>`: a decimal literal followed by a unit
    /// suffix, with optional whitespace between them.
    ///
    /// The suffix is the trailing run of ASCII letters; it must spell one of
    /// the recognized unit tokens `gas`, `ggas`, `gigagas`, `tgas` or
    /// `teragas` (each letter in either case), else the parse fails with
    /// [`UncGasError::IncorrectUnit`]. A malformed, too precise or too large
    /// numeric portion fails with [`UncGasError::IncorrectNumber`].
    ///
    /// # Examples
    /// ```
    /// use unc_gas::UncGas;
    /// assert_eq!(UncGas::from_text("1.1 Tgas"), Ok(UncGas::from_gas(1_100_000_000_000)));
    /// ```
    #[verifier::rlimit(50)]
    pub fn from_text(s: &str) -> (r: Result<UncGas, UncGasError>)
        ensures
            match r {
                Ok(g) => (token_scale(unit_part(s@)) matches Some(p) && decimal_fits(
                    amount_part(s@),
                    p,
                ) && g@ as nat == decimal_value(amount_part(s@), p)),
                Err(UncGasError::IncorrectUnit(t)) => token_scale(unit_part(s@)) is None && t@
                    == unit_part(s@),
                Err(UncGasError::IncorrectNumber(e)) => (token_scale(unit_part(s@)) matches Some(p)
                    && decimal_err_matches(amount_part(s@), p, e)),
            },
    {
        let n = s.unicode_len();
        // The unit suffix is the trailing run of ASCII letters.
        proof {
            assert(s@.take(n as int) =~= s@);
        }
        let mut k: usize = n;
        while k > 0 && is_alpha_exec(s.get_char(k - 1))
            invariant
                k <= n,
                n == s@.len(),
                suffix_start(s@) == suffix_start(s@.take(k as int)),
            decreases k,
        {
            proof {
                assert(s@.take(k as int).last() == s@[k - 1]);
                assert(s@.take(k as int).drop_last() =~= s@.take(k - 1));
            }
            k = k - 1;
        }
        proof {
            if k > 0 {
                assert(s@.take(k as int).last() == s@[k - 1]);
            }
            assert(suffix_start(s@.take(k as int)) == k as int);
            assert(suffix_start(s@) == k as int);
        }
        let unit = s.substring_char(k, n);
        proof {
            assert(unit@ =~= unit_part(s@));
        }
        let scale: u64 = if token_ieq(unit, "tgas") || token_ieq(unit, "teragas") {
            ONE_TERA_GAS
        } else if token_ieq(unit, "ggas") || token_ieq(unit, "gigagas") {
            ONE_GIGA_GAS
        } else if token_ieq(unit, "gas") {
            1
        } else {
            return Err(UncGasError::IncorrectUnit(unit.to_owned()));
        };
        // The numeric portion is everything before the suffix, trimmed.
        proof {
            assert(s@.take(k as int) =~= s@.subrange(0, k as int));
        }
        let mut lo: usize = 0;
        while lo < k && is_space_exec(s.get_char(lo))
            invariant
                lo <= k <= n,
                n == s@.len(),
                trim_start(s@.take(k as int)) == trim_start(s@.subrange(lo as int, k as int)),
            decreases k - lo,
        {
            proof {
                assert(s@.subrange(lo as int, k as int)[0] == s@[lo as int]);
                assert(s@.subrange(lo as int, k as int).skip(1) =~= s@.subrange(
                    lo + 1,
                    k as int,
                ));
            }
            lo = lo + 1;
        }
        proof {
            if lo < k {
                assert(s@.subrange(lo as int, k as int)[0] == s@[lo as int]);
            }
            assert(trim_start(s@.take(k as int)) == s@.subrange(lo as int, k as int));
        }
        let mut hi: usize = k;
        while hi > lo && is_space_exec(s.get_char(hi - 1))
            invariant
                lo <= hi <= k <= n,
                n == s@.len(),
                trim_start(s@.take(k as int)) == s@.subrange(lo as int, k as int),
                trim_end(s@.subrange(lo as int, k as int)) == trim_end(
                    s@.subrange(lo as int, hi as int),
                ),
            decreases hi,
        {
            proof {
                assert(s@.subrange(lo as int, hi as int).last() == s@[hi - 1]);
                assert(s@.subrange(lo as int, hi as int).drop_last() =~= s@.subrange(
                    lo as int,
                    hi - 1,
                ));
            }
            hi = hi - 1;
        }
        let amount = s.substring_char(lo, hi);
        proof {
            if hi > lo {
                assert(s@.subrange(lo as int, hi as int).last() == s@[hi - 1]);
            }
            assert(trim_end(s@.subrange(lo as int, hi as int)) == s@.subrange(
                lo as int,
                hi as int,
            ));
            assert(amount@ =~= amount_part(s@));
        }
        match parse_decimal_number(amount, scale) {
            Ok(v) => Ok(UncGas::from_gas(v)),
            Err(e) => Err(UncGasError::IncorrectNumber(e)),
        }
    }
}

} // verus!
