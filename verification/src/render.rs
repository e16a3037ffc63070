//! The display direction of the decimal-text converter: rendering a gas
//! quantity as a rounded tera-scale decimal string.
use vstd::prelude::*;
use crate::text::ceil_giga;
use crate::text::dec_digits;
use crate::text::digit_char;
use crate::text::display_text;
use crate::text::padded3;
use crate::text::tenths_tera;
use crate::UncGas;
use crate::ONE_GIGA_GAS;

verus! {

/// The one-character string holding the decimal digit `d`.
fn digit_str(d: u64) -> (r: &'static str)
    requires
        d < 10,
    ensures
        r@ =~= seq![digit_char(d as nat)],
{
    proof {
        reveal_strlit("0");
        reveal_strlit("1");
        reveal_strlit("2");
        reveal_strlit("3");
        reveal_strlit("4");
        reveal_strlit("5");
        reveal_strlit("6");
        reveal_strlit("7");
        reveal_strlit("8");
        reveal_strlit("9");
    }
    if d == 0 {
        "0"
    } else if d == 1 {
        "1"
    } else if d == 2 {
        "2"
    } else if d == 3 {
        "3"
    } else if d == 4 {
        "4"
    } else if d == 5 {
        "5"
    } else if d == 6 {
        "6"
    } else if d == 7 {
        "7"
    } else if d == 8 {
        "8"
    } else {
        "9"
    }
}

/// Appends the decimal digits of `n`, most significant first, to `out`.
fn push_decimal(n: u64, out: &mut String)
    ensures
        final(out)@ == old(out)@ + dec_digits(n as nat),
    decreases n,
{
    if n >= 10 {
        push_decimal(n / 10, out);
    }
    out.append(digit_str(n % 10));
    proof {
        assert(final(out)@ =~= old(out)@ + dec_digits(n as nat));
    }
}

/// Law: the three-decimal breakpoint rounds to a true ceiling of the giga
/// count — exact on whole multiples of one giga, the next integer above on
/// everything else, never rounded down.
pub proof fn lemma_ceil_giga_rounds_up(v: u64)
    requires
        ONE_GIGA_GAS <= v <= 999 * ONE_GIGA_GAS,
    ensures
        v % ONE_GIGA_GAS == 0 ==> ceil_giga(v) == v / ONE_GIGA_GAS,
        v % ONE_GIGA_GAS != 0 ==> ceil_giga(v) == v / ONE_GIGA_GAS + 1,
{
}

/// Law: below the saturation point of its rounding addend, the one-decimal
/// breakpoint rounds to a true ceiling of the tenth-of-tera count — exact on
/// whole multiples of a tenth of a tera, the next integer above on
/// everything else, never rounded down.
pub proof fn lemma_tenths_tera_rounds_up(v: u64)
    requires
        999 * ONE_GIGA_GAS < v,
        v + 100 * ONE_GIGA_GAS - 1 <= u64::MAX,
    ensures
        (v as int) % (100 * ONE_GIGA_GAS as int) == 0 ==> tenths_tera(v) == (v as int) / (100
            * ONE_GIGA_GAS as int),
        (v as int) % (100 * ONE_GIGA_GAS as int) != 0 ==> tenths_tera(v) == (v as int) / (100
            * ONE_GIGA_GAS as int) + 1,
{
    let addend = (v + 100 * ONE_GIGA_GAS - 1) as int;
    vstd::arithmetic::div_mod::lemma_div_denominator(addend, ONE_GIGA_GAS as int, 100);
}

impl UncGas {
    /// Renders the quantity as a tera-scale decimal string, rounded up to the
    /// precision of the matching display breakpoint, so the shown cost never
    /// understates the true cost.
    ///
    /// # Examples
    /// ```
    /// use unc_gas::UncGas;
    /// assert_eq!(UncGas::from_gas(100_500_000_000_000).to_text(), "100.5 Tgas");
    /// ```
    pub fn to_text(&self) -> (r: String)
        ensures
            r@ == display_text(self@),
    {
        let v = self.as_gas();
        if v == 0 {
            String::from_str("0 Tgas")
        } else if v < ONE_GIGA_GAS {
            String::from_str("<0.001 Tgas")
        } else if v <= 999 * ONE_GIGA_GAS {
            let giga = (v + (ONE_GIGA_GAS - 1)) / ONE_GIGA_GAS;
            assert(giga == ceil_giga(v));
            let mut s = String::from_str("0.");
            if giga < 10 {
                s.append("00");
            } else if giga < 100 {
                s.append("0");
            }
            push_decimal(giga, &mut s);
            s.append(" Tgas");
            proof {
                assert(s@ =~= "0."@ + padded3(ceil_giga(v)) + " Tgas"@);
            }
            s
        } else {
            let tenths = v.saturating_add(100 * ONE_GIGA_GAS - 1) / ONE_GIGA_GAS / 100;
            assert(tenths == tenths_tera(v));
            let mut s = String::new();
            push_decimal(tenths / 10, &mut s);
            s.append(".");
            s.append(digit_str(tenths % 10));
            s.append(" Tgas");
            proof {
                assert(s@ =~= dec_digits(tenths_tera(v) / 10) + "."@ + seq![
                    digit_char(tenths_tera(v) % 10),
                ] + " Tgas"@);
            }
            s
        }
    }
}

} // verus!
