//! A `UncGas` type to represent a quantity of gas, the unit that meters
//! computational work in a blockchain runtime.
//!
//! Each `UncGas` holds an exact, non-negative count of base gas units as a
//! 64-bit unsigned integer. The type offers checked and saturating
//! arithmetic, conversion between the base unit and the giga (10^9) and
//! tera (10^12) scales, parsing from human-entered decimal text with a unit
//! suffix, and rendering back to a rounded decimal display string.
//!
//! Note one deliberate asymmetry: the scaled constructors [`UncGas::from_tgas`]
//! and [`UncGas::from_ggas`] multiply without an overflow check and wrap
//! modulo 2^64 (construction-time overflow is a caller error, not reported),
//! while all runtime arithmetic is checked or saturating and never wraps.
use vstd::prelude::*;

mod error;
mod parse;
mod render;
pub mod text;

pub use error::DecimalNumberParsingError;
pub use error::UncGasError;
pub use parse::unit_tokens;

verus! {

/// One tera (10^12) base gas units: the display scale.
pub const ONE_TERA_GAS: u64 = 1_000_000_000_000;

/// One giga (10^9) base gas units.
pub const ONE_GIGA_GAS: u64 = 1_000_000_000;

/// An exact, immutable count of base gas units.
#[derive(Clone, Copy, Debug, PartialEq, Eq, Structural, PartialOrd, Ord, Hash)]
pub struct UncGas {
    inner: u64,
}

impl View for UncGas {
    type V = u64;

    closed spec fn view(&self) -> u64 {
        self.inner
    }
}

impl Default for UncGas {
    /// The zero quantity.
    fn default() -> (r: Self)
        ensures
            r@ == 0,
    {
        UncGas { inner: 0 }
    }
}

/// The modulus of 64-bit unsigned arithmetic, 2^64.
pub open spec fn u64_range() -> nat {
    0x1_0000_0000_0000_0000
}

impl UncGas {
    /// Creates a new `UncGas` from the specified number of whole tera gas.
    ///
    /// The scale multiplication is deliberately unchecked and wraps modulo
    /// 2^64: passing a count above `u64::MAX / 10^12` is a caller error that
    /// is not reported. Runtime arithmetic on the constructed value, by
    /// contrast, is always checked or saturating.
    ///
    /// # Examples
    /// ```
    /// use unc_gas::UncGas;
    ///
    /// let tera_gas = UncGas::from_tgas(5);
    ///
    /// assert_eq!(tera_gas.as_gas(), 5 * 1_000_000_000_000);
    /// ```
    pub fn from_tgas(inner: u64) -> (r: Self)
        ensures
            r@ == (inner as nat * ONE_TERA_GAS as nat) % u64_range(),
            inner as nat * ONE_TERA_GAS as nat <= u64::MAX ==> r@ == inner as nat
                * ONE_TERA_GAS as nat,
    {
        proof {
            vstd::arithmetic::div_mod::lemma_mod_bound(
                inner as int * ONE_TERA_GAS as int,
                u64_range() as int,
            );
            if inner as nat * ONE_TERA_GAS as nat <= u64::MAX {
                vstd::arithmetic::div_mod::lemma_small_mod(
                    inner as nat * ONE_TERA_GAS as nat,
                    u64_range(),
                );
            }
        }
        Self { inner: inner.wrapping_mul(ONE_TERA_GAS) }
    }

    /// Creates a new `UncGas` from the specified number of whole giga gas.
    ///
    /// The scale multiplication is deliberately unchecked and wraps modulo
    /// 2^64, exactly as in [`UncGas::from_tgas`].
    ///
    /// # Examples
    /// ```
    /// use unc_gas::UncGas;
    ///
    /// let giga_gas = UncGas::from_ggas(5);
    ///
    /// assert_eq!(giga_gas.as_gas(), 5 * 1_000_000_000);
    /// ```
    pub fn from_ggas(inner: u64) -> (r: Self)
        ensures
            r@ == (inner as nat * ONE_GIGA_GAS as nat) % u64_range(),
            inner as nat * ONE_GIGA_GAS as nat <= u64::MAX ==> r@ == inner as nat
                * ONE_GIGA_GAS as nat,
    {
        proof {
            vstd::arithmetic::div_mod::lemma_mod_bound(
                inner as int * ONE_GIGA_GAS as int,
                u64_range() as int,
            );
            if inner as nat * ONE_GIGA_GAS as nat <= u64::MAX {
                vstd::arithmetic::div_mod::lemma_small_mod(
                    inner as nat * ONE_GIGA_GAS as nat,
                    u64_range(),
                );
            }
        }
        Self { inner: inner.wrapping_mul(ONE_GIGA_GAS) }
    }

    /// Creates a new `UncGas` from the specified number of whole gas units.
    ///
    /// # Examples
    /// ```
    /// use unc_gas::UncGas;
    ///
    /// let gas = UncGas::from_gas(5 * 1_000_000_000_000);
    ///
    /// assert_eq!(gas.as_tgas(), 5);
    /// ```
    pub fn from_gas(inner: u64) -> (r: Self)
        ensures
            r@ == inner,
            r == gas_from_units(inner),
    {
        Self { inner }
    }

    /// Returns the total number of whole gas units contained by this `UncGas`.
    ///
    /// # Examples
    /// ```
    /// use unc_gas::UncGas;
    /// let gas = UncGas::from_gas(12345);
    /// assert_eq!(gas.as_gas(), 12345);
    /// ```
    pub fn as_gas(self) -> (r: u64)
        ensures
            r == self@,
    {
        self.inner
    }

    /// Returns the whole part of this quantity at giga scale, discarding the
    /// sub-giga remainder.
    ///
    /// # Examples
    /// ```
    /// use unc_gas::UncGas;
    /// let gas = UncGas::from_gas(1_000_000_000);
    /// assert_eq!(gas.as_ggas(), 1);
    /// ```
    pub fn as_ggas(self) -> (r: u64)
        ensures
            r == self@ / ONE_GIGA_GAS,
    {
        self.inner / ONE_GIGA_GAS
    }

    /// Returns the whole part of this quantity at tera scale, discarding the
    /// sub-tera remainder.
    ///
    /// # Examples
    /// ```
    /// use unc_gas::UncGas;
    /// let gas = UncGas::from_gas(1_000_000_000_000);
    /// assert_eq!(gas.as_tgas(), 1);
    /// ```
    pub fn as_tgas(self) -> (r: u64)
        ensures
            r == self@ / ONE_TERA_GAS,
            r == tgas_of(self),
    {
        self.inner / ONE_TERA_GAS
    }

    /// Checked gas addition. Computes `self + rhs`, returning `None` if the
    /// sum does not fit in 64 bits, and otherwise exactly the sum.
    pub fn checked_add(self, rhs: UncGas) -> (r: Option<Self>)
        ensures
            self@ + rhs@ <= u64::MAX ==> (r matches Some(g) && g@ == self@ + rhs@),
            self@ + rhs@ > u64::MAX ==> r is None,
    {
        match self.inner.checked_add(rhs.inner) {
            Some(gas) => Some(Self { inner: gas }),
            None => None,
        }
    }

    /// Checked gas subtraction. Computes `self - rhs`, returning `None` if
    /// `rhs` exceeds `self`, and otherwise exactly the difference.
    pub fn checked_sub(self, rhs: UncGas) -> (r: Option<Self>)
        ensures
            self@ >= rhs@ ==> (r matches Some(g) && g@ == self@ - rhs@),
            self@ < rhs@ ==> r is None,
    {
        match self.inner.checked_sub(rhs.inner) {
            Some(gas) => Some(Self { inner: gas }),
            None => None,
        }
    }

    /// Checked multiplication by a scalar. Computes `self * rhs`, returning
    /// `None` if the product does not fit in 64 bits, and otherwise exactly
    /// the product.
    pub fn checked_mul(self, rhs: u64) -> (r: Option<Self>)
        ensures
            self@ * rhs <= u64::MAX ==> (r matches Some(g) && g@ == self@ * rhs),
            self@ * rhs > u64::MAX ==> r is None,
    {
        match self.inner.checked_mul(rhs) {
            Some(gas) => Some(Self { inner: gas }),
            None => None,
        }
    }

    /// Checked division by a scalar. Computes `self / rhs`, returning `None`
    /// if and only if `rhs == 0`, and otherwise exactly the integer quotient.
    pub fn checked_div(self, rhs: u64) -> (r: Option<Self>)
        ensures
            rhs == 0 ==> r is None,
            rhs != 0 ==> (r matches Some(g) && g@ == self@ / rhs),
    {
        match self.inner.checked_div(rhs) {
            Some(gas) => Some(Self { inner: gas }),
            None => None,
        }
    }

    /// Saturating gas addition. Computes `self + rhs`, clamping to
    /// `u64::MAX` instead of overflowing.
    pub fn saturating_add(self, rhs: UncGas) -> (r: UncGas)
        ensures
            self@ + rhs@ <= u64::MAX ==> r@ == self@ + rhs@,
            self@ + rhs@ > u64::MAX ==> r@ == u64::MAX,
    {
        Self { inner: self.inner.saturating_add(rhs.inner) }
    }

    /// Saturating gas subtraction. Computes `self - rhs`, clamping to the
    /// zero quantity instead of underflowing.
    pub fn saturating_sub(self, rhs: UncGas) -> (r: UncGas)
        ensures
            self@ >= rhs@ ==> r@ == self@ - rhs@,
            self@ < rhs@ ==> r@ == 0,
    {
        Self { inner: self.inner.saturating_sub(rhs.inner) }
    }

    /// Saturating multiplication by a scalar. Computes `self * rhs`,
    /// clamping to `u64::MAX` instead of overflowing.
    pub fn saturating_mul(self, rhs: u64) -> (r: UncGas)
        ensures
            self@ * rhs <= u64::MAX ==> r@ == self@ * rhs,
            self@ * rhs > u64::MAX ==> r@ == u64::MAX,
    {
        match self.inner.checked_mul(rhs) {
            Some(gas) => Self { inner: gas },
            None => Self { inner: u64::MAX },
        }
    }

    /// Saturating division by a scalar. Computes `self / rhs`; by design a
    /// division by zero returns the zero quantity rather than failing or
    /// saturating to the maximum.
    pub fn saturating_div(self, rhs: u64) -> (r: UncGas)
        ensures
            rhs == 0 ==> r@ == 0,
            rhs != 0 ==> r@ == self@ / rhs,
    {
        if rhs == 0 {
            return UncGas { inner: 0 };
        }
        Self { inner: self.inner / rhs }
    }
}

/// The quantity holding exactly `n` base units: the model of
/// [`UncGas::from_gas`].
pub closed spec fn gas_from_units(n: u64) -> UncGas {
    UncGas { inner: n }
}

/// The whole tera-unit count of a quantity: the model of
/// [`UncGas::as_tgas`].
pub open spec fn tgas_of(g: UncGas) -> u64 {
    g@ / ONE_TERA_GAS
}

/// Law: reading a quantity built from `n` base units back at tera scale
/// yields exactly `n / 10^12` — plain integer division, discarding the
/// remainder with no rounding. The formatted display string, by contrast, is
/// rounded and lossy, so no such round trip holds through it.
pub proof fn lemma_units_to_tera_exact(n: u64)
    ensures
        tgas_of(gas_from_units(n)) == n / ONE_TERA_GAS,
{
}

} // verus!
