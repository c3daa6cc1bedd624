//! An exact fixed-point decimal: a signed 128-bit mantissa and a base-ten scale.
//!
//! The value of a decimal is `mantissa / 10^scale`. Rounding, truncation and
//! ordering are done by `rust_decimal`, which holds 96 bits of magnitude and a
//! scale of at most 28. A scale beyond that is reported, never silently
//! altered; a mantissa beyond it is still rounded and truncated exactly, in
//! 128-bit arithmetic.

use vstd::prelude::*;
use rust_decimal::Decimal;
use rust_decimal::prelude::ToPrimitive;
use crate::error::SwitchboardError;
use crate::math::{pow10_u32, round_half_even, rounds_to_nonzero, trunc_toward_zero};
use crate::math::truncated_magnitude;
use crate::math::{lemma_pow10_positive, lemma_trunc_scale_zero};

verus! {

/// `rust_decimal::Decimal`, carried through as an opaque value: a sign, 96 bits
/// of magnitude and a scale of at most 28.
#[verifier::external_type_specification]
#[verifier::external_body]
pub struct ExDecimal(rust_decimal::Decimal);

/// `rust_decimal::Error`, carried through as an opaque value.
#[verifier::external_type_specification]
#[verifier::external_body]
pub struct ExDecimalError(rust_decimal::Error);

/// What `Decimal::mantissa` returns for `d`.
pub uninterp spec fn decimal_mantissa(d: Decimal) -> i128;

/// What `Decimal::scale` returns for `d`.
pub uninterp spec fn decimal_scale(d: Decimal) -> u32;

/// What `Decimal::is_sign_negative` returns for `d`.
pub uninterp spec fn decimal_sign_negative(d: Decimal) -> bool;

/// The largest magnitude that `rust_decimal` holds: `2^96 - 1`.
pub const MAX_MANTISSA: i128 = 79228162514264337593543950335i128;

/// The largest scale that `rust_decimal` holds.
pub const MAX_SCALE: u32 = 28u32;

/// Whether `rust_decimal` can hold the pair: the scale is at most 28 and the
/// magnitude of the mantissa is below `2^96`.
pub open spec fn fits_decimal(mantissa: i128, scale: u32) -> bool {
    scale <= MAX_SCALE && -MAX_MANTISSA <= mantissa <= MAX_MANTISSA
}

/// `m1 / 10^s1 < m2 / 10^s2`, decided without division: each mantissa is
/// multiplied by the other's power of ten.
pub open spec fn scaled_lt(m1: i128, s1: u32, m2: i128, s2: u32) -> bool {
    m1 * pow10_u32(s2) < m2 * pow10_u32(s1)
}

/// `m1 / 10^s1 == m2 / 10^s2`, decided without division.
pub open spec fn scaled_eq(m1: i128, s1: u32, m2: i128, s2: u32) -> bool {
    m1 * pow10_u32(s2) == m2 * pow10_u32(s1)
}

/// Calls `Decimal::try_from_i128_with_scale`. Trusted: the call succeeds exactly
/// on the pairs of `fits_decimal`, and the decimal it builds reports the given
/// mantissa and scale, and a negative sign exactly for a negative mantissa.
#[verifier::external_body]
fn decimal_from_parts(mantissa: i128, scale: u32) -> (r: Result<Decimal, rust_decimal::Error>)
    ensures
        r.is_ok() == fits_decimal(mantissa, scale),
        r matches Ok(d) ==> decimal_mantissa(d) == mantissa && decimal_scale(d) == scale
            && decimal_sign_negative(d) == (mantissa < 0),
{
    Decimal::try_from_i128_with_scale(mantissa, scale)
}

/// Calls `Decimal::mantissa`. Trusted: it names the result.
#[verifier::external_body]
fn decimal_mantissa_of(d: &Decimal) -> (m: i128)
    ensures
        m == decimal_mantissa(*d),
{
    d.mantissa()
}

/// Calls `Decimal::scale`. Trusted: it names the result.
#[verifier::external_body]
fn decimal_scale_of(d: &Decimal) -> (s: u32)
    ensures
        s == decimal_scale(*d),
{
    d.scale()
}

/// Calls `Decimal::round`. Trusted: the result has scale zero, and its mantissa
/// is the argument's value rounded to the nearest integer, a tie going to the
/// even neighbour.
#[verifier::external_body]
fn decimal_round(d: &Decimal) -> (r: Decimal)
    requires
        fits_decimal(decimal_mantissa(*d), decimal_scale(*d)),
    ensures
        decimal_scale(r) == 0,
        decimal_mantissa(r) == round_half_even(
            decimal_mantissa(*d) as int,
            decimal_scale(*d) as nat,
        ),
{
    d.round()
}

/// Calls `ToPrimitive::to_u64` on a decimal. Trusted: a decimal with a negative
/// sign gives `None`; any other gives its value with the fraction cut off, or
/// `None` where that exceeds 64 bits.
#[verifier::external_body]
fn decimal_to_u64(d: &Decimal) -> (r: Option<u64>)
    requires
        fits_decimal(decimal_mantissa(*d), decimal_scale(*d)),
    ensures
        r == (if decimal_sign_negative(*d) || trunc_toward_zero(
            decimal_mantissa(*d) as int,
            decimal_scale(*d) as nat,
        ) > u64::MAX {
            None
        } else {
            Some(trunc_toward_zero(decimal_mantissa(*d) as int, decimal_scale(*d) as nat) as u64)
        }),
{
    d.to_u64()
}

/// Calls `ToPrimitive::to_i64` on a decimal. Trusted: the result is the value
/// with the fraction cut off towards zero, or `None` where that lies outside
/// the signed 64-bit range.
#[verifier::external_body]
fn decimal_to_i64(d: &Decimal) -> (r: Option<i64>)
    requires
        fits_decimal(decimal_mantissa(*d), decimal_scale(*d)),
    ensures
        r == (if i64::MIN <= trunc_toward_zero(
            decimal_mantissa(*d) as int,
            decimal_scale(*d) as nat,
        ) <= i64::MAX {
            Some(trunc_toward_zero(decimal_mantissa(*d) as int, decimal_scale(*d) as nat) as i64)
        } else {
            None
        }),
{
    d.to_i64()
}

/// A fixed-point number: `mantissa / 10^scale`.
#[derive(Clone, Copy, Debug)]
pub struct SwitchboardDecimal {
    pub mantissa: i128,
    pub scale: u32,
}

impl SwitchboardDecimal {
    /// Whether the decimal arithmetic can hold this value.
    pub open spec fn representable(&self) -> bool {
        fits_decimal(self.mantissa, self.scale)
    }

    /// `self < other` as numbers: the mantissas are compared after each has been
    /// brought to the common scale.
    pub open spec fn value_lt(&self, other: &SwitchboardDecimal) -> bool {
        scaled_lt(self.mantissa, self.scale, other.mantissa, other.scale)
    }

    /// `self == other` as numbers, whatever the two scales are.
    pub open spec fn value_eq(&self, other: &SwitchboardDecimal) -> bool {
        scaled_eq(self.mantissa, self.scale, other.mantissa, other.scale)
    }

    /// The value with its fraction cut off, towards zero.
    pub open spec fn truncated(&self) -> int {
        trunc_toward_zero(self.mantissa as int, self.scale as nat)
    }

    /// The value rounded to the nearest integer, ties to even.
    pub open spec fn rounded(&self) -> int {
        round_half_even(self.mantissa as int, self.scale as nat)
    }

    /// What `to_u64` returns: only the scale can make the conversion itself
    /// fail; a mantissa of any width is converted.
    pub open spec fn to_u64_spec(&self) -> Result<u64, SwitchboardError> {
        if self.scale > MAX_SCALE {
            Err(SwitchboardError::DecimalConversionError)
        } else if self.mantissa < 0 || self.truncated() > u64::MAX {
            Err(SwitchboardError::IntegerOverflowError)
        } else {
            Ok(self.truncated() as u64)
        }
    }

    /// What `to_i64` returns: only the scale can make the conversion itself
    /// fail; a mantissa of any width is converted.
    pub open spec fn to_i64_spec(&self) -> Result<i64, SwitchboardError> {
        if self.scale > MAX_SCALE {
            Err(SwitchboardError::DecimalConversionError)
        } else if self.truncated() < i64::MIN || self.truncated() > i64::MAX {
            Err(SwitchboardError::IntegerOverflowError)
        } else {
            Ok(self.truncated() as i64)
        }
    }

    /// Builds the decimal `mantissa / 10^scale`.
    pub fn new(mantissa: i128, scale: u32) -> (d: SwitchboardDecimal)
        ensures
            d.mantissa == mantissa,
            d.scale == scale,
    {
        SwitchboardDecimal { mantissa, scale }
    }

    /// Takes over the mantissa and the scale of a `rust_decimal` value.
    pub fn from_rust_decimal(d: Decimal) -> (s: SwitchboardDecimal)
        ensures
            s.mantissa == decimal_mantissa(d),
            s.scale == decimal_scale(d),
    {
        SwitchboardDecimal::new(decimal_mantissa_of(&d), decimal_scale_of(&d))
    }

    /// Converts to a `rust_decimal` value with the same mantissa and scale;
    /// fails with `DecimalConversionError` exactly when the value is not
    /// representable there.
    pub fn to_rust_decimal(&self) -> (r: Result<Decimal, SwitchboardError>)
        ensures
            r.is_ok() == self.representable(),
            r matches Ok(d) ==> decimal_mantissa(d) == self.mantissa && decimal_scale(d)
                == self.scale && decimal_sign_negative(d) == (self.mantissa < 0),
            r matches Err(e) ==> e == SwitchboardError::DecimalConversionError,
    {
        match decimal_from_parts(self.mantissa, self.scale) {
            Ok(d) => Ok(d),
            Err(_) => Err(SwitchboardError::DecimalConversionError),
        }
    }

    /// A decimal is `false` exactly when its value rounds to zero. This holds for
    /// every mantissa and scale, also beyond what `rust_decimal` can hold.
    pub fn to_bool(&self) -> (b: bool)
        ensures
            b == (self.rounded() != 0),
    {
        match decimal_from_parts(self.mantissa, self.scale) {
            Ok(d) => {
                let r = decimal_round(&d);
                decimal_mantissa_of(&r) != 0
            },
            Err(_) => rounds_to_nonzero(self.mantissa, self.scale),
        }
    }

    /// The value as an unsigned 64-bit integer, the fraction cut off. A scale
    /// above 28 gives `DecimalConversionError`; otherwise a negative decimal, or
    /// one beyond 64 bits, gives `IntegerOverflowError`. Where the mantissa is
    /// wider than `rust_decimal` holds, the division is done here in 128 bits.
    pub fn to_u64(&self) -> (r: Result<u64, SwitchboardError>)
        ensures
            r == self.to_u64_spec(),
    {
        if self.scale > MAX_SCALE {
            return Err(SwitchboardError::DecimalConversionError);
        }
        match decimal_from_parts(self.mantissa, self.scale) {
            Ok(d) => match decimal_to_u64(&d) {
                Some(v) => Ok(v),
                None => Err(SwitchboardError::IntegerOverflowError),
            },
            Err(_) => {
                let q = truncated_magnitude(self.mantissa, self.scale);
                if self.mantissa < 0 || q > u64::MAX as u128 {
                    Err(SwitchboardError::IntegerOverflowError)
                } else {
                    Ok(q as u64)
                }
            },
        }
    }

    /// The value as a signed 64-bit integer, the fraction cut off towards zero.
    /// A scale above 28 gives `DecimalConversionError`; otherwise a value outside
    /// the signed 64-bit range gives `IntegerOverflowError`. Where the mantissa
    /// is wider than `rust_decimal` holds, the division is done here in 128 bits.
    pub fn to_i64(&self) -> (r: Result<i64, SwitchboardError>)
        ensures
            r == self.to_i64_spec(),
    {
        if self.scale > MAX_SCALE {
            return Err(SwitchboardError::DecimalConversionError);
        }
        match decimal_from_parts(self.mantissa, self.scale) {
            Ok(d) => match decimal_to_i64(&d) {
                Some(v) => Ok(v),
                None => Err(SwitchboardError::IntegerOverflowError),
            },
            Err(_) => {
                let q = truncated_magnitude(self.mantissa, self.scale);
                if self.mantissa >= 0 {
                    if q <= i64::MAX as u128 {
                        Ok(q as i64)
                    } else {
                        Err(SwitchboardError::IntegerOverflowError)
                    }
                } else if q < 9223372036854775808u128 {
                    Ok(-(q as i64))
                } else if q == 9223372036854775808u128 {
                    Ok(i64::MIN)
                } else {
                    Err(SwitchboardError::IntegerOverflowError)
                }
            },
        }
    }
}

impl Default for SwitchboardDecimal {
    fn default() -> (d: SwitchboardDecimal)
        ensures
            d.mantissa == 0,
            d.scale == 0,
    {
        SwitchboardDecimal { mantissa: 0, scale: 0 }
    }
}

/// The decimal as it travels in instruction data: the same two fields, compared
/// field by field.
#[derive(Clone, Copy, Debug, PartialEq, Eq, Structural)]
pub struct BorshDecimal {
    pub mantissa: i128,
    pub scale: u32,
}

impl Default for BorshDecimal {
    fn default() -> (d: BorshDecimal)
        ensures
            d.mantissa == 0,
            d.scale == 0,
    {
        BorshDecimal { mantissa: 0, scale: 0 }
    }
}

impl From<SwitchboardDecimal> for BorshDecimal {
    fn from(s: SwitchboardDecimal) -> (b: BorshDecimal) {
        BorshDecimal { mantissa: s.mantissa, scale: s.scale }
    }
}

impl vstd::std_specs::convert::FromSpecImpl<SwitchboardDecimal> for BorshDecimal {
    open spec fn obeys_from_spec() -> bool {
        true
    }

    open spec fn from_spec(s: SwitchboardDecimal) -> BorshDecimal {
        BorshDecimal { mantissa: s.mantissa, scale: s.scale }
    }
}

impl From<BorshDecimal> for SwitchboardDecimal {
    fn from(b: BorshDecimal) -> (s: SwitchboardDecimal) {
        SwitchboardDecimal { mantissa: b.mantissa, scale: b.scale }
    }
}

impl vstd::std_specs::convert::FromSpecImpl<BorshDecimal> for SwitchboardDecimal {
    open spec fn obeys_from_spec() -> bool {
        true
    }

    open spec fn from_spec(b: BorshDecimal) -> SwitchboardDecimal {
        SwitchboardDecimal { mantissa: b.mantissa, scale: b.scale }
    }
}

impl From<SwitchboardDecimal> for bool {
    /// `false` exactly when the value rounds to zero.
    fn from(d: SwitchboardDecimal) -> (b: bool) {
        d.to_bool()
    }
}

impl vstd::std_specs::convert::FromSpecImpl<SwitchboardDecimal> for bool {
    open spec fn obeys_from_spec() -> bool {
        true
    }

    open spec fn from_spec(d: SwitchboardDecimal) -> bool {
        d.rounded() != 0
    }
}

impl From<&SwitchboardDecimal> for bool {
    /// `false` exactly when the value rounds to zero.
    fn from(d: &SwitchboardDecimal) -> (b: bool) {
        d.to_bool()
    }
}

impl vstd::std_specs::convert::FromSpecImpl<&SwitchboardDecimal> for bool {
    open spec fn obeys_from_spec() -> bool {
        true
    }

    open spec fn from_spec(d: &SwitchboardDecimal) -> bool {
        d.rounded() != 0
    }
}

impl TryFrom<SwitchboardDecimal> for u64 {
    type Error = SwitchboardError;

    /// The value with the fraction cut off, as `to_u64` gives it.
    fn try_from(d: SwitchboardDecimal) -> (r: Result<u64, SwitchboardError>) {
        d.to_u64()
    }
}

impl vstd::std_specs::convert::TryFromSpecImpl<SwitchboardDecimal> for u64 {
    open spec fn obeys_try_from_spec() -> bool {
        true
    }

    open spec fn try_from_spec(d: SwitchboardDecimal) -> Result<u64, SwitchboardError> {
        d.to_u64_spec()
    }
}

impl TryFrom<&SwitchboardDecimal> for u64 {
    type Error = SwitchboardError;

    /// The value with the fraction cut off, as `to_u64` gives it.
    fn try_from(d: &SwitchboardDecimal) -> (r: Result<u64, SwitchboardError>) {
        d.to_u64()
    }
}

impl vstd::std_specs::convert::TryFromSpecImpl<&SwitchboardDecimal> for u64 {
    open spec fn obeys_try_from_spec() -> bool {
        true
    }

    open spec fn try_from_spec(d: &SwitchboardDecimal) -> Result<u64, SwitchboardError> {
        d.to_u64_spec()
    }
}

impl TryFrom<SwitchboardDecimal> for i64 {
    type Error = SwitchboardError;

    /// The value with the fraction cut off towards zero, as `to_i64` gives it.
    fn try_from(d: SwitchboardDecimal) -> (r: Result<i64, SwitchboardError>) {
        d.to_i64()
    }
}

impl vstd::std_specs::convert::TryFromSpecImpl<SwitchboardDecimal> for i64 {
    open spec fn obeys_try_from_spec() -> bool {
        true
    }

    open spec fn try_from_spec(d: SwitchboardDecimal) -> Result<i64, SwitchboardError> {
        d.to_i64_spec()
    }
}

impl TryFrom<&SwitchboardDecimal> for i64 {
    type Error = SwitchboardError;

    /// The value with the fraction cut off towards zero, as `to_i64` gives it.
    fn try_from(d: &SwitchboardDecimal) -> (r: Result<i64, SwitchboardError>) {
        d.to_i64()
    }
}

impl vstd::std_specs::convert::TryFromSpecImpl<&SwitchboardDecimal> for i64 {
    open spec fn obeys_try_from_spec() -> bool {
        true
    }

    open spec fn try_from_spec(d: &SwitchboardDecimal) -> Result<i64, SwitchboardError> {
        d.to_i64_spec()
    }
}

/// Smaller-than on values is transitive.
pub proof fn lemma_value_lt_transitive(
    a: SwitchboardDecimal,
    b: SwitchboardDecimal,
    c: SwitchboardDecimal,
)
    requires
        a.value_lt(&b),
        b.value_lt(&c),
    ensures
        a.value_lt(&c),
{
    lemma_pow10_positive(a.scale as nat);
    lemma_pow10_positive(b.scale as nat);
    lemma_pow10_positive(c.scale as nat);
    let (ma, mb, mc) = (a.mantissa as int, b.mantissa as int, c.mantissa as int);
    let (pa, pb, pc) = (pow10_u32(a.scale), pow10_u32(b.scale), pow10_u32(c.scale));
    assert((ma * pb) * pc < (mb * pa) * pc) by (nonlinear_arith)
        requires
            ma * pb < mb * pa,
            pc >= 1,
    ;
    assert((mb * pc) * pa < (mc * pb) * pa) by (nonlinear_arith)
        requires
            mb * pc < mc * pb,
            pa >= 1,
    ;
    assert((ma * pc) * pb < (mc * pa) * pb) by (nonlinear_arith)
        requires
            (ma * pb) * pc < (mb * pa) * pc,
            (mb * pc) * pa < (mc * pb) * pa,
    ;
    assert(ma * pc < mc * pa) by (nonlinear_arith)
        requires
            (ma * pc) * pb < (mc * pa) * pb,
            pb >= 1,
    ;
}

/// Equality of values is transitive.
pub proof fn lemma_value_eq_transitive(
    a: SwitchboardDecimal,
    b: SwitchboardDecimal,
    c: SwitchboardDecimal,
)
    requires
        a.value_eq(&b),
        b.value_eq(&c),
    ensures
        a.value_eq(&c),
{
    lemma_pow10_positive(b.scale as nat);
    let (ma, mb, mc) = (a.mantissa as int, b.mantissa as int, c.mantissa as int);
    let (pa, pb, pc) = (pow10_u32(a.scale), pow10_u32(b.scale), pow10_u32(c.scale));
    assert((ma * pc) * pb == (mc * pa) * pb) by (nonlinear_arith)
        requires
            ma * pb == mb * pa,
            mb * pc == mc * pb,
    ;
    assert(ma * pc == mc * pa) by (nonlinear_arith)
        requires
            (ma * pc) * pb == (mc * pa) * pb,
            pb >= 1,
    ;
}

/// A value that equals a smaller one is itself smaller, on either side.
pub proof fn lemma_value_lt_respects_eq(
    a: SwitchboardDecimal,
    b: SwitchboardDecimal,
    c: SwitchboardDecimal,
)
    ensures
        a.value_eq(&b) && b.value_lt(&c) ==> a.value_lt(&c),
        a.value_lt(&b) && b.value_eq(&c) ==> a.value_lt(&c),
{
    lemma_pow10_positive(a.scale as nat);
    lemma_pow10_positive(b.scale as nat);
    lemma_pow10_positive(c.scale as nat);
    let (ma, mb, mc) = (a.mantissa as int, b.mantissa as int, c.mantissa as int);
    let (pa, pb, pc) = (pow10_u32(a.scale), pow10_u32(b.scale), pow10_u32(c.scale));
    if a.value_eq(&b) && b.value_lt(&c) {
        assert((ma * pc) * pb < (mc * pa) * pb) by (nonlinear_arith)
            requires
                ma * pb == mb * pa,
                mb * pc < mc * pb,
                pa >= 1,
        ;
        assert(ma * pc < mc * pa) by (nonlinear_arith)
            requires
                (ma * pc) * pb < (mc * pa) * pb,
                pb >= 1,
        ;
    }
    if a.value_lt(&b) && b.value_eq(&c) {
        assert((ma * pc) * pb < (mc * pa) * pb) by (nonlinear_arith)
            requires
                ma * pb < mb * pa,
                mb * pc == mc * pb,
                pc >= 1,
        ;
        assert(ma * pc < mc * pa) by (nonlinear_arith)
            requires
                (ma * pc) * pb < (mc * pa) * pb,
                pb >= 1,
        ;
    }
}

/// An integer stored with scale zero comes back unchanged from `to_u64` when it
/// lies in the unsigned 64-bit range; every other integer gives
/// `IntegerOverflowError`.
pub proof fn lemma_unsigned_round_trip(n: i128)
    ensures
        0 <= n <= u64::MAX ==> (SwitchboardDecimal { mantissa: n, scale: 0 }).to_u64_spec() == Ok::<
            u64,
            SwitchboardError,
        >(n as u64),
        !(0 <= n <= u64::MAX) ==> (SwitchboardDecimal { mantissa: n, scale: 0 }).to_u64_spec()
            == Err::<u64, SwitchboardError>(SwitchboardError::IntegerOverflowError),
{
    lemma_trunc_scale_zero(n as int);
}

/// An integer stored with scale zero comes back unchanged from `to_i64` when it
/// lies in the signed 64-bit range; every other integer gives
/// `IntegerOverflowError`.
pub proof fn lemma_signed_round_trip(n: i128)
    ensures
        i64::MIN <= n <= i64::MAX ==> (SwitchboardDecimal { mantissa: n, scale: 0 }).to_i64_spec()
            == Ok::<i64, SwitchboardError>(n as i64),
        !(i64::MIN <= n <= i64::MAX) ==> (SwitchboardDecimal {
            mantissa: n,
            scale: 0,
        }).to_i64_spec() == Err::<i64, SwitchboardError>(SwitchboardError::IntegerOverflowError),
{
    lemma_trunc_scale_zero(n as int);
}

/// Zero is `false` at every scale.
pub proof fn lemma_zero_is_false(scale: u32)
    ensures
        (SwitchboardDecimal { mantissa: 0, scale }).rounded() == 0,
{
    lemma_pow10_positive(scale as nat);
    let p = pow10_u32(scale);
    assert(0int / p == 0 && 0int % p == 0) by (nonlinear_arith)
        requires
            p >= 1,
    ;
}

} // verus!
