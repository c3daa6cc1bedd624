//! Equality and ordering of decimals by the value they stand for, never by the
//! raw pair of mantissa and scale.

use core::cmp::Ordering;
use vstd::prelude::*;
use vstd::std_specs::cmp::{PartialEqSpec, PartialOrdSpec};
use rust_decimal::Decimal;
use crate::decimal::{decimal_mantissa, decimal_scale, fits_decimal, SwitchboardDecimal};
use crate::decimal::{scaled_eq, scaled_lt};
use crate::decimal::{lemma_value_eq_transitive, lemma_value_lt_respects_eq, lemma_value_lt_transitive};
use crate::error::SwitchboardError;

verus! {

/// How `m1 / 10^s1` stands to `m2 / 10^s2`.
pub open spec fn scaled_order(m1: i128, s1: u32, m2: i128, s2: u32) -> Ordering {
    if scaled_lt(m1, s1, m2, s2) {
        Ordering::Less
    } else if scaled_eq(m1, s1, m2, s2) {
        Ordering::Equal
    } else {
        Ordering::Greater
    }
}

/// Calls `Ord::cmp` on two `rust_decimal` values. Trusted: the result is the
/// order of the two numbers, `mantissa / 10^scale` each.
#[verifier::external_body]
fn decimal_order(a: &Decimal, b: &Decimal) -> (o: Ordering)
    requires
        fits_decimal(decimal_mantissa(*a), decimal_scale(*a)),
        fits_decimal(decimal_mantissa(*b), decimal_scale(*b)),
    ensures
        o == scaled_order(
            decimal_mantissa(*a),
            decimal_scale(*a),
            decimal_mantissa(*b),
            decimal_scale(*b),
        ),
{
    a.cmp(b)
}

impl SwitchboardDecimal {
    /// How the two values stand to each other as numbers.
    pub open spec fn value_order(&self, other: &SwitchboardDecimal) -> Ordering {
        scaled_order(self.mantissa, self.scale, other.mantissa, other.scale)
    }

    /// What `compare` returns.
    pub open spec fn compare_spec(&self, other: &SwitchboardDecimal) -> Result<
        Ordering,
        SwitchboardError,
    > {
        if self.representable() && other.representable() {
            Ok(self.value_order(other))
        } else {
            Err(SwitchboardError::DecimalConversionError)
        }
    }

    /// Orders two decimals by value. Fails with `DecimalConversionError` exactly
    /// when one of the two is not representable.
    pub fn compare(&self, other: &SwitchboardDecimal) -> (r: Result<Ordering, SwitchboardError>)
        ensures
            r == self.compare_spec(other),
    {
        let a = self.to_rust_decimal();
        let b = other.to_rust_decimal();
        match (a, b) {
            (Ok(x), Ok(y)) => Ok(decimal_order(&x, &y)),
            _ => Err(SwitchboardError::DecimalConversionError),
        }
    }
}

impl PartialEq for SwitchboardDecimal {
    /// Two representable decimals are equal when their values are; otherwise
    /// only a decimal with the same mantissa and scale is equal.
    fn eq(&self, other: &SwitchboardDecimal) -> (r: bool) {
        match self.compare(other) {
            Ok(o) => match o {
                Ordering::Equal => true,
                _ => false,
            },
            Err(_) => self.mantissa == other.mantissa && self.scale == other.scale,
        }
    }
}

impl vstd::std_specs::cmp::PartialEqSpecImpl for SwitchboardDecimal {
    open spec fn obeys_eq_spec() -> bool {
        true
    }

    open spec fn eq_spec(&self, other: &SwitchboardDecimal) -> bool {
        if self.representable() && other.representable() {
            self.value_eq(other)
        } else {
            self.mantissa == other.mantissa && self.scale == other.scale
        }
    }
}

impl Eq for SwitchboardDecimal {

}

impl PartialOrd for SwitchboardDecimal {
    /// Two representable decimals are ordered by value. Where one is not
    /// representable, the two are unordered unless they are the same pair.
    fn partial_cmp(&self, other: &SwitchboardDecimal) -> (r: Option<Ordering>) {
        match self.compare(other) {
            Ok(o) => Some(o),
            Err(_) => if self.mantissa == other.mantissa && self.scale == other.scale {
                Some(Ordering::Equal)
            } else {
                None
            },
        }
    }
}

impl vstd::std_specs::cmp::PartialOrdSpecImpl for SwitchboardDecimal {
    open spec fn obeys_partial_cmp_spec() -> bool {
        true
    }

    open spec fn partial_cmp_spec(&self, other: &SwitchboardDecimal) -> Option<Ordering> {
        if self.representable() && other.representable() {
            Some(self.value_order(other))
        } else if self.mantissa == other.mantissa && self.scale == other.scale {
            Some(Ordering::Equal)
        } else {
            None
        }
    }
}

/// Of two representable decimals exactly one holds: the first is smaller, the
/// two are equal, or the first is greater.
pub proof fn lemma_order_trichotomy(a: SwitchboardDecimal, b: SwitchboardDecimal)
    requires
        a.representable(),
        b.representable(),
    ensures
        a.partial_cmp_spec(&b) == Some(Ordering::Less) || a.eq_spec(&b) || a.partial_cmp_spec(&b)
            == Some(Ordering::Greater),
        !(a.partial_cmp_spec(&b) == Some(Ordering::Less) && a.eq_spec(&b)),
        !(a.partial_cmp_spec(&b) == Some(Ordering::Greater) && a.eq_spec(&b)),
        !(a.partial_cmp_spec(&b) == Some(Ordering::Less) && a.partial_cmp_spec(&b) == Some(
            Ordering::Greater,
        )),
        a.eq_spec(&b) <==> a.partial_cmp_spec(&b) == Some(Ordering::Equal),
        a.partial_cmp_spec(&b) == Some(Ordering::Greater) <==> b.partial_cmp_spec(&a) == Some(
            Ordering::Less,
        ),
{
}

/// On representable decimals smaller-than, equality and greater-than are each
/// transitive.
pub proof fn lemma_order_transitive(
    a: SwitchboardDecimal,
    b: SwitchboardDecimal,
    c: SwitchboardDecimal,
)
    requires
        a.representable(),
        b.representable(),
        c.representable(),
    ensures
        a.partial_cmp_spec(&b) == Some(Ordering::Less) && b.partial_cmp_spec(&c) == Some(
            Ordering::Less,
        ) ==> a.partial_cmp_spec(&c) == Some(Ordering::Less),
        a.eq_spec(&b) && b.eq_spec(&c) ==> a.eq_spec(&c),
        a.partial_cmp_spec(&b) == Some(Ordering::Greater) && b.partial_cmp_spec(&c) == Some(
            Ordering::Greater,
        ) ==> a.partial_cmp_spec(&c) == Some(Ordering::Greater),
{
    if a.value_lt(&b) && b.value_lt(&c) {
        lemma_value_lt_transitive(a, b, c);
    }
    if a.value_eq(&b) && b.value_eq(&c) {
        lemma_value_eq_transitive(a, b, c);
    }
    if c.value_lt(&b) && b.value_lt(&a) {
        lemma_value_lt_transitive(c, b, a);
    }
}

/// Equal decimals stand alike to every third one: the order respects equality.
pub proof fn lemma_order_respects_eq(
    a: SwitchboardDecimal,
    b: SwitchboardDecimal,
    c: SwitchboardDecimal,
)
    requires
        a.representable(),
        b.representable(),
        c.representable(),
        a.eq_spec(&b),
    ensures
        a.partial_cmp_spec(&c) == b.partial_cmp_spec(&c),
{
    lemma_value_lt_respects_eq(a, b, c);
    lemma_value_lt_respects_eq(b, a, c);
    lemma_value_lt_respects_eq(c, a, b);
    lemma_value_lt_respects_eq(c, b, a);
    if a.value_eq(&c) {
        lemma_value_eq_transitive(b, a, c);
    }
    if b.value_eq(&c) {
        lemma_value_eq_transitive(a, b, c);
    }
}

} // verus!
