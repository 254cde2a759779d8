//! Scalar quantities: one binary64 magnitude (carried as its bit pattern)
//! paired with a dimension vector, with the arithmetic and per-unit
//! derivation operators of the algebra.
//!
//! Operand order: the two-quantity operators combine the right-hand
//! magnitude with the left-hand one (`a.add(b)` stores `b + a`, `a.sub(b)`
//! stores `b - a`, `a.mul(b)` stores `b * a`, `a.div(b)` stores `b / a`),
//! while the dimension vector of a quotient is always the left vector minus
//! the right one. The raw-scalar operators scale the stored magnitude:
//! `mul_raw(k)` stores `k` times the magnitude and `div_raw(k)` stores the
//! magnitude divided by `k`.

use vstd::prelude::*;

use crate::dim::add_dims;
use crate::dim::add_ok;
use crate::dim::added;
use crate::dim::dec_ok;
use crate::dim::decrement;
use crate::dim::dim_decremented;
use crate::dim::dim_scaled;
use crate::dim::kelvin_dim;
use crate::dim::length_dim;
use crate::dim::mass_dim;
use crate::dim::scale_dims;
use crate::dim::scale_ok;
use crate::dim::sub_dims;
use crate::dim::sub_ok;
use crate::dim::subtracted;
use crate::dim::time_dim;
use crate::dim::zero_dim;
use crate::dim::Axis;
use crate::dim::Dim;
use crate::dim::UnitError;
use crate::magnitude::diff_bits;
use crate::magnitude::prod_bits;
use crate::magnitude::quot_bits;
use crate::magnitude::sum_bits;
use crate::magnitude::add_mag;
use crate::magnitude::div_mag;
use crate::magnitude::mul_mag;
use crate::magnitude::sub_mag;

verus! {

/// A scalar quantity: a binary64 magnitude, carried as its raw bit pattern,
/// paired with the dimension vector it is measured in. Values are immutable;
/// every operator returns a new quantity.
#[derive(Clone, Copy, Debug)]
pub struct UnitValue {
    pub bits: u64,
    pub dim: Dim,
}

impl UnitValue {
    /// A dimensionless quantity from a raw magnitude bit pattern.
    pub fn new(raw: u64) -> (q: UnitValue)
        ensures
            q.bits == raw,
            q.dim == zero_dim(),
    {
        UnitValue { bits: raw, dim: Dim { length: 0, mass: 0, time: 0, kelvin: 0 } }
    }

    /// A quantity from a raw magnitude bit pattern and an explicit dimension
    /// vector.
    pub fn with_dim(raw: u64, dim: Dim) -> (q: UnitValue)
        ensures
            q.bits == raw,
            q.dim == dim,
    {
        UnitValue { bits: raw, dim }
    }

    /// A dimensionless quantity: every exponent zero.
    pub fn unitless(raw: u64) -> (q: UnitValue)
        ensures
            q.bits == raw,
            q.dim == zero_dim(),
    {
        UnitValue::new(raw)
    }

    /// A length quantity: the length exponent one, every other exponent zero.
    pub fn meters(raw: u64) -> (q: UnitValue)
        ensures
            q.bits == raw,
            q.dim == length_dim(),
    {
        UnitValue { bits: raw, dim: Dim { length: 1, mass: 0, time: 0, kelvin: 0 } }
    }

    /// A mass quantity: the mass exponent one, every other exponent zero.
    pub fn kilograms(raw: u64) -> (q: UnitValue)
        ensures
            q.bits == raw,
            q.dim == mass_dim(),
    {
        UnitValue { bits: raw, dim: Dim { length: 0, mass: 1, time: 0, kelvin: 0 } }
    }

    /// A time quantity: the time exponent one, every other exponent zero.
    pub fn seconds(raw: u64) -> (q: UnitValue)
        ensures
            q.bits == raw,
            q.dim == time_dim(),
    {
        UnitValue { bits: raw, dim: Dim { length: 0, mass: 0, time: 1, kelvin: 0 } }
    }

    /// A temperature quantity: the temperature exponent one, every other
    /// exponent zero.
    pub fn kelvin(raw: u64) -> (q: UnitValue)
        ensures
            q.bits == raw,
            q.dim == kelvin_dim(),
    {
        UnitValue { bits: raw, dim: Dim { length: 0, mass: 0, time: 0, kelvin: 1 } }
    }

    /// Reinterprets the quantity as a rate per second: the time exponent drops
    /// by one and the stored magnitude is unchanged.
    pub fn per_second(&self) -> (r: UnitValue)
        requires
            dec_ok(self.dim, Axis::Time),
        ensures
            r.bits == self.bits,
            dim_decremented(self.dim, Axis::Time, r.dim),
            subtracted(self.dim, time_dim(), r.dim),
    {
        UnitValue { bits: self.bits, dim: decrement(self.dim, Axis::Time) }
    }

    /// Reinterprets the quantity as a rate per meter: the length exponent
    /// drops by one and the stored magnitude is unchanged.
    pub fn per_meter(&self) -> (r: UnitValue)
        requires
            dec_ok(self.dim, Axis::Length),
        ensures
            r.bits == self.bits,
            dim_decremented(self.dim, Axis::Length, r.dim),
            subtracted(self.dim, length_dim(), r.dim),
    {
        UnitValue { bits: self.bits, dim: decrement(self.dim, Axis::Length) }
    }

    /// Reinterprets the quantity as a rate per hour. This applies the same
    /// dimension transform as `per_second` — the time exponent drops by one —
    /// and, like every derivation operator, applies no numeric time-scale
    /// conversion to the stored magnitude.
    pub fn per_hour(&self) -> (r: UnitValue)
        requires
            dec_ok(self.dim, Axis::Time),
        ensures
            r.bits == self.bits,
            dim_decremented(self.dim, Axis::Time, r.dim),
            subtracted(self.dim, time_dim(), r.dim),
    {
        UnitValue { bits: self.bits, dim: decrement(self.dim, Axis::Time) }
    }

    /// Reinterprets the quantity with every dimension exponent doubled (a
    /// length becomes an area). Like the per-unit derivations, this changes
    /// only the interpreted unit: the stored magnitude is unchanged.
    pub fn squared(&self) -> (r: UnitValue)
        requires
            scale_ok(self.dim, 2),
        ensures
            r.bits == self.bits,
            dim_scaled(self.dim, 2, r.dim),
    {
        UnitValue { bits: self.bits, dim: scale_dims(self.dim, 2) }
    }

    /// The sum of two quantities of one dimension. Rejected with
    /// `DimensionMismatch` exactly when the dimension vectors differ; the
    /// stored magnitude of the sum is `rhs`'s magnitude plus `self`'s.
    pub fn add(self, rhs: UnitValue) -> (r: Result<UnitValue, UnitError>)
        ensures
            r is Ok <==> self.dim == rhs.dim,
            r is Ok ==> r->Ok_0.dim == self.dim && r->Ok_0.bits == sum_bits(rhs.bits, self.bits),
            r is Err ==> r->Err_0 == UnitError::DimensionMismatch,
    {
        if self.dim == rhs.dim {
            Ok(UnitValue { bits: add_mag(rhs.bits, self.bits), dim: self.dim })
        } else {
            Err(UnitError::DimensionMismatch)
        }
    }

    /// The difference of two quantities of one dimension. Rejected with
    /// `DimensionMismatch` exactly when the dimension vectors differ; the
    /// stored magnitude is `rhs`'s magnitude minus `self`'s.
    pub fn sub(self, rhs: UnitValue) -> (r: Result<UnitValue, UnitError>)
        ensures
            r is Ok <==> self.dim == rhs.dim,
            r is Ok ==> r->Ok_0.dim == self.dim && r->Ok_0.bits == diff_bits(rhs.bits, self.bits),
            r is Err ==> r->Err_0 == UnitError::DimensionMismatch,
    {
        if self.dim == rhs.dim {
            Ok(UnitValue { bits: sub_mag(rhs.bits, self.bits), dim: self.dim })
        } else {
            Err(UnitError::DimensionMismatch)
        }
    }

    /// The product of two quantities: magnitudes multiply (`rhs`'s times
    /// `self`'s) and dimension vectors add.
    pub fn mul(self, rhs: UnitValue) -> (r: UnitValue)
        requires
            add_ok(self.dim, rhs.dim),
        ensures
            added(self.dim, rhs.dim, r.dim),
            r.bits == prod_bits(rhs.bits, self.bits),
    {
        UnitValue { bits: mul_mag(rhs.bits, self.bits), dim: add_dims(self.dim, rhs.dim) }
    }

    /// The quotient of two quantities: the stored magnitude is `rhs`'s
    /// magnitude divided by `self`'s, and the dimension vector is `self`'s
    /// minus `rhs`'s.
    pub fn div(self, rhs: UnitValue) -> (r: UnitValue)
        requires
            sub_ok(self.dim, rhs.dim),
        ensures
            subtracted(self.dim, rhs.dim, r.dim),
            r.bits == quot_bits(rhs.bits, self.bits),
    {
        UnitValue { bits: div_mag(rhs.bits, self.bits), dim: sub_dims(self.dim, rhs.dim) }
    }

    /// The quantity scaled by a raw (dimensionless) binary64 scalar, given as
    /// its bit pattern: the stored magnitude becomes `k` times the old one and
    /// the dimension vector is unchanged.
    pub fn mul_raw(self, k: u64) -> (r: UnitValue)
        ensures
            r.dim == self.dim,
            r.bits == prod_bits(k, self.bits),
    {
        UnitValue { bits: mul_mag(k, self.bits), dim: self.dim }
    }

    /// The quantity divided by a raw (dimensionless) binary64 scalar, given as
    /// its bit pattern: the stored magnitude becomes the old one divided by
    /// `k` and the dimension vector is unchanged.
    pub fn div_raw(self, k: u64) -> (r: UnitValue)
        ensures
            r.dim == self.dim,
            r.bits == quot_bits(self.bits, k),
    {
        UnitValue { bits: div_mag(self.bits, k), dim: self.dim }
    }
}

/// `r` is `q` scaled by the raw scalar `k`.
pub open spec fn raw_multiplied(q: UnitValue, k: u64, r: UnitValue) -> bool {
    r.dim == q.dim && r.bits == prod_bits(k, q.bits)
}

/// `r` is `q` divided by the raw scalar `k`.
pub open spec fn raw_divided(q: UnitValue, k: u64, r: UnitValue) -> bool {
    r.dim == q.dim && r.bits == quot_bits(q.bits, k)
}

/// Scaling a dimensionless quantity by a raw scalar and then dividing by the
/// same scalar leaves the dimension vector unchanged (the numeric round trip
/// is a floating-point matter and is outside this statement).
pub proof fn lemma_raw_round_trip_dimension(q: UnitValue, k: u64, r1: UnitValue, r2: UnitValue)
    requires
        q.dim == zero_dim(),
        raw_multiplied(q, k, r1),
        raw_divided(r1, k, r2),
    ensures
        r2.dim == q.dim,
{
}

} // verus!

