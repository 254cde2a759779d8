//! The dimension-vector algebra: four signed integer exponents, one per SI
//! base axis, combined component-wise by every arithmetic operator of the
//! library, together with the named-unit catalog of well-known vectors.

use vstd::prelude::*;

verus! {

/// A vector of physical-dimension exponents: one signed exponent for each of
/// the four base axes (length, mass, time, temperature). Two vectors are equal
/// iff all four exponents match component-wise. Values are immutable: the
/// algebra only ever derives new vectors.
#[derive(Clone, Copy, Debug, PartialEq, Eq, Structural)]
pub struct Dim {
    pub length: i16,
    pub mass: i16,
    pub time: i16,
    pub kelvin: i16,
}

/// The base axis that a per-unit derivation operator decrements.
#[derive(Clone, Copy, Debug, PartialEq, Eq, Structural)]
pub enum Axis {
    Length,
    Mass,
    Time,
    Kelvin,
}

/// The two structural failures of the algebra: an operation that needs
/// identical dimension vectors was given differing ones, or a matrix
/// contraction was given operands whose inner sizes disagree.
#[derive(Clone, Copy, Debug, PartialEq, Eq, Structural)]
pub enum UnitError {
    DimensionMismatch,
    ShapeMismatch,
}

/// An exponent value representable by the stored exponent type.
pub open spec fn fits_exponent(x: int) -> bool {
    i16::MIN <= x <= i16::MAX
}

/// `r` is the component-wise sum of `a` and `b`.
pub open spec fn added(a: Dim, b: Dim, r: Dim) -> bool {
    &&& r.length == a.length + b.length
    &&& r.mass == a.mass + b.mass
    &&& r.time == a.time + b.time
    &&& r.kelvin == a.kelvin + b.kelvin
}

/// `r` is the component-wise difference of `a` and `b`.
pub open spec fn subtracted(a: Dim, b: Dim, r: Dim) -> bool {
    &&& r.length == a.length - b.length
    &&& r.mass == a.mass - b.mass
    &&& r.time == a.time - b.time
    &&& r.kelvin == a.kelvin - b.kelvin
}

/// `r` is `a` with every exponent multiplied by `n`.
pub open spec fn dim_scaled(a: Dim, n: int, r: Dim) -> bool {
    &&& r.length == a.length * n
    &&& r.mass == a.mass * n
    &&& r.time == a.time * n
    &&& r.kelvin == a.kelvin * n
}

/// `r` is `a` with the exponent of `axis` lowered by one and every other
/// exponent unchanged.
pub open spec fn dim_decremented(a: Dim, axis: Axis, r: Dim) -> bool {
    match axis {
        Axis::Length => r == (Dim { length: (a.length - 1) as i16, ..a }) && a.length - 1 >= i16::MIN,
        Axis::Mass => r == (Dim { mass: (a.mass - 1) as i16, ..a }) && a.mass - 1 >= i16::MIN,
        Axis::Time => r == (Dim { time: (a.time - 1) as i16, ..a }) && a.time - 1 >= i16::MIN,
        Axis::Kelvin => r == (Dim { kelvin: (a.kelvin - 1) as i16, ..a }) && a.kelvin - 1 >= i16::MIN,
    }
}

/// Every component-wise sum of `a` and `b` stays representable.
pub open spec fn add_ok(a: Dim, b: Dim) -> bool {
    &&& fits_exponent(a.length + b.length)
    &&& fits_exponent(a.mass + b.mass)
    &&& fits_exponent(a.time + b.time)
    &&& fits_exponent(a.kelvin + b.kelvin)
}

/// Every component-wise difference of `a` and `b` stays representable.
pub open spec fn sub_ok(a: Dim, b: Dim) -> bool {
    &&& fits_exponent(a.length - b.length)
    &&& fits_exponent(a.mass - b.mass)
    &&& fits_exponent(a.time - b.time)
    &&& fits_exponent(a.kelvin - b.kelvin)
}

/// Every exponent of `a` multiplied by `n` stays representable.
pub open spec fn scale_ok(a: Dim, n: int) -> bool {
    &&& fits_exponent(a.length * n)
    &&& fits_exponent(a.mass * n)
    &&& fits_exponent(a.time * n)
    &&& fits_exponent(a.kelvin * n)
}

/// The exponent of `axis` in `a` can be lowered by one.
pub open spec fn dec_ok(a: Dim, axis: Axis) -> bool {
    match axis {
        Axis::Length => a.length - 1 >= i16::MIN,
        Axis::Mass => a.mass - 1 >= i16::MIN,
        Axis::Time => a.time - 1 >= i16::MIN,
        Axis::Kelvin => a.kelvin - 1 >= i16::MIN,
    }
}

impl Dim {
    /// A vector from its four exponents.
    pub fn new(length: i16, mass: i16, time: i16, kelvin: i16) -> (r: Dim)
        ensures
            r == (Dim { length, mass, time, kelvin }),
    {
        Dim { length, mass, time, kelvin }
    }
}

/// Component-wise sum of two dimension vectors; the dimension of a product of
/// quantities.
pub fn add_dims(a: Dim, b: Dim) -> (r: Dim)
    requires
        add_ok(a, b),
    ensures
        added(a, b, r),
{
    Dim {
        length: a.length + b.length,
        mass: a.mass + b.mass,
        time: a.time + b.time,
        kelvin: a.kelvin + b.kelvin,
    }
}

/// Component-wise difference of two dimension vectors; the dimension of a
/// quotient of quantities.
pub fn sub_dims(a: Dim, b: Dim) -> (r: Dim)
    requires
        sub_ok(a, b),
    ensures
        subtracted(a, b, r),
{
    Dim {
        length: a.length - b.length,
        mass: a.mass - b.mass,
        time: a.time - b.time,
        kelvin: a.kelvin - b.kelvin,
    }
}

/// Every exponent multiplied by `n`; the dimension of an integer power.
pub fn scale_dims(a: Dim, n: i16) -> (r: Dim)
    requires
        scale_ok(a, n as int),
    ensures
        dim_scaled(a, n as int, r),
{
    Dim {
        length: a.length * n,
        mass: a.mass * n,
        time: a.time * n,
        kelvin: a.kelvin * n,
    }
}

/// The exponent of one axis lowered by one; the dimension transform of the
/// per-unit derivation operators.
pub fn decrement(a: Dim, axis: Axis) -> (r: Dim)
    requires
        dec_ok(a, axis),
    ensures
        dim_decremented(a, axis, r),
{
    match axis {
        Axis::Length => Dim { length: a.length - 1, ..a },
        Axis::Mass => Dim { mass: a.mass - 1, ..a },
        Axis::Time => Dim { time: a.time - 1, ..a },
        Axis::Kelvin => Dim { kelvin: a.kelvin - 1, ..a },
    }
}

/// The dimensionless vector: every exponent zero.
pub open spec fn zero_dim() -> Dim {
    Dim { length: 0, mass: 0, time: 0, kelvin: 0 }
}

/// The base length unit (meters): length exponent one.
pub open spec fn length_dim() -> Dim {
    Dim { length: 1, mass: 0, time: 0, kelvin: 0 }
}

/// The base mass unit (kilograms): mass exponent one.
pub open spec fn mass_dim() -> Dim {
    Dim { length: 0, mass: 1, time: 0, kelvin: 0 }
}

/// The base time unit (seconds): time exponent one.
pub open spec fn time_dim() -> Dim {
    Dim { length: 0, mass: 0, time: 1, kelvin: 0 }
}

/// The base temperature unit (kelvin): temperature exponent one.
pub open spec fn kelvin_dim() -> Dim {
    Dim { length: 0, mass: 0, time: 0, kelvin: 1 }
}

impl Dim {
    /// Named-unit catalog: the dimensionless vector.
    pub fn unitless() -> (r: Dim)
        ensures
            r == zero_dim(),
    {
        Dim { length: 0, mass: 0, time: 0, kelvin: 0 }
    }

    /// Named-unit catalog: mass.
    pub fn mass() -> (r: Dim)
        ensures
            r == mass_dim(),
    {
        Dim { length: 0, mass: 1, time: 0, kelvin: 0 }
    }

    /// Named-unit catalog: time.
    pub fn time() -> (r: Dim)
        ensures
            r == time_dim(),
    {
        Dim { length: 0, mass: 0, time: 1, kelvin: 0 }
    }

    /// Named-unit catalog: length.
    pub fn length() -> (r: Dim)
        ensures
            r == length_dim(),
    {
        Dim { length: 1, mass: 0, time: 0, kelvin: 0 }
    }

    /// Named-unit catalog: temperature.
    pub fn kelvin() -> (r: Dim)
        ensures
            r == kelvin_dim(),
    {
        Dim { length: 0, mass: 0, time: 0, kelvin: 1 }
    }

    /// Named-unit catalog: area, a length squared.
    pub fn area() -> (r: Dim)
        ensures
            r == (Dim { length: 2, mass: 0, time: 0, kelvin: 0 }),
    {
        Dim { length: 2, mass: 0, time: 0, kelvin: 0 }
    }

    /// Named-unit catalog: pressure, a force per area.
    pub fn pressure() -> (r: Dim)
        ensures
            r == (Dim { length: -3i16, mass: 1, time: -2i16, kelvin: 0 }),
    {
        Dim { length: -3, mass: 1, time: -2, kelvin: 0 }
    }

    /// Named-unit catalog: distance, the same vector as length.
    pub fn distance() -> (r: Dim)
        ensures
            r == length_dim(),
    {
        Dim { length: 1, mass: 0, time: 0, kelvin: 0 }
    }

    /// Named-unit catalog: velocity, a length per time.
    pub fn velocity() -> (r: Dim)
        ensures
            r == (Dim { length: 1, mass: 0, time: -1i16, kelvin: 0 }),
    {
        Dim { length: 1, mass: 0, time: -1, kelvin: 0 }
    }

    /// Named-unit catalog: acceleration, a length per time squared.
    pub fn acceleration() -> (r: Dim)
        ensures
            r == (Dim { length: 1, mass: 0, time: -2i16, kelvin: 0 }),
    {
        Dim { length: 1, mass: 0, time: -2, kelvin: 0 }
    }

    /// Named-unit catalog: force, as the library's operand-order conventions
    /// derive it from mass by the three per-unit derivations.
    pub fn force() -> (r: Dim)
        ensures
            r == (Dim { length: -1i16, mass: 1, time: -2i16, kelvin: 0 }),
    {
        Dim { length: -1, mass: 1, time: -2, kelvin: 0 }
    }
}

/// Adding dimension vectors is commutative: both operand orders yield the same
/// vector.
pub proof fn lemma_add_dims_commutative(a: Dim, b: Dim, r1: Dim, r2: Dim)
    requires
        added(a, b, r1),
        added(b, a, r2),
    ensures
        r1 == r2,
{
}

/// Subtracting `b` from the sum of `a` and `b` gives back `a`: subtraction
/// inverts addition of dimension vectors.
pub proof fn lemma_add_sub_inverse(a: Dim, b: Dim, s: Dim, d: Dim)
    requires
        added(a, b, s),
        subtracted(s, b, d),
    ensures
        d == a,
{
}

} // verus!
