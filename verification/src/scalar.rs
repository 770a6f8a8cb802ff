//! Scalar and vector values of the scene.
//!
//! The runtime stores every numeric scene quantity as a fixed-point number
//! with a millionth of a unit of resolution, so that contracts can speak of
//! the stored values exactly. The host converts to and from its own number
//! format at the boundary.

use vstd::prelude::*;

verus! {

/// Fixed-point parts per unit: one unit is a million micro-units.
pub const MICROS_PER_UNIT: i64 = 1_000_000;

/// A fixed-point scalar: `micros` millionths of a unit.
#[derive(Debug, Clone, Copy, PartialEq, Eq, Structural)]
pub struct Fixed {
    pub micros: i64,
}

impl Fixed {
    /// The scalar with the given number of micro-units.
    pub fn from_micros(micros: i64) -> (r: Fixed)
        ensures
            r.micros == micros,
    {
        Fixed { micros }
    }

    /// The scalar for a whole number of units; saturates at the range ends.
    pub fn from_units(units: i64) -> (r: Fixed)
        ensures
            r.micros == saturate_i64(units * MICROS_PER_UNIT),
    {
        match units.checked_mul(MICROS_PER_UNIT) {
            Some(v) => Fixed { micros: v },
            None => {
                proof {
                    assert(units >= 0 ==> units * MICROS_PER_UNIT >= 0) by (nonlinear_arith);
                    assert(units < 0 ==> units * MICROS_PER_UNIT < 0) by (nonlinear_arith);
                }
                if units > 0 {
                    Fixed { micros: i64::MAX }
                } else {
                    Fixed { micros: i64::MIN }
                }
            },
        }
    }

    /// Zero.
    pub fn zero() -> (r: Fixed)
        ensures
            r.micros == 0,
    {
        Fixed { micros: 0 }
    }

    /// One unit.
    pub fn one() -> (r: Fixed)
        ensures
            r.micros == MICROS_PER_UNIT,
    {
        Fixed { micros: MICROS_PER_UNIT }
    }
}

/// Clamps an unbounded integer into the `i64` range.
pub open spec fn saturate_i64(v: int) -> int {
    if v > i64::MAX {
        i64::MAX as int
    } else if v < i64::MIN {
        i64::MIN as int
    } else {
        v
    }
}

/// A three-component vector of fixed-point scalars.
#[derive(Debug, Clone, Copy, PartialEq, Eq, Structural)]
pub struct Vec3F {
    pub x: Fixed,
    pub y: Fixed,
    pub z: Fixed,
}

impl Vec3F {
    /// The zero vector, as a mathematical value.
    pub open spec fn zero_spec() -> Vec3F {
        Vec3F { x: Fixed { micros: 0 }, y: Fixed { micros: 0 }, z: Fixed { micros: 0 } }
    }

    /// The all-ones vector, as a mathematical value.
    pub open spec fn one_spec() -> Vec3F {
        Vec3F {
            x: Fixed { micros: MICROS_PER_UNIT as i64 },
            y: Fixed { micros: MICROS_PER_UNIT as i64 },
            z: Fixed { micros: MICROS_PER_UNIT as i64 },
        }
    }

    /// The vector with the given components.
    pub fn new(x: Fixed, y: Fixed, z: Fixed) -> (r: Vec3F)
        ensures
            r == (Vec3F { x, y, z }),
    {
        Vec3F { x, y, z }
    }

    /// The zero vector.
    pub fn zero() -> (r: Vec3F)
        ensures
            r.x.micros == 0 && r.y.micros == 0 && r.z.micros == 0,
    {
        Vec3F { x: Fixed { micros: 0 }, y: Fixed { micros: 0 }, z: Fixed { micros: 0 } }
    }

    /// The all-ones vector.
    pub fn one() -> (r: Vec3F)
        ensures
            r.x.micros == MICROS_PER_UNIT && r.y.micros == MICROS_PER_UNIT && r.z.micros
                == MICROS_PER_UNIT,
    {
        Vec3F {
            x: Fixed { micros: MICROS_PER_UNIT },
            y: Fixed { micros: MICROS_PER_UNIT },
            z: Fixed { micros: MICROS_PER_UNIT },
        }
    }
}

} // verus!
