//! A standalone drivebase with quadrant-based arcade kinematics.
//!
//! This drivebase keeps the last commanded per-side powers and exposes the
//! quadrant-based arcade formula: the dominant input magnitude (carrying the
//! forward input's sign) drives one side and the mix `x - y` or `x + y` the
//! other, picked by the sign quadrant of the two inputs; if either raw
//! output leaves the legal band, both are rescaled uniformly so the ratio
//! between the sides is preserved. Both entry points can square their
//! inputs first for finer low-speed control.
//!
//! The physical motor controllers live in the embedding program, which
//! periodically forwards [`Drivebase::feed_motors`]'s pair to them.

use crate::fixed::{
    abs_i64, abs_of, clamp_unit, div_nonneg, lemma_div_bounded, shape_input, shaped,
    with_sign_of, UNIT,
};
use vstd::prelude::*;

verus! {

/// The dominant input magnitude, carrying the sign of `x`.
pub open spec fn dominant(x: int, y: int) -> int {
    with_sign_of(x, if abs_of(x) >= abs_of(y) {
        abs_of(x)
    } else {
        abs_of(y)
    })
}

/// The raw per-side pair before rescaling: in the quadrants where the
/// inputs share a sign the left side takes the dominant magnitude, in the
/// mixed-sign quadrants the right side does.
pub open spec fn quadrant_pair(x: int, y: int) -> (int, int) {
    if (x >= 0) == (y >= 0) {
        (dominant(x, y), x - y)
    } else {
        (x + y, dominant(x, y))
    }
}

/// One side after the uniform rescale by the dominant output magnitude
/// `mm`, applied only when `mm` exceeds the legal band.
pub open spec fn rescaled_side(v: int, mm: int) -> int {
    if mm > UNIT as int {
        with_sign_of(v, abs_of(v) * (UNIT as int) / mm)
    } else {
        v
    }
}

/// The complete quadrant-based arcade conversion: shape both inputs, form
/// the quadrant pair, then rescale both sides by the larger output
/// magnitude so neither leaves the legal band.
pub open spec fn arcade_pair(x: int, y: int, square_inputs: bool) -> (int, int) {
    let xs = shaped(x, square_inputs);
    let ys = shaped(y, square_inputs);
    let (l, r) = quadrant_pair(xs, ys);
    let mm = if abs_of(l) >= abs_of(r) {
        abs_of(l)
    } else {
        abs_of(r)
    };
    (rescaled_side(l, mm), rescaled_side(r, mm))
}

/// The last commanded per-side powers of the drive train. The embedding
/// program owns the physical motor controllers and forwards
/// [`Drivebase::feed_motors`]'s pair to them on a bounded period.
pub struct Drivebase {
    left_power: i64,
    right_power: i64,
}

impl View for Drivebase {
    type V = (int, int);

    closed spec fn view(&self) -> (int, int) {
        (self.left_power as int, self.right_power as int)
    }
}

impl Drivebase {
    /// A drive train at rest.
    pub fn new() -> (r: Self)
        ensures
            r@ == (0int, 0int),
    {
        Drivebase { left_power: 0, right_power: 0 }
    }

    /// Drives by forward speed `x` and rotation `y` with the
    /// quadrant-based formula. Both outputs stay in the legal band.
    pub fn arcade_drive(&mut self, x: i64, y: i64, square_inputs: bool)
        ensures
            final(self)@ == arcade_pair(x as int, y as int, square_inputs),
            -UNIT <= final(self)@.0 <= UNIT,
            -UNIT <= final(self)@.1 <= UNIT,
    {
        let xs = shape_input(x, square_inputs);
        let ys = shape_input(y, square_inputs);
        let ax = abs_i64(xs);
        let ay = abs_i64(ys);
        let mag: i64 = if ax >= ay {
            ax
        } else {
            ay
        };
        let max_input: i64 = if xs < 0 {
            -mag
        } else {
            mag
        };
        let (ls, rs): (i64, i64) = if (xs >= 0) == (ys >= 0) {
            (max_input, xs - ys)
        } else {
            (xs + ys, max_input)
        };
        let al = abs_i64(ls);
        let ar = abs_i64(rs);
        let mm: i64 = if al >= ar {
            al
        } else {
            ar
        };
        if mm > UNIT {
            self.left_power = rescale_side(ls, mm);
            self.right_power = rescale_side(rs, mm);
        } else {
            self.left_power = ls;
            self.right_power = rs;
        }
    }

    /// Drives by left- and right-side speeds directly; each input is
    /// clamped and optionally squared on its own.
    pub fn tank_drive(&mut self, left: i64, right: i64, square_inputs: bool)
        ensures
            final(self)@.0 == shaped(left as int, square_inputs),
            final(self)@.1 == shaped(right as int, square_inputs),
            -UNIT <= final(self)@.0 <= UNIT,
            -UNIT <= final(self)@.1 <= UNIT,
    {
        self.left_power = shape_input(left, square_inputs);
        self.right_power = shape_input(right, square_inputs);
    }

    /// The pair to re-send to the motor controllers. The embedding program
    /// must call this on a bounded period: the motor watchdogs treat a
    /// missing feed as a fault.
    pub fn feed_motors(&self) -> (r: (i64, i64))
        ensures
            r.0 == self@.0,
            r.1 == self@.1,
    {
        (self.left_power, self.right_power)
    }
}

/// One side of the uniform rescale: `|v| * UNIT / mm` with the sign of `v`
/// restored. `mm` bounds `|v|`, so the result stays in the legal band.
fn rescale_side(v: i64, mm: i64) -> (r: i64)
    requires
        UNIT < mm,
        abs_of(v as int) <= mm,
        mm <= 2 * (UNIT as int),
    ensures
        r == rescaled_side(v as int, mm as int),
        -UNIT <= r <= UNIT,
{
    let av = abs_i64(v);
    proof {
        assert(av * UNIT <= (UNIT as int) * mm) by (nonlinear_arith)
            requires 0 <= av <= mm, 0 < UNIT;
        assert(av * UNIT <= 2_000_000_000_000) by (nonlinear_arith)
            requires 0 <= av <= 2 * (UNIT as int), 0 < UNIT <= 1_000_000;
        lemma_div_bounded(av as int * UNIT as int, UNIT as int, mm as int);
    }
    let mag = div_nonneg(av * UNIT, mm);
    if v < 0 {
        -mag
    } else {
        mag
    }
}

} // verus!
