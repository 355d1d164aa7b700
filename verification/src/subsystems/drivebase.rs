//! The drivebase subsystem: validated motor speeds and saturation-normalized
//! arcade kinematics.
//!
//! Of the two arcade-drive formulas in circulation, this subsystem uses the
//! saturation-normalized one: both raw outputs `forward - rotation` and
//! `forward + rotation` are divided by `(max + min) / max` of the input
//! magnitudes, so neither side can leave the legal band and the ratio of the
//! two sides is preserved. There is no input-squaring option on this entry
//! point.

use crate::fixed::{
    abs_i64, abs_of, clamped, div_nonneg, lemma_div_bounded, with_sign_of, UNIT,
};
use vstd::prelude::*;

verus! {

/// A motor output percentage, guaranteed to lie in `[-UNIT, UNIT]`
/// (standing for `[-1.0, 1.0]`).
#[derive(Clone, Copy, Debug)]
pub struct MotorSpeed {
    raw: i64,
}

impl View for MotorSpeed {
    type V = int;

    closed spec fn view(&self) -> int {
        self.raw as int
    }
}

impl MotorSpeed {
    /// The invariant every constructor establishes: the value never leaves
    /// the legal band.
    #[verifier::type_invariant]
    pub closed spec fn in_band(self) -> bool {
        -(UNIT as int) <= self.raw as int <= UNIT as int
    }

    /// Creates a motor speed without a runtime range check. The caller's
    /// obligation that the input already lies in `[-UNIT, UNIT]` is the
    /// precondition; out-of-band values would burn the motors out.
    pub fn new_unchecked(speed: i64) -> (r: Self)
        requires
            -UNIT <= speed <= UNIT,
        ensures
            r@ == speed,
    {
        MotorSpeed { raw: speed }
    }

    /// Creates a motor speed if the given value lies in `[-UNIT, UNIT]`,
    /// and nothing otherwise.
    pub fn new(speed: i64) -> (r: Option<Self>)
        ensures
            r is Some <==> -UNIT <= speed <= UNIT,
            r is Some ==> r.unwrap()@ == speed,
    {
        if -UNIT <= speed && speed <= UNIT {
            Some(MotorSpeed { raw: speed })
        } else {
            None
        }
    }

    /// Creates a motor speed, clamping the input to `[-UNIT, UNIT]`.
    pub fn new_clamped(speed: i64) -> (r: Self)
        ensures
            r@ == clamped(speed as int),
    {
        MotorSpeed {
            raw: crate::fixed::clamp_unit(speed),
        }
    }

    /// Returns the value as a raw fixed-point scalar.
    pub fn get(&self) -> (r: i64)
        ensures
            r == self@,
            -UNIT <= r <= UNIT,
    {
        proof {
            use_type_invariant(&*self);
        }
        self.raw
    }
}

/// The larger of the two input magnitudes.
pub open spec fn larger_mag(y: int, x: int) -> int {
    if abs_of(y) >= abs_of(x) {
        abs_of(y)
    } else {
        abs_of(x)
    }
}

/// The smaller of the two input magnitudes.
pub open spec fn smaller_mag(y: int, x: int) -> int {
    if abs_of(y) >= abs_of(x) {
        abs_of(x)
    } else {
        abs_of(y)
    }
}

/// One side of the saturation-normalized arcade conversion: the raw mix
/// `mix` (either `y - x` or `y + x`), divided by `(max + min) / max`.
pub open spec fn saturated_side(mix: int, y: int, x: int) -> int {
    if larger_mag(y, x) == 0 {
        0
    } else {
        with_sign_of(mix, abs_of(mix) * larger_mag(y, x) / (larger_mag(y, x) + smaller_mag(y, x)))
    }
}

/// Left output of the saturation-normalized arcade conversion of forward
/// speed `y` and rotation `x`.
pub open spec fn arcade_left(y: int, x: int) -> int {
    saturated_side(y - x, y, x)
}

/// Right output of the saturation-normalized arcade conversion.
pub open spec fn arcade_right(y: int, x: int) -> int {
    saturated_side(y + x, y, x)
}

/// Each saturated side stays within the larger input magnitude: the mix is
/// at most `max + min` in magnitude, so the quotient is at most `max`.
pub proof fn lemma_saturated_side_bounded(mix: int, y: int, x: int)
    requires
        abs_of(mix) <= larger_mag(y, x) + smaller_mag(y, x),
    ensures
        abs_of(saturated_side(mix, y, x)) <= larger_mag(y, x),
{
    let max = larger_mag(y, x);
    let min = smaller_mag(y, x);
    if max != 0 {
        assert(abs_of(mix) * max <= max * (max + min)) by (nonlinear_arith)
            requires 0 <= abs_of(mix) <= max + min, 0 <= max, 0 <= min;
        lemma_div_bounded(abs_of(mix) * max, max, max + min);
    }
}

/// Both saturation-normalized arcade outputs stay in the legal band for
/// every pair of in-band inputs: no rescaling afterwards can be needed.
pub proof fn lemma_arcade_outputs_in_band(y: int, x: int)
    requires
        -(UNIT as int) <= y <= UNIT as int,
        -(UNIT as int) <= x <= UNIT as int,
    ensures
        abs_of(arcade_left(y, x)) <= UNIT as int,
        abs_of(arcade_right(y, x)) <= UNIT as int,
{
    lemma_saturated_side_bounded(y - x, y, x);
    lemma_saturated_side_bounded(y + x, y, x);
}

/// A pure forward input passes through the arcade conversion unchanged:
/// both sides take exactly the forward value.
pub proof fn lemma_arcade_pure_forward(y: int)
    requires
        -(UNIT as int) <= y <= UNIT as int,
    ensures
        arcade_left(y, 0) == y,
        arcade_right(y, 0) == y,
{
    if y != 0 {
        let m = abs_of(y);
        vstd::arithmetic::div_mod::lemma_div_by_multiple(m, m);
        assert(m * m / m == m);
    }
}

/// A pure rotation input turns the robot in place: the two sides take
/// exactly opposite values.
pub proof fn lemma_arcade_pure_rotation(x: int)
    requires
        -(UNIT as int) <= x <= UNIT as int,
    ensures
        arcade_left(0, x) == -arcade_right(0, x),
        arcade_right(0, x) == x,
{
    if x != 0 {
        let m = abs_of(x);
        vstd::arithmetic::div_mod::lemma_div_by_multiple(m, m);
        assert(m * m / m == m);
    }
}

/// Computes the saturation-normalized arcade pair for forward speed `y`
/// and rotation `x`. Zero inputs give zero outputs; either pure input
/// passes through unchanged.
pub fn arcade_speeds(y: MotorSpeed, x: MotorSpeed) -> (r: (MotorSpeed, MotorSpeed))
    ensures
        r.0@ == arcade_left(y@, x@),
        r.1@ == arcade_right(y@, x@),
{
    let yv = y.get();
    let xv = x.get();
    let ay = abs_i64(yv);
    let ax = abs_i64(xv);
    let max: i64 = if ay >= ax {
        ay
    } else {
        ax
    };
    let min: i64 = if ay >= ax {
        ax
    } else {
        ay
    };
    if max == 0 {
        (MotorSpeed::new_clamped(0), MotorSpeed::new_clamped(0))
    } else {
        let left = saturate_mix(yv - xv, max, min);
        let right = saturate_mix(yv + xv, max, min);
        proof {
            lemma_saturated_side_bounded(yv as int - xv as int, yv as int, xv as int);
            lemma_saturated_side_bounded(yv as int + xv as int, yv as int, xv as int);
        }
        (MotorSpeed::new_clamped(left), MotorSpeed::new_clamped(right))
    }
}

/// Divides one raw mix by the saturation factor `(max + min) / max`,
/// computed as `|mix| * max / (max + min)` with the sign of `mix` restored.
fn saturate_mix(mix: i64, max: i64, min: i64) -> (r: i64)
    requires
        0 < max <= UNIT,
        0 <= min <= max,
        -2 * (UNIT as int) <= mix <= 2 * (UNIT as int),
    ensures
        r == with_sign_of(mix as int, abs_of(mix as int) * max as int / (max as int + min as int)),
        abs_of(r as int) == abs_of(mix as int) * max as int / (max as int + min as int),
{
    let am = abs_i64(mix);
    proof {
        assert(am * max <= 2 * (UNIT as int) * (max + min)) by (nonlinear_arith)
            requires 0 <= am <= 2 * (UNIT as int), 0 < max, 0 <= min;
        assert(am * max <= 2_000_000_000_000) by (nonlinear_arith)
            requires 0 <= am <= 2 * (UNIT as int), 0 <= max <= UNIT;
        lemma_div_bounded(am as int * max as int, 2 * (UNIT as int), max as int + min as int);
    }
    let mag = div_nonneg(am * max, max + min);
    if mix < 0 {
        -mag
    } else {
        mag
    }
}

/// A differential drivebase: two independently commanded sides, each side
/// ganged across its physical motors. `left_speed` and `right_speed` are
/// the model of the last commanded outputs.
pub trait DifferentialDrivebase {
    /// The last commanded left-side output, as a raw fixed-point scalar.
    spec fn left_speed(&self) -> int;

    /// The last commanded right-side output, as a raw fixed-point scalar.
    spec fn right_speed(&self) -> int;

    /// Commands the left side.
    fn set_left(&mut self, left: MotorSpeed)
        ensures
            final(self).left_speed() == left@,
            final(self).right_speed() == old(self).right_speed(),
    ;

    /// Commands the right side.
    fn set_right(&mut self, right: MotorSpeed)
        ensures
            final(self).right_speed() == right@,
            final(self).left_speed() == old(self).left_speed(),
    ;

    /// Commands both sides directly and independently.
    fn tank_drive(&mut self, left: MotorSpeed, right: MotorSpeed)
        ensures
            final(self).left_speed() == left@,
            final(self).right_speed() == right@,
    {
        self.set_left(left);
        self.set_right(right);
    }

    /// Converts forward speed `y` and rotation `x` to per-side outputs with
    /// the saturation-normalized formula and commands both sides.
    fn arcade_drive(&mut self, y: MotorSpeed, x: MotorSpeed)
        ensures
            final(self).left_speed() == arcade_left(y@, x@),
            final(self).right_speed() == arcade_right(y@, x@),
    {
        let (left, right) = arcade_speeds(y, x);
        self.set_left(left);
        self.set_right(right);
    }
}

/// The drive subsystem's model: the last validated speed commanded to each
/// ganged side. The embedding program mirrors each side to its front and
/// back physical motors.
pub struct Drivebase {
    left: MotorSpeed,
    right: MotorSpeed,
}

impl Drivebase {
    /// A drivebase with both sides at rest.
    pub fn new() -> (r: Self)
        ensures
            r.left_speed() == 0,
            r.right_speed() == 0,
    {
        Drivebase {
            left: MotorSpeed::new_clamped(0),
            right: MotorSpeed::new_clamped(0),
        }
    }

    /// The pair last commanded, for the periodic hardware feed.
    pub fn commanded(&self) -> (r: (i64, i64))
        ensures
            r.0 == self.left_speed(),
            r.1 == self.right_speed(),
            -UNIT <= r.0 <= UNIT,
            -UNIT <= r.1 <= UNIT,
    {
        (self.left.get(), self.right.get())
    }
}

impl DifferentialDrivebase for Drivebase {
    closed spec fn left_speed(&self) -> int {
        self.left@
    }

    closed spec fn right_speed(&self) -> int {
        self.right@
    }

    fn set_left(&mut self, left: MotorSpeed) {
        self.left = left;
    }

    fn set_right(&mut self, right: MotorSpeed) {
        self.right = right;
    }
}

} // verus!
