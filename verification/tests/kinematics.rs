use robot_core::drivebase::Drivebase as QuadrantDrivebase;
use robot_core::fixed::{clamp_unit, shape_input, square_signed, UNIT};
use robot_core::subsystems::drivebase::{
    arcade_speeds, DifferentialDrivebase, Drivebase, MotorSpeed,
};

fn in_band(v: i64) -> bool {
    -UNIT <= v && v <= UNIT
}

#[test]
fn motor_speed_checked_accepts_the_band_only() {
    assert!(MotorSpeed::new(UNIT).is_some());
    assert!(MotorSpeed::new(-UNIT).is_some());
    assert_eq!(MotorSpeed::new(250_000).unwrap().get(), 250_000);
    assert!(MotorSpeed::new(UNIT + 1).is_none());
    assert!(MotorSpeed::new(-UNIT - 1).is_none());
}

#[test]
fn motor_speed_clamped_saturates() {
    assert_eq!(MotorSpeed::new_clamped(2 * UNIT).get(), UNIT);
    assert_eq!(MotorSpeed::new_clamped(-2 * UNIT).get(), -UNIT);
    assert_eq!(MotorSpeed::new_clamped(-500_000).get(), -500_000);
}

#[test]
fn motor_speed_unchecked_passes_through() {
    assert_eq!(MotorSpeed::new_unchecked(-1).get(), -1);
}

#[test]
fn squaring_preserves_sign() {
    // -0.5 squared keeps its sign: -0.25, not 0.25.
    assert_eq!(square_signed(-500_000), -250_000);
    assert_eq!(square_signed(500_000), 250_000);
    assert_eq!(square_signed(0), 0);
    assert_eq!(square_signed(-UNIT), -UNIT);
}

#[test]
fn shaping_clamps_before_squaring() {
    assert_eq!(shape_input(3 * UNIT, true), UNIT);
    assert_eq!(shape_input(-3 * UNIT, true), -UNIT);
    assert_eq!(shape_input(-500_000, true), -250_000);
    assert_eq!(shape_input(-500_000, false), -500_000);
    assert_eq!(clamp_unit(3 * UNIT), UNIT);
}

#[test]
fn saturation_arcade_zero_in_zero_out() {
    let (l, r) = arcade_speeds(
        MotorSpeed::new_unchecked(0),
        MotorSpeed::new_unchecked(0),
    );
    assert_eq!(l.get(), 0);
    assert_eq!(r.get(), 0);
}

#[test]
fn saturation_arcade_pure_forward_passes_through() {
    for v in [-UNIT, -333_333, -1, 1, 700_000, UNIT] {
        let (l, r) = arcade_speeds(
            MotorSpeed::new_unchecked(v),
            MotorSpeed::new_unchecked(0),
        );
        assert_eq!(l.get(), v);
        assert_eq!(r.get(), v);
    }
}

#[test]
fn saturation_arcade_pure_rotation_is_antisymmetric() {
    for v in [-UNIT, -250_000, 1, 600_000, UNIT] {
        let (l, r) = arcade_speeds(
            MotorSpeed::new_unchecked(0),
            MotorSpeed::new_unchecked(v),
        );
        assert_eq!(l.get(), -r.get());
        assert_eq!(r.get(), v);
    }
}

#[test]
fn saturation_arcade_stays_in_band() {
    let samples = [-UNIT, -999_999, -500_000, -1, 0, 1, 250_000, UNIT];
    for &y in &samples {
        for &x in &samples {
            let (l, r) = arcade_speeds(
                MotorSpeed::new_unchecked(y),
                MotorSpeed::new_unchecked(x),
            );
            assert!(in_band(l.get()), "left {} out of band for ({}, {})", l.get(), y, x);
            assert!(in_band(r.get()), "right {} out of band for ({}, {})", r.get(), y, x);
        }
    }
}

#[test]
fn saturation_arcade_mixed_input_example() {
    // forward 1.0, rotation 0.5: saturated by (1.0 + 0.5) / 1.0.
    let (l, r) = arcade_speeds(
        MotorSpeed::new_unchecked(UNIT),
        MotorSpeed::new_unchecked(500_000),
    );
    // left = (1.0 - 0.5) / 1.5, right = (1.0 + 0.5) / 1.5.
    assert_eq!(l.get(), 333_333);
    assert_eq!(r.get(), UNIT);
}

#[test]
fn drivebase_tank_drive_commands_both_sides() {
    let mut db = Drivebase::new();
    assert_eq!(db.commanded(), (0, 0));
    db.tank_drive(
        MotorSpeed::new_unchecked(-300_000),
        MotorSpeed::new_unchecked(800_000),
    );
    assert_eq!(db.commanded(), (-300_000, 800_000));
}

#[test]
fn drivebase_arcade_drive_matches_pure_function() {
    let mut db = Drivebase::new();
    db.arcade_drive(
        MotorSpeed::new_unchecked(UNIT),
        MotorSpeed::new_unchecked(500_000),
    );
    assert_eq!(db.commanded(), (333_333, UNIT));
}

#[test]
fn quadrant_arcade_zero_in_zero_out() {
    let mut db = QuadrantDrivebase::new();
    db.arcade_drive(0, 0, false);
    assert_eq!(db.feed_motors(), (0, 0));
}

#[test]
fn quadrant_arcade_same_sign_quadrant() {
    // forward 1.0, rotation 1.0: left takes the dominant input, right the
    // difference.
    let mut db = QuadrantDrivebase::new();
    db.arcade_drive(UNIT, UNIT, false);
    assert_eq!(db.feed_motors(), (UNIT, 0));
}

#[test]
fn quadrant_arcade_mixed_sign_quadrant() {
    // forward 0.5, rotation -0.5: left takes the sum, right the dominant
    // input with the forward sign.
    let mut db = QuadrantDrivebase::new();
    db.arcade_drive(500_000, -500_000, false);
    assert_eq!(db.feed_motors(), (0, 500_000));
}

#[test]
fn quadrant_arcade_squares_inputs() {
    let mut db = QuadrantDrivebase::new();
    db.arcade_drive(-500_000, 0, true);
    assert_eq!(db.feed_motors(), (-250_000, -250_000));
}

#[test]
fn quadrant_arcade_stays_in_band() {
    let samples = [-3 * UNIT, -UNIT, -500_000, 0, 1, 999_999, UNIT, 2 * UNIT];
    for &x in &samples {
        for &y in &samples {
            for square in [false, true] {
                let mut db = QuadrantDrivebase::new();
                db.arcade_drive(x, y, square);
                let (l, r) = db.feed_motors();
                assert!(in_band(l), "left {} out of band for ({}, {})", l, x, y);
                assert!(in_band(r), "right {} out of band for ({}, {})", r, x, y);
            }
        }
    }
}

#[test]
fn quadrant_tank_drive_shapes_each_side() {
    let mut db = QuadrantDrivebase::new();
    db.tank_drive(-500_000, 2 * UNIT, true);
    assert_eq!(db.feed_motors(), (-250_000, UNIT));
    db.tank_drive(-500_000, 2 * UNIT, false);
    assert_eq!(db.feed_motors(), (-500_000, UNIT));
}

#[test]
fn quadrant_feed_motors_repeats_last_command() {
    let mut db = QuadrantDrivebase::new();
    db.tank_drive(100_000, -100_000, false);
    assert_eq!(db.feed_motors(), (100_000, -100_000));
    assert_eq!(db.feed_motors(), (100_000, -100_000));
}
