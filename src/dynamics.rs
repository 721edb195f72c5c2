//! Buoyant force and quadratic drag damping.
use vstd::prelude::*;

verus! {

/// Density of the liquid, in thousandths (`1.025`).
pub const LIQUID_DENSITY_MILLI: u128 = 1025;

/// Gravitational acceleration, in thousandths (`9.807`).
pub const GRAVITY_MILLI: u128 = 9807;

/// Drag coefficient of a sphere, in hundredths (`0.47`).
pub const SPHERE_DRAG_COEFFICIENT_CENTI: u64 = 47;

/// A vertical force component returned by [`buoyant_force`] is this many
/// times `1 / π` the force itself: volumes come in thirds of `π`, density and
/// gravity in thousandths.
pub const FORCE_DENOMINATOR: u128 = 3_000_000;

/// A damping coefficient returned by [`damping`] is this many times the
/// coefficient itself (times `1 / π` when the reference area is counted in
/// multiples of `π`): the drag law halves, density comes in thousandths and the
/// drag coefficient in hundredths.
pub const DAMPING_DENOMINATOR: u128 = 200_000;

/// A force vector, each component a numerator over [`FORCE_DENOMINATOR`]
/// (and `π`); `y` points up.
#[derive(Clone, Copy, Debug, PartialEq, Eq, Structural)]
pub struct Force {
    pub x: i128,
    pub y: i128,
    pub z: i128,
}

/// Archimedes' lift on a displaced volume: density · volume · gravity.
pub open spec fn lift(volume: int) -> int {
    LIQUID_DENSITY_MILLI * GRAVITY_MILLI * volume
}

/// Quadratic drag `density · speed² · area · drag coefficient`, scaled as
/// [`DAMPING_DENOMINATOR`] says.
pub open spec fn drag(speed_squared: int, area: int, drag_coefficient: int) -> int {
    LIQUID_DENSITY_MILLI * speed_squared * area * drag_coefficient
}

/// Upward force on a body that displaces the given volume of liquid (in
/// multiples of `π / 3` cubic units); it never has a horizontal part.
pub fn buoyant_force(displaced_liquid_volume: u128) -> (r: Force)
    requires
        lift(displaced_liquid_volume as int) <= i128::MAX,
    ensures
        r == (Force { x: 0, y: lift(displaced_liquid_volume as int) as i128, z: 0 }),
        r.y >= 0,
{
    let y = LIQUID_DENSITY_MILLI * GRAVITY_MILLI * displaced_liquid_volume;
    Force { x: 0, y: y as i128, z: 0 }
}

proof fn lemma_factor_bound(a: int, b: int)
    requires
        a >= 0,
        b >= 1,
    ensures
        a <= a * b,
{
    assert(a <= a * b) by (nonlinear_arith)
        requires
            a >= 0,
            b >= 1,
    ;
}

/// Quadratic drag damping for a body whose speed squared is given.
pub fn damping_for_speed_squared(speed_squared: u128, reference_area: u128, drag_coefficient: u64) -> (r: u128)
    requires
        drag(speed_squared as int, reference_area as int, drag_coefficient as int) <= u128::MAX,
    ensures
        r == drag(speed_squared as int, reference_area as int, drag_coefficient as int),
{
    if speed_squared == 0 || reference_area == 0 || drag_coefficient == 0 {
        assert(drag(speed_squared as int, reference_area as int, drag_coefficient as int) == 0)
            by (nonlinear_arith)
            requires
                speed_squared == 0 || reference_area == 0 || drag_coefficient == 0,
        ;
        return 0;
    }
    let cd = drag_coefficient as u128;
    proof {
        let a = LIQUID_DENSITY_MILLI * speed_squared;
        lemma_factor_bound(a, reference_area as int);
        lemma_factor_bound(a * reference_area, cd as int);
    }
    LIQUID_DENSITY_MILLI * speed_squared * reference_area * cd
}

/// Quadratic drag damping `½ · density · v² · area · drag coefficient` for a
/// body moving at `relative_velocity` through the liquid, scaled as
/// [`DAMPING_DENOMINATOR`] says; `drag_coefficient` is in hundredths.
pub fn damping(relative_velocity: u64, reference_area: u128, drag_coefficient: u64) -> (r: u128)
    requires
        drag(relative_velocity * relative_velocity, reference_area as int, drag_coefficient as int)
            <= u128::MAX,
    ensures
        r == drag(relative_velocity * relative_velocity, reference_area as int, drag_coefficient as int),
{
    let v = relative_velocity as u128;
    assert(v * v <= u64::MAX * u64::MAX) by (nonlinear_arith)
        requires
            v <= u64::MAX,
    ;
    damping_for_speed_squared(v * v, reference_area, drag_coefficient)
}

/// Damping grows with the square of the speed: doubling the speed
/// quadruples it, for a fixed area and drag coefficient.
pub proof fn lemma_damping_quadratic(v: int, area: int, drag_coefficient: int)
    ensures
        drag((2 * v) * (2 * v), area, drag_coefficient) == 4 * drag(v * v, area, drag_coefficient),
{
    assert(drag((2 * v) * (2 * v), area, drag_coefficient) == 4 * drag(v * v, area, drag_coefficient))
        by (nonlinear_arith);
}

} // verus!
