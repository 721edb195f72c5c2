//! The per-tick update of float bodies: submersion regime, damping
//! coefficient, and the force and damping written back to each body.
use vstd::prelude::*;

use crate::dynamics::{
    buoyant_force, damping_for_speed_squared, drag, lift, Force, SPHERE_DRAG_COEFFICIENT_CENTI,
};
use crate::geometry::{
    cross_section_area, disc_area, displaced_liquid_volume, displaced_volume, length_in_range,
    off_center_cross_section_area, section_area, sphere_volume, MAX_LENGTH,
};

verus! {

/// A vector of lengths (a position) or of lengths per second (a velocity);
/// `y` points up.
#[derive(Clone, Copy, Debug, PartialEq, Eq, Structural)]
pub struct Vector {
    pub x: i64,
    pub y: i64,
    pub z: i64,
}

/// What the update reads of one float body in one tick, with the height of the
/// water surface above its horizontal position.
#[derive(Clone, Copy, Debug, PartialEq, Eq, Structural)]
pub struct FloatSample {
    pub position: Vector,
    pub velocity: Vector,
    pub radius: i64,
    pub water_height: i64,
}

/// What the update writes to one float body: the force replaces the body's
/// force, the damping coefficient replaces both its linear and its angular
/// damping.
#[derive(Clone, Copy, Debug, PartialEq, Eq, Structural)]
pub struct FloatOutput {
    pub force: Force,
    pub linear_damping: u128,
    pub angular_damping: u128,
}

/// Why a body's update was refused for a tick.
#[derive(Clone, Copy, Debug, PartialEq, Eq, Structural)]
pub enum FloatError {
    /// The radius is zero or negative.
    NonPositiveRadius,
    /// A coordinate, a velocity component, the radius or the water height
    /// exceeds `MAX_LENGTH` in magnitude.
    OutOfRange,
}

/// How far a body is submerged, which decides its damping.
#[derive(Clone, Copy, Debug, PartialEq, Eq, Structural)]
pub enum Submersion {
    /// Entirely above the surface.
    Dry,
    /// In the water, at most half submerged.
    Partial,
    /// More than half submerged.
    Deep,
}

/// Height of the sphere's lowest point above the water surface,
/// `(y - w) - r`; negative once the sphere dips into the water.
pub open spec fn submerged(r: int, y: int, w: int) -> int {
    (y - w) - r
}

/// Dry while the lowest point is at or above the surface, deep once the
/// surface is above the centre, partial in between.
pub open spec fn regime(r: int, y: int, w: int) -> Submersion {
    let s = submerged(r, y, w);
    if s >= 0 {
        Submersion::Dry
    } else if s < -r {
        Submersion::Deep
    } else {
        Submersion::Partial
    }
}

/// Cross-section that the drag law uses in each regime, in multiples of `π`:
/// none when dry, the equatorial disc when deep, otherwise the section at the
/// surface plane.
pub open spec fn reference_area(r: int, y: int, w: int) -> int {
    match regime(r, y, w) {
        Submersion::Dry => 0,
        Submersion::Deep => disc_area(r),
        Submersion::Partial => section_area(r, r + submerged(r, y, w)),
    }
}

/// Square of a velocity's length.
pub open spec fn speed_squared(v: Vector) -> int {
    v.x * v.x + v.y * v.y + v.z * v.z
}

/// Damping coefficient: none when dry, otherwise the sphere's quadratic drag
/// over the regime's reference area.
pub open spec fn damping_coefficient_of(r: int, y: int, w: int, v: Vector) -> int {
    match regime(r, y, w) {
        Submersion::Dry => 0,
        _ => drag(speed_squared(v), reference_area(r, y, w), SPHERE_DRAG_COEFFICIENT_CENTI as int),
    }
}

/// Every component within the length bound.
pub open spec fn vector_in_range(v: Vector) -> bool {
    length_in_range(v.x as int) && length_in_range(v.y as int) && length_in_range(v.z as int)
}

/// Every quantity of the sample within the length bound.
pub open spec fn sample_in_range(s: FloatSample) -> bool {
    &&& vector_in_range(s.position)
    &&& vector_in_range(s.velocity)
    &&& s.radius <= MAX_LENGTH
    &&& length_in_range(s.water_height as int)
}

/// The force and damping of a valid sample.
pub open spec fn float_output(s: FloatSample) -> FloatOutput {
    let r = s.radius as int;
    let y = s.position.y as int;
    let w = s.water_height as int;
    let d = damping_coefficient_of(r, y, w, s.velocity);
    FloatOutput {
        force: Force { x: 0, y: lift(displaced_volume(r, y, w)) as i128, z: 0 },
        linear_damping: d as u128,
        angular_damping: d as u128,
    }
}

/// Outcome of one body's update: a non-positive radius is refused first,
/// then anything out of range, and every other sample gets its output.
pub open spec fn float_result(s: FloatSample) -> Result<FloatOutput, FloatError> {
    if s.radius <= 0 {
        Err(FloatError::NonPositiveRadius)
    } else if !sample_in_range(s) {
        Err(FloatError::OutOfRange)
    } else {
        Ok(float_output(s))
    }
}

/// Signed offset `(vertical_position - water_height) - radius` that
/// classifies the submersion regime.
pub fn submerged_offset(radius: u64, vertical_position: i64, water_height: i64) -> (r: i64)
    requires
        radius <= MAX_LENGTH,
        length_in_range(vertical_position as int),
        length_in_range(water_height as int),
    ensures
        r == submerged(radius as int, vertical_position as int, water_height as int),
{
    (vertical_position - water_height) - radius as i64
}

/// Submersion regime of a sphere of the given radius whose centre is at
/// `vertical_position`, under a surface at `water_height`.
pub fn submersion(radius: u64, vertical_position: i64, water_height: i64) -> (r: Submersion)
    requires
        radius <= MAX_LENGTH,
        length_in_range(vertical_position as int),
        length_in_range(water_height as int),
    ensures
        r == regime(radius as int, vertical_position as int, water_height as int),
{
    let submerged = submerged_offset(radius, vertical_position, water_height);
    if submerged >= 0 {
        Submersion::Dry
    } else if submerged < -(radius as i64) {
        Submersion::Deep
    } else {
        Submersion::Partial
    }
}

/// Cross-section area that the drag law uses, in multiples of `π` square
/// units.
pub fn drag_reference_area(radius: u64, vertical_position: i64, water_height: i64) -> (r: u128)
    requires
        radius <= MAX_LENGTH,
        length_in_range(vertical_position as int),
        length_in_range(water_height as int),
    ensures
        r == reference_area(radius as int, vertical_position as int, water_height as int),
        r <= disc_area(radius as int),
{
    match submersion(radius, vertical_position, water_height) {
        Submersion::Dry => 0,
        Submersion::Deep => cross_section_area(radius),
        Submersion::Partial => {
            let submerged = submerged_offset(radius, vertical_position, water_height);
            off_center_cross_section_area(radius, radius as i64 + submerged)
        },
    }
}

proof fn lemma_damping_bound(speed_squared: int, area: int)
    requires
        0 <= speed_squared <= 30_000_000_000_000_000,
        0 <= area <= 10_000_000_000_000_000,
    ensures
        drag(speed_squared, area, SPHERE_DRAG_COEFFICIENT_CENTI as int) <= u128::MAX,
{
    assert(drag(speed_squared, area, SPHERE_DRAG_COEFFICIENT_CENTI as int) == 1025 * speed_squared
        * area * 47);
    assert(1025 * speed_squared * area * 47 <= 1025 * 30_000_000_000_000_000
        * 10_000_000_000_000_000 * 47) by (nonlinear_arith)
        requires
            0 <= speed_squared <= 30_000_000_000_000_000,
            0 <= area <= 10_000_000_000_000_000,
    ;
}

/// Damping coefficient of a sphere moving at `velocity`: zero when dry,
/// otherwise the quadratic drag over the regime's reference area, scaled as
/// `DAMPING_DENOMINATOR` says (and in multiples of `π`).
pub fn damping_coefficient(radius: u64, vertical_position: i64, water_height: i64, velocity: &Vector) -> (r: u128)
    requires
        radius <= MAX_LENGTH,
        length_in_range(vertical_position as int),
        length_in_range(water_height as int),
        vector_in_range(*velocity),
    ensures
        r == damping_coefficient_of(
            radius as int,
            vertical_position as int,
            water_height as int,
            *velocity,
        ),
{
    if let Submersion::Dry = submersion(radius, vertical_position, water_height) {
        return 0;
    }
    let area = drag_reference_area(radius, vertical_position, water_height);
    let vx = velocity.x as i128;
    let vy = velocity.y as i128;
    let vz = velocity.z as i128;
    assert(vx * vx <= 10_000_000_000_000_000 && vy * vy <= 10_000_000_000_000_000 && vz * vz
        <= 10_000_000_000_000_000) by (nonlinear_arith)
        requires
            -100_000_000 <= vx <= 100_000_000,
            -100_000_000 <= vy <= 100_000_000,
            -100_000_000 <= vz <= 100_000_000,
    ;
    assert(0 <= vx * vx && 0 <= vy * vy && 0 <= vz * vz) by (nonlinear_arith);
    let speed_squared = (vx * vx + vy * vy + vz * vz) as u128;
    assert(disc_area(radius as int) <= 10_000_000_000_000_000) by (nonlinear_arith)
        requires
            radius <= 100_000_000,
    ;
    proof {
        lemma_damping_bound(speed_squared as int, area as int);
    }
    damping_for_speed_squared(speed_squared, area, SPHERE_DRAG_COEFFICIENT_CENTI)
}

proof fn lemma_lift_bound(r: int, v: int)
    requires
        0 < r <= MAX_LENGTH,
        0 <= v <= sphere_volume(r),
    ensures
        0 <= lift(v) <= i128::MAX,
{
    assert(r * r * r <= 1_000_000_000_000_000_000_000_000) by (nonlinear_arith)
        requires
            0 < r <= 100_000_000,
    ;
    assert(lift(v) == 1025 * 9807 * v);
    assert(1025 * 9807 * v <= 1025 * 9807 * 4_000_000_000_000_000_000_000_000) by (nonlinear_arith)
        requires
            0 <= v <= 4_000_000_000_000_000_000_000_000,
    ;
}

/// Force and damping of one float body for one tick, or why its update is
/// refused.
pub fn update_float(sample: &FloatSample) -> (r: Result<FloatOutput, FloatError>)
    ensures
        r == float_result(*sample),
{
    if sample.radius <= 0 {
        return Err(FloatError::NonPositiveRadius);
    }
    let in_range = |x: i64| -> (b: bool)
        ensures
            b == length_in_range(x as int),
        { -MAX_LENGTH <= x && x <= MAX_LENGTH };
    if !(in_range(sample.position.x) && in_range(sample.position.y) && in_range(sample.position.z)
        && in_range(sample.velocity.x) && in_range(sample.velocity.y) && in_range(sample.velocity.z)
        && sample.radius <= MAX_LENGTH && in_range(sample.water_height)) {
        return Err(FloatError::OutOfRange);
    }
    let radius = sample.radius as u64;
    let y = sample.position.y;
    let w = sample.water_height;
    let volume = displaced_liquid_volume(radius, y, w);
    proof {
        crate::geometry::lemma_displaced_volume_bounds(radius as int, y as int, w as int);
        lemma_lift_bound(radius as int, volume as int);
    }
    let force = buoyant_force(volume);
    let coefficient = damping_coefficient(radius, y, w, &sample.velocity);
    Ok(FloatOutput { force, linear_damping: coefficient, angular_damping: coefficient })
}

/// Updates every body of a tick independently: one body's refusal leaves
/// the others' results as they would be alone.
pub fn update_floats(samples: &Vec<FloatSample>) -> (r: Vec<Result<FloatOutput, FloatError>>)
    ensures
        r@.len() == samples@.len(),
        forall|i: int| 0 <= i < samples@.len() ==> r@[i] == float_result(#[trigger] samples@[i]),
{
    let mut results: Vec<Result<FloatOutput, FloatError>> = Vec::new();
    let mut i: usize = 0;
    while i < samples.len()
        invariant
            i <= samples@.len(),
            results@.len() == i,
            forall|j: int| 0 <= j < i ==> results@[j] == float_result(#[trigger] samples@[j]),
        decreases samples@.len() - i,
    {
        results.push(update_float(&samples[i]));
        i = i + 1;
    }
    results
}

} // verus!
