use buoyancy::dynamics::{
    buoyant_force, damping, damping_for_speed_squared, Force, GRAVITY_MILLI,
    LIQUID_DENSITY_MILLI, SPHERE_DRAG_COEFFICIENT_CENTI,
};
use buoyancy::geometry::{
    cross_section_area, displaced_liquid_volume, off_center_cross_section_area, partial_volume,
    volume, MAX_LENGTH,
};
use buoyancy::update::{
    damping_coefficient, drag_reference_area, submerged_offset, submersion, update_float,
    update_floats, FloatError, FloatSample, Submersion, Vector,
};

const LIFT: i128 = (LIQUID_DENSITY_MILLI * GRAVITY_MILLI) as i128;

fn sample(radius: i64, y: i64, water_height: i64, velocity: Vector) -> FloatSample {
    FloatSample {
        position: Vector { x: 1000, y, z: -1000 },
        velocity,
        radius,
        water_height,
    }
}

#[test]
fn full_volume_is_four_thirds_pi_r_cubed() {
    // volumes are in multiples of pi/3
    assert_eq!(volume(500), 4 * 125_000_000);
    assert_eq!(volume(1), 4);
    assert_eq!(volume(0), 0);
    let exact = 4.0 / 3.0 * std::f64::consts::PI * 0.5f64.powi(3);
    let scaled = volume(500) as f64 * std::f64::consts::PI / 3.0 * 1e-9;
    assert!((exact - scaled).abs() < 1e-12);
}

#[test]
fn cap_volume_formula() {
    assert_eq!(partial_volume(10, 0), 0);
    assert_eq!(partial_volume(10, 20), volume(10));
    // 3 * 4 * 10 - 8
    assert_eq!(partial_volume(10, 2), 112);
}

#[test]
fn displaced_volume_is_continuous_at_the_boundaries() {
    let r = 500;
    assert_eq!(displaced_liquid_volume(r, r as i64, 0), 0);
    assert_eq!(displaced_liquid_volume(r, r as i64 - 1, 0), partial_volume(r, 1));
    assert_eq!(displaced_liquid_volume(r, -(r as i64), 0), volume(r));
    assert_eq!(displaced_liquid_volume(r, -(r as i64) + 1, 0), partial_volume(r, 999));
    assert!(volume(r) - partial_volume(r, 999) < partial_volume(r, 1) + 1_000_000);
}

#[test]
fn displaced_volume_does_not_grow_as_the_body_rises() {
    let mut last = displaced_liquid_volume(300, -400, 50);
    let mut y: i64 = -400;
    while y <= 500 {
        let v = displaced_liquid_volume(300, y, 50);
        assert!(v <= last);
        assert!(v <= volume(300));
        last = v;
        y += 7;
    }
}

#[test]
fn buoyant_force_points_straight_up() {
    assert_eq!(buoyant_force(0), Force { x: 0, y: 0, z: 0 });
    assert_eq!(buoyant_force(12), Force { x: 0, y: 12 * LIFT, z: 0 });
    assert_eq!(LIFT, 1025 * 9807);
}

#[test]
fn off_center_cross_section_areas() {
    assert_eq!(off_center_cross_section_area(10, 10), 0);
    assert_eq!(off_center_cross_section_area(10, -10), 0);
    assert_eq!(off_center_cross_section_area(10, 25), 0);
    assert_eq!(off_center_cross_section_area(10, 0), cross_section_area(10));
    assert_eq!(off_center_cross_section_area(10, 6), 64);
    assert_eq!(off_center_cross_section_area(10, -6), 64);
    assert_eq!(cross_section_area(500), 250_000);
}

#[test]
fn damping_scales_with_the_square_of_the_speed() {
    let one = damping(3, 250_000, SPHERE_DRAG_COEFFICIENT_CENTI);
    let two = damping(6, 250_000, SPHERE_DRAG_COEFFICIENT_CENTI);
    assert_eq!(two, 4 * one);
    assert_eq!(one, 1025 * 9 * 250_000 * 47);
    assert_eq!(damping(0, 250_000, 47), 0);
    assert_eq!(damping_for_speed_squared(25, 4, 47), 1025 * 25 * 4 * 47);
}

#[test]
fn scenario_half_submerged() {
    assert_eq!(submerged_offset(500, 0, 0), -500);
    assert_eq!(submersion(500, 0, 0), Submersion::Partial);
    assert_eq!(2 * partial_volume(500, 500), volume(500));
    assert_eq!(displaced_liquid_volume(500, 0, 0), partial_volume(500, 500));
    let half = partial_volume(500, 500) as f64 * std::f64::consts::PI / 3.0 * 1e-9;
    assert!((half - 0.2618).abs() < 1e-4);
}

#[test]
fn scenario_dry() {
    let v = Vector { x: 100, y: -2000, z: 30 };
    assert_eq!(displaced_liquid_volume(500, 5000, 0), 0);
    assert_eq!(buoyant_force(0), Force { x: 0, y: 0, z: 0 });
    assert_eq!(submersion(500, 5000, 0), Submersion::Dry);
    assert_eq!(damping_coefficient(500, 5000, 0, &v), 0);
    let out = update_float(&sample(500, 5000, 0, v)).unwrap();
    assert_eq!(out.force, Force { x: 0, y: 0, z: 0 });
    assert_eq!(out.linear_damping, 0);
    assert_eq!(out.angular_damping, 0);
}

#[test]
fn scenario_fully_submerged() {
    let v = Vector { x: 3, y: 4, z: 0 };
    assert_eq!(displaced_liquid_volume(500, -5000, 0), volume(500));
    assert_eq!(submersion(500, -5000, 0), Submersion::Deep);
    assert_eq!(drag_reference_area(500, -5000, 0), cross_section_area(500));
    assert_eq!(drag_reference_area(500, -5000, 0), 250_000);
    let expected = damping(5, cross_section_area(500), SPHERE_DRAG_COEFFICIENT_CENTI);
    assert_eq!(damping_coefficient(500, -5000, 0, &v), expected);
    let out = update_float(&sample(500, -5000, 0, v)).unwrap();
    assert_eq!(out.force, Force { x: 0, y: volume(500) as i128 * LIFT, z: 0 });
    assert_eq!(out.linear_damping, expected);
    assert_eq!(out.angular_damping, expected);
}

#[test]
fn scenario_partial_shallow() {
    let v = Vector { x: 0, y: -7, z: 0 };
    let displaced = displaced_liquid_volume(1000, 800, 0);
    assert!(displaced > 0);
    assert!(displaced < volume(1000));
    assert_eq!(displaced, partial_volume(1000, 200));
    assert_eq!(submersion(1000, 800, 0), Submersion::Partial);
    let area = off_center_cross_section_area(1000, 800);
    assert_eq!(area, 360_000);
    assert_eq!(drag_reference_area(1000, 800, 0), area);
    assert_eq!(
        damping_coefficient(1000, 800, 0, &v),
        damping(7, area, SPHERE_DRAG_COEFFICIENT_CENTI)
    );
}

#[test]
fn deep_regime_starts_below_half() {
    assert_eq!(submersion(500, -1, 0), Submersion::Deep);
    assert_eq!(submersion(500, 0, 0), Submersion::Partial);
    assert_eq!(submersion(500, 499, 0), Submersion::Partial);
    assert_eq!(submersion(500, 500, 0), Submersion::Dry);
    assert_eq!(drag_reference_area(500, 499, 0), 250_000 - 499 * 499);
}

#[test]
fn non_positive_radius_is_refused() {
    let v = Vector { x: 0, y: 0, z: 0 };
    assert_eq!(update_float(&sample(0, 0, 0, v)), Err(FloatError::NonPositiveRadius));
    assert_eq!(update_float(&sample(-3, 0, 0, v)), Err(FloatError::NonPositiveRadius));
}

#[test]
fn out_of_range_input_is_refused() {
    let v = Vector { x: 0, y: 0, z: 0 };
    assert_eq!(
        update_float(&sample(500, 0, MAX_LENGTH + 1, v)),
        Err(FloatError::OutOfRange)
    );
    assert_eq!(
        update_float(&sample(MAX_LENGTH + 1, 0, 0, v)),
        Err(FloatError::OutOfRange)
    );
    let fast = Vector { x: 0, y: i64::MIN, z: 0 };
    assert_eq!(update_float(&sample(500, 0, 0, fast)), Err(FloatError::OutOfRange));
}

#[test]
fn largest_inputs_do_not_overflow() {
    let v = Vector { x: MAX_LENGTH, y: -MAX_LENGTH, z: MAX_LENGTH };
    let out = update_float(&FloatSample {
        position: Vector { x: MAX_LENGTH, y: -MAX_LENGTH, z: MAX_LENGTH },
        velocity: v,
        radius: MAX_LENGTH,
        water_height: MAX_LENGTH,
    })
    .unwrap();
    let r = MAX_LENGTH as u128;
    assert_eq!(out.force.y, (4 * r * r * r) as i128 * LIFT);
    assert_eq!(out.linear_damping, 1025 * (3 * r * r) * (r * r) * 47);
}

#[test]
fn each_body_is_updated_on_its_own() {
    let v = Vector { x: 1, y: 2, z: 2 };
    let samples = vec![
        sample(500, -5000, 0, v),
        sample(-1, 0, 0, v),
        sample(1000, 800, 0, v),
    ];
    let results = update_floats(&samples);
    assert_eq!(results.len(), 3);
    assert_eq!(results[0], update_float(&samples[0]));
    assert_eq!(results[1], Err(FloatError::NonPositiveRadius));
    assert_eq!(results[2], update_float(&samples[2]));
    let deep = results[0].unwrap();
    assert_eq!(deep.linear_damping, damping(3, 250_000, 47));
    assert!(update_floats(&Vec::new()).is_empty());
}
