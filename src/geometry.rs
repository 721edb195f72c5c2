//! Geometry of a sphere cut by a horizontal water surface.
use vstd::math::abs;
use vstd::prelude::*;

verus! {

/// Largest magnitude accepted for a length (a radius, a coordinate or a
/// velocity component); it keeps every product of the model inside `u128`.
pub const MAX_LENGTH: i64 = 100_000_000;

/// Volume of a sphere of radius `r`, in multiples of `π / 3`:
/// `(4 / 3) · π · r³ = 4 · r³ · (π / 3)`.
pub open spec fn sphere_volume(r: int) -> int {
    4 * (r * r * r)
}

/// Sphere volume of the given radius, in multiples of `π / 3` cubic units.
pub fn volume(radius: u64) -> (r: u128)
    requires
        radius <= MAX_LENGTH,
    ensures
        r == sphere_volume(radius as int),
{
    let rr = radius as u128;
    assert(rr * rr <= 10_000_000_000_000_000) by (nonlinear_arith)
        requires rr <= 100_000_000;
    assert(rr * rr * rr <= 1_000_000_000_000_000_000_000_000) by (nonlinear_arith)
        requires rr <= 100_000_000, rr * rr <= 10_000_000_000_000_000;
    4 * (rr * rr * rr)
}

/// Volume of a spherical cap of height `h` cut from a sphere of radius `r`, in
/// multiples of `π / 3`: `(π / 3) · (3 · h² · r − h³)`.
pub open spec fn cap_volume(r: int, h: int) -> int {
    3 * (h * h * r) - h * h * h
}

/// Volume of liquid displaced by a sphere of radius `r` whose centre is at
/// height `y`, in water whose surface is at height `w`, in multiples of
/// `π / 3`: nothing above the surface, the whole sphere below it, otherwise
/// the submerged cap, whose height is `w - y + r`.
pub open spec fn displaced_volume(r: int, y: int, w: int) -> int {
    if y >= w + r {
        0
    } else if y <= w - r {
        sphere_volume(r)
    } else {
        cap_volume(r, w - y + r)
    }
}

/// Area of the equatorial disc of a sphere of radius `r`, in multiples of `π`.
pub open spec fn disc_area(r: int) -> int {
    r * r
}

/// Area of the disc in which a plane at distance `d` from the centre cuts a
/// sphere of radius `r`, in multiples of `π`.
pub open spec fn section_area(r: int, d: int) -> int {
    if abs(d) >= r {
        0
    } else {
        r * r - d * d
    }
}

/// Within the length bound.
pub open spec fn length_in_range(x: int) -> bool {
    -MAX_LENGTH <= x <= MAX_LENGTH
}

proof fn lemma_square_bound(x: int, b: int)
    requires
        0 <= x <= b,
    ensures
        0 <= x * x <= b * b,
{
    assert(0 <= x * x <= b * b) by (nonlinear_arith)
        requires
            0 <= x <= b,
    ;
}

/// A spherical cap grows with its height.
pub proof fn lemma_cap_volume_monotonic(r: int, h1: int, h2: int)
    requires
        0 <= h1 <= h2 <= 2 * r,
    ensures
        cap_volume(r, h1) <= cap_volume(r, h2),
{
    let d = h2 - h1;
    let s = h1 + h2;
    let q = h1 * h1 + h1 * h2 + h2 * h2;
    let k = 3 * r * s - q;
    assert(h2 * h2 - h1 * h1 == d * s) by (nonlinear_arith)
        requires
            d == h2 - h1,
            s == h1 + h2,
    ;
    assert(h2 * h2 * h2 - h1 * h1 * h1 == d * q) by (nonlinear_arith)
        requires
            d == h2 - h1,
            q == h1 * h1 + h1 * h2 + h2 * h2,
    ;
    assert(3 * (h2 * h2 * r) - 3 * (h1 * h1 * r) == 3 * r * (d * s)) by (nonlinear_arith)
        requires
            h2 * h2 - h1 * h1 == d * s,
    ;
    assert(3 * r * (d * s) - d * q == d * k) by (nonlinear_arith)
        requires
            k == 3 * r * s - q,
    ;
    assert(cap_volume(r, h2) - cap_volume(r, h1) == d * k);
    assert((2 * r - h2) * (h1 + h2) >= 0) by (nonlinear_arith)
        requires
            0 <= h1 <= h2 <= 2 * r,
    ;
    assert((h2 - h1) * (h2 + 2 * h1) >= 0) by (nonlinear_arith)
        requires
            0 <= h1 <= h2,
    ;
    assert(k >= 0) by (nonlinear_arith)
        requires
            k == 3 * r * (h1 + h2) - (h1 * h1 + h1 * h2 + h2 * h2),
            (2 * r - h2) * (h1 + h2) >= 0,
            (h2 - h1) * (h2 + 2 * h1) >= 0,
    ;
    assert(d * k >= 0) by (nonlinear_arith)
        requires
            d >= 0,
            k >= 0,
    ;
}

/// An empty cap has no volume and a cap as high as the sphere is the sphere.
pub proof fn lemma_cap_volume_ends(r: int)
    ensures
        cap_volume(r, 0) == 0,
        cap_volume(r, 2 * r) == sphere_volume(r),
{
    assert(cap_volume(r, 0) == 0) by (nonlinear_arith);
    assert(cap_volume(r, 2 * r) == sphere_volume(r)) by (nonlinear_arith);
}

/// A cap as high as the radius is half of the sphere.
pub proof fn lemma_half_submerged(r: int)
    ensures
        2 * cap_volume(r, r) == sphere_volume(r),
{
    assert(2 * cap_volume(r, r) == sphere_volume(r)) by (nonlinear_arith);
}

/// The displaced volume is never negative and never more than the sphere.
pub proof fn lemma_displaced_volume_bounds(r: int, y: int, w: int)
    requires
        r > 0,
    ensures
        0 <= displaced_volume(r, y, w) <= sphere_volume(r),
{
    lemma_cap_volume_ends(r);
    if y >= w + r {
        assert(r * r * r >= 0) by (nonlinear_arith)
            requires
                r > 0,
        ;
    } else if y > w - r {
        lemma_cap_volume_monotonic(r, 0, w - y + r);
        lemma_cap_volume_monotonic(r, w - y + r, 2 * r);
    }
}

/// The displaced volume is continuous where the sphere touches the surface
/// from above (`y == w + r`, no volume) and from below (`y == w - r`, the
/// whole sphere): the partially submerged formula meets the other two there.
pub proof fn lemma_displaced_volume_continuous(r: int, w: int)
    requires
        r > 0,
    ensures
        displaced_volume(r, w + r, w) == 0,
        cap_volume(r, w - (w + r) + r) == 0,
        displaced_volume(r, w - r, w) == sphere_volume(r),
        cap_volume(r, w - (w - r) + r) == sphere_volume(r),
{
    lemma_cap_volume_ends(r);
}

/// The displaced volume never grows as the sphere rises.
pub proof fn lemma_displaced_volume_monotonic(r: int, w: int, y1: int, y2: int)
    requires
        r > 0,
        y1 <= y2,
    ensures
        displaced_volume(r, y1, w) >= displaced_volume(r, y2, w),
{
    lemma_displaced_volume_bounds(r, y1, w);
    lemma_displaced_volume_bounds(r, y2, w);
    if w - r < y1 && y2 < w + r {
        lemma_cap_volume_monotonic(r, w - y2 + r, w - y1 + r);
    }
}

/// Volume of the cap of the given height cut from a sphere of the given
/// radius, in multiples of `π / 3` cubic units.
pub fn partial_volume(radius: u64, height: u64) -> (r: u128)
    requires
        radius <= MAX_LENGTH,
        height <= 2 * radius,
    ensures
        r == cap_volume(radius as int, height as int),
{
    let rr = radius as u128;
    let h = height as u128;
    proof {
        lemma_square_bound(h as int, 200_000_000);
    }
    let rest = 3 * rr - h;
    assert(h * h * rest <= 40_000_000_000_000_000 * 300_000_000) by (nonlinear_arith)
        requires
            h * h <= 40_000_000_000_000_000,
            rest <= 300_000_000,
    ;
    assert(h * h * rest == cap_volume(rr as int, h as int)) by (nonlinear_arith)
        requires
            rest == 3 * rr - h,
    ;
    h * h * rest
}

/// Volume of liquid displaced by a sphere of the given radius whose centre is
/// at `vertical_position`, under a water surface at `water_height`, in
/// multiples of `π / 3` cubic units.
pub fn displaced_liquid_volume(radius: u64, vertical_position: i64, water_height: i64) -> (r: u128)
    requires
        radius <= MAX_LENGTH,
        length_in_range(vertical_position as int),
        length_in_range(water_height as int),
    ensures
        r == displaced_volume(radius as int, vertical_position as int, water_height as int),
        r <= sphere_volume(radius as int),
{
    let rad = radius as i64;
    proof {
        if radius > 0 {
            lemma_displaced_volume_bounds(radius as int, vertical_position as int, water_height as int);
        }
    }
    if vertical_position >= water_height + rad {
        return 0;
    }
    if vertical_position <= water_height - rad {
        return volume(radius);
    }
    partial_volume(radius, (water_height - vertical_position + rad) as u64)
}

/// Area of the sphere's equatorial disc, its largest cross-section, in
/// multiples of `π` square units.
pub fn cross_section_area(radius: u64) -> (r: u128)
    requires
        radius <= MAX_LENGTH,
    ensures
        r == disc_area(radius as int),
{
    let rr = radius as u128;
    proof {
        lemma_square_bound(rr as int, 100_000_000);
    }
    rr * rr
}

/// Area of the disc in which a plane at `distance_to_center` from the centre
/// cuts the sphere, in multiples of `π` square units; zero where the plane
/// misses the sphere.
pub fn off_center_cross_section_area(radius: u64, distance_to_center: i64) -> (r: u128)
    requires
        radius <= MAX_LENGTH,
        length_in_range(distance_to_center as int),
    ensures
        r == section_area(radius as int, distance_to_center as int),
        abs(distance_to_center as int) >= radius ==> r == 0,
        distance_to_center == 0 ==> r == disc_area(radius as int),
        r <= disc_area(radius as int),
{
    let abs_distance_to_center: u64 = if distance_to_center < 0 {
        (-distance_to_center) as u64
    } else {
        distance_to_center as u64
    };
    if abs_distance_to_center >= radius {
        return 0;
    }
    let d = abs_distance_to_center as u128;
    let full = cross_section_area(radius);
    proof {
        lemma_square_bound(d as int, radius as int);
    }
    assert(d * d == distance_to_center * distance_to_center) by (nonlinear_arith)
        requires
            d == abs(distance_to_center as int),
    ;
    full - d * d
}

} // verus!
