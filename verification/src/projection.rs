//! Geographic-to-local projection: a Mercator-style transform followed by an
//! affine calibration onto the background map's coordinate space.
//!
//! All arithmetic is exact fixed-point integer arithmetic. Longitudes and
//! latitudes arrive in microdegrees; the Mercator step produces nanoradians;
//! the calibration step produces milliunits of scene space. The Mercator
//! ordinate (the logarithm of the tangent of the co-latitude's half-angle) is
//! evaluated by a cubic expansion about the map's central latitude of 50.5
//! degrees, accurate to well under a tenth of a scene unit over the supported
//! latitude band. The calibration constants were fit so that known reference
//! cities land at their expected scene coordinates within one unit.

use vstd::prelude::*;

use crate::types::{geo_in_domain, local_in_bounds, GeoPoint, LocalPoint};

verus! {

/// `v * num / den` with truncation toward zero, the rounding that the
/// executable fixed-point steps use on signed values.
pub open spec fn scale_trunc(v: int, num: int, den: int) -> int {
    if v >= 0 {
        (v * num) / den
    } else {
        -(((-v) * num) / den)
    }
}

/// Mercator abscissa in nanoradians: the longitude in radians, shifted by the
/// central meridian of 4.5 degrees.
pub open spec fn merc_x_nano_spec(lon_micro: int) -> int {
    scale_trunc(lon_micro - 4_500_000, 17_453_293, 1_000_000)
}

/// Mercator ordinate in nanoradians: the vertical stretch of the latitude,
/// by a cubic expansion about 50.5 degrees.
pub open spec fn merc_y_nano_spec(lat_micro: int) -> int {
    let e = lat_micro - 50_500_000;
    let a = if e >= 0 {
        e
    } else {
        -e
    };
    let lin = (a * 27_438_909) / 1_000_000;
    let quad = ((a * a) * 290_476) / 1_000_000_000_000;
    let cub = ((((a * a) / 1000) * a) * 549) / 100_000_000_000_000;
    if e >= 0 {
        1_024_330_705 + lin + quad + cub
    } else {
        1_024_330_705 - lin + quad - cub
    }
}

/// Affine calibration of the abscissa, from nanoradians to milliunits.
pub open spec fn x_trans_spec(x_nano: int) -> int {
    scale_trunc(x_nano, 11_173_297, 1_000_000_000) + 1215
}

/// Affine calibration of the ordinate, from nanoradians to milliunits.
pub open spec fn y_trans_spec(y_nano: int) -> int {
    scale_trunc(y_nano, 10_760_031, 1_000_000_000) - 11_030_805
}

/// The full projection: Mercator transform, then axis-wise calibration.
pub open spec fn project_spec(g: GeoPoint) -> LocalPoint {
    LocalPoint {
        x_milli: x_trans_spec(merc_x_nano_spec(g.lon_micro as int)) as i64,
        y_milli: y_trans_spec(merc_y_nano_spec(g.lat_micro as int)) as i64,
    }
}

/// Convert geographic coordinates (longitude, latitude) in microdegrees into
/// Mercator projection coordinates in nanoradians, unscaled.
pub fn mercator(lon_micro: i64, lat_micro: i64) -> (r: (i64, i64))
    requires
        geo_in_domain(GeoPoint { lon_micro, lat_micro }),
    ensures
        r.0 == merc_x_nano_spec(lon_micro as int),
        r.1 == merc_y_nano_spec(lat_micro as int),
        -3_250_000_000 <= r.0 <= 3_250_000_000,
        950_000_000 <= r.1 <= 1_100_000_000,
{
    let d: i64 = lon_micro - 4_500_000;
    let xn: i64 = if d >= 0 {
        ((d as u64 * 17_453_293) / 1_000_000) as i64
    } else {
        -((((-d) as u64 * 17_453_293) / 1_000_000) as i64)
    };

    let e: i64 = lat_micro - 50_500_000;
    let a: u64 = if e >= 0 {
        e as u64
    } else {
        (-e) as u64
    };
    let lin: u64 = (a * 27_438_909) / 1_000_000;
    assert(a * a <= 6_250_000_000_000) by (nonlinear_arith)
        requires
            a <= 2_500_000,
    ;
    let a2: u64 = a * a;
    let quad: u64 = (a2 * 290_476) / 1_000_000_000_000;
    let a2k: u64 = a2 / 1000;
    assert(a2k * a <= 15_625_000_000_000_000) by (nonlinear_arith)
        requires
            a2k <= 6_250_000_000,
            a <= 2_500_000,
    ;
    let cub: u64 = ((a2k * a) * 549) / 100_000_000_000_000;
    let yn: i64 = if e >= 0 {
        (1_024_330_705 + lin + quad + cub) as i64
    } else {
        1_024_330_705 - (lin as i64) + (quad as i64) - (cub as i64)
    };
    (xn, yn)
}

/// Affine calibration of the abscissa onto the map image's horizontal axis.
pub fn x_transformation(x_nano: i64) -> (r: i64)
    requires
        -3_250_000_000 <= x_nano <= 3_250_000_000,
    ensures
        r == x_trans_spec(x_nano as int),
        -37_000_000 <= r <= 37_000_000,
{
    if x_nano >= 0 {
        ((x_nano as u64 * 11_173_297) / 1_000_000_000) as i64 + 1215
    } else {
        -((((-x_nano) as u64 * 11_173_297) / 1_000_000_000) as i64) + 1215
    }
}

/// Affine calibration of the ordinate onto the map image's vertical axis.
pub fn y_transformation(y_nano: i64) -> (r: i64)
    requires
        -2_000_000_000 <= y_nano <= 2_000_000_000,
    ensures
        r == y_trans_spec(y_nano as int),
        -33_000_000 <= r <= 11_000_000,
{
    if y_nano >= 0 {
        ((y_nano as u64 * 10_760_031) / 1_000_000_000) as i64 - 11_030_805
    } else {
        -((((-y_nano) as u64 * 10_760_031) / 1_000_000_000) as i64) - 11_030_805
    }
}

/// Map a longitude and latitude in microdegrees to scene coordinates in
/// milliunits.
pub fn oms_to_local(lon_micro: i64, lat_micro: i64) -> (r: (i64, i64))
    requires
        geo_in_domain(GeoPoint { lon_micro, lat_micro }),
    ensures
        r.0 == x_trans_spec(merc_x_nano_spec(lon_micro as int)),
        r.1 == y_trans_spec(merc_y_nano_spec(lat_micro as int)),
        -37_000_000 <= r.0 <= 37_000_000,
        -33_000_000 <= r.1 <= 11_000_000,
{
    let (xn, yn) = mercator(lon_micro, lat_micro);
    (x_transformation(xn), y_transformation(yn))
}

/// Project a geographic point onto the map's scene space. Pure and total on
/// the supported geographic band: the result is a function of the input
/// alone, and always lies within the coordinate bounds that exact distance
/// scoring requires.
pub fn project(g: GeoPoint) -> (p: LocalPoint)
    requires
        geo_in_domain(g),
    ensures
        p == project_spec(g),
        local_in_bounds(p),
{
    let (x_milli, y_milli) = oms_to_local(g.lon_micro, g.lat_micro);
    LocalPoint { x_milli, y_milli }
}

/// Law: the projection is deterministic. Any two results obtained for the
/// same geographic point are identical, because the projection's contract
/// pins the result to a function of the input alone.
pub proof fn lemma_project_deterministic(g: GeoPoint, p1: LocalPoint, p2: LocalPoint)
    requires
        p1 == project_spec(g),
        p2 == project_spec(g),
    ensures
        p1 == p2,
{
}

} // verus!
