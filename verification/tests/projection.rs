use geo_quizz::projection::{oms_to_local, project};
use geo_quizz::types::GeoPoint;

#[test]
fn test_oms_to_local_x() {
    // Soignies: 4.0685604 E, 50.579203 N, expected near (-83, 14) scene units.
    let x_oms_soignies: i64 = 4_068_560;
    let expected_soignies_x: i64 = -83_000;
    let y_oms_soignies: i64 = 50_579_203;
    let expected_soignies_y: i64 = 14_000;
    let (x, y) = oms_to_local(x_oms_soignies, y_oms_soignies);
    assert!(
        (x - expected_soignies_x).abs() < 1000,
        "Soignies X: expected \u{2248} {}, obtained {}",
        expected_soignies_x,
        x
    );

    assert!(
        (y - expected_soignies_y).abs() < 1000,
        "Soignies Y: expected \u{2248} {}, obtained {}",
        expected_soignies_y,
        y
    );
}

#[test]
fn test_project_deterministic() {
    let g = GeoPoint {
        lon_micro: 5_573_611,
        lat_micro: 50_645_000,
    };
    let p1 = project(g);
    let p2 = project(g);
    assert_eq!(p1, p2);
}

#[test]
fn test_project_matches_oms_to_local() {
    let g = GeoPoint {
        lon_micro: 4_351_700,
        lat_micro: 50_846_600,
    };
    let p = project(g);
    let (x, y) = oms_to_local(g.lon_micro, g.lat_micro);
    assert_eq!(p.x_milli, x);
    assert_eq!(p.y_milli, y);
}

#[test]
fn test_project_monotone_in_longitude() {
    // Farther east must land farther right on the map.
    let west = project(GeoPoint {
        lon_micro: 2_500_000,
        lat_micro: 50_500_000,
    });
    let east = project(GeoPoint {
        lon_micro: 6_000_000,
        lat_micro: 50_500_000,
    });
    assert!(west.x_milli < east.x_milli);
}

#[test]
fn test_project_monotone_in_latitude() {
    // Farther north must land farther up on the map.
    let south = project(GeoPoint {
        lon_micro: 4_500_000,
        lat_micro: 49_600_000,
    });
    let north = project(GeoPoint {
        lon_micro: 4_500_000,
        lat_micro: 51_400_000,
    });
    assert!(south.y_milli < north.y_milli);
}

#[test]
fn test_project_extremes_stay_bounded() {
    for &(lon, lat) in &[
        (-180_000_000_i64, 48_000_000_i64),
        (180_000_000, 48_000_000),
        (-180_000_000, 53_000_000),
        (180_000_000, 53_000_000),
    ] {
        let p = project(GeoPoint {
            lon_micro: lon,
            lat_micro: lat,
        });
        assert!(p.x_milli.abs() <= 37_000_000);
        assert!(p.y_milli.abs() <= 33_000_000);
    }
}
