use geo_quizz::evaluate::evaluate;
use geo_quizz::types::{CityRecord, GuessType, LocalPoint};
use geo_quizz::MAX_POINTS;

fn target_at(name: &str, x_milli: i64, y_milli: i64) -> CityRecord {
    CityRecord {
        name: name.to_owned(),
        location: LocalPoint { x_milli, y_milli },
    }
}

#[test]
fn test_name_match_scoring() {
    let target = target_at("Soignies", -83_000, 14_000);
    let guess = GuessType::Name("soignies ".to_owned());
    assert_eq!(evaluate(&guess, &target), MAX_POINTS);
}

#[test]
fn test_name_match_unicode_case() {
    let target = target_at("Li\u{e8}ge", 216_000, 50_000);
    let guess = GuessType::Name("LI\u{c8}GE".to_owned());
    assert_eq!(evaluate(&guess, &target), MAX_POINTS);
}

#[test]
fn test_name_match_trims_both_ends() {
    let target = target_at("Namur", 100_000, -30_000);
    let guess = GuessType::Name("\t namur \n".to_owned());
    assert_eq!(evaluate(&guess, &target), MAX_POINTS);
}

#[test]
fn test_name_mismatch_scores_zero() {
    let target = target_at("Soignies", -83_000, 14_000);
    let guess = GuessType::Name("Charleroi".to_owned());
    assert_eq!(evaluate(&guess, &target), 0);
}

#[test]
fn test_exact_location_scores_maximum() {
    let target = target_at("Soignies", -83_000, 14_000);
    let guess = GuessType::Location(LocalPoint {
        x_milli: -83_000,
        y_milli: 14_000,
    });
    assert_eq!(evaluate(&guess, &target), MAX_POINTS);
}

#[test]
fn test_location_five_units_off() {
    // A 3-4-5 triangle: 3 units east, 4 units north is 5 units away.
    let target = target_at("Soignies", 0, 0);
    let guess = GuessType::Location(LocalPoint {
        x_milli: 3_000,
        y_milli: 4_000,
    });
    assert_eq!(evaluate(&guess, &target), 95);
}

#[test]
fn test_location_distance_rounds_half_up() {
    let target = target_at("Soignies", 0, 0);
    // 1.499 units away rounds down to 1 unit.
    let near = GuessType::Location(LocalPoint {
        x_milli: 1_499,
        y_milli: 0,
    });
    assert_eq!(evaluate(&near, &target), 99);
    // 1.5 units away rounds up to 2 units.
    let far = GuessType::Location(LocalPoint {
        x_milli: 1_500,
        y_milli: 0,
    });
    assert_eq!(evaluate(&far, &target), 98);
}

#[test]
fn test_distance_scoring_floor() {
    // A guess on the far side of the coordinate space never goes negative.
    let target = target_at("Soignies", -83_000, 14_000);
    let guess = GuessType::Location(LocalPoint {
        x_milli: 1_000_000_000,
        y_milli: -1_000_000_000,
    });
    assert_eq!(evaluate(&guess, &target), 0);
}

#[test]
fn test_distance_scoring_monotonic() {
    let target = target_at("Soignies", 10_000, 20_000);
    let mut last = MAX_POINTS;
    for step in 0..40_i64 {
        let guess = GuessType::Location(LocalPoint {
            x_milli: 10_000 + step * 7_000,
            y_milli: 20_000 + step * 2_500,
        });
        let pts = evaluate(&guess, &target);
        assert!(
            pts <= last,
            "farther guess earned more: {} then {}",
            last,
            pts
        );
        last = pts;
    }
}

#[test]
fn test_evaluate_is_pure() {
    let target = target_at("Soignies", -83_000, 14_000);
    let guess = GuessType::Location(LocalPoint {
        x_milli: -50_000,
        y_milli: 30_000,
    });
    assert_eq!(evaluate(&guess, &target), evaluate(&guess, &target));
}
