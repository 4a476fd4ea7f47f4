use geo_quizz::catalog::{build_catalog, CityCatalog};
use geo_quizz::session::QuizSession;
use geo_quizz::types::{GameState, GeoError, GuessType, LocalPoint, RawCity};
use geo_quizz::MAX_POINTS;

fn raw(default: &str, lon_micro: i64, lat_micro: i64) -> RawCity {
    RawCity {
        name_default: default.to_owned(),
        name_fr: None,
        name_nl: None,
        lon_micro,
        lat_micro,
    }
}

fn catalog_of(n: usize) -> CityCatalog {
    let mut records = Vec::new();
    for i in 0..n {
        records.push(raw(
            &format!("City{}", i),
            4_000_000 + (i as i64) * 10_000,
            50_000_000 + (i as i64) * 10_000,
        ));
    }
    build_catalog(&records).expect("generated dataset should build")
}

fn far_guess() -> GuessType {
    GuessType::Location(LocalPoint {
        x_milli: 900_000_000,
        y_milli: 900_000_000,
    })
}

#[test]
fn test_session_lifecycle_end_to_end() {
    let mut s = QuizSession::new(catalog_of(3));
    assert_eq!(s.state(), GameState::NotStarted);
    s.start(3).expect("start with a valid round size");
    assert_eq!(s.state(), GameState::InRound);
    assert!(s.current_target().is_some());

    for round in 0..3 {
        let target_loc = s.current_target().expect("a round is open").location;
        let pts = s
            .submit_guess(&GuessType::Location(target_loc))
            .expect("an open round accepts a guess");
        assert_eq!(pts, MAX_POINTS, "exact guess in round {}", round);
        assert_eq!(s.state(), GameState::RoundComplete);
        assert!(s.current_target().is_none());
        s.advance_round();
    }

    assert_eq!(s.state(), GameState::SessionComplete);
    assert!(s.current_target().is_none());
    let score = s.score();
    assert_eq!(score.max, 3 * MAX_POINTS);
    assert_eq!(score.total, 3 * MAX_POINTS);
}

#[test]
fn test_invalid_round_size_rejected() {
    let mut s = QuizSession::new(catalog_of(5));
    let r = s.start(0);
    assert!(matches!(r, Err(GeoError::InvalidRoundSize)));
    assert_eq!(s.state(), GameState::NotStarted);
    assert!(s.current_target().is_none());
}

#[test]
fn test_no_active_round_guard_before_start() {
    let mut s = QuizSession::new(catalog_of(5));
    let r = s.submit_guess(&far_guess());
    assert!(matches!(r, Err(GeoError::NoActiveRound)));
    let score = s.score();
    assert_eq!((score.total, score.max), (0, 0));
    assert_eq!(s.state(), GameState::NotStarted);
}

#[test]
fn test_no_active_round_guard_after_completion() {
    let mut s = QuizSession::new(catalog_of(2));
    s.start(2).expect("start with a valid round size");
    for _ in 0..2 {
        s.submit_guess(&far_guess()).expect("round open");
        s.advance_round();
    }
    assert_eq!(s.state(), GameState::SessionComplete);
    let before = s.score();
    let r = s.submit_guess(&far_guess());
    assert!(matches!(r, Err(GeoError::NoActiveRound)));
    let after = s.score();
    assert_eq!((before.total, before.max), (after.total, after.max));
    assert_eq!(s.state(), GameState::SessionComplete);
}

#[test]
fn test_no_active_round_guard_between_rounds() {
    let mut s = QuizSession::new(catalog_of(3));
    s.start(3).expect("start with a valid round size");
    s.submit_guess(&far_guess()).expect("round open");
    assert_eq!(s.state(), GameState::RoundComplete);
    let before = s.score();
    let r = s.submit_guess(&far_guess());
    assert!(matches!(r, Err(GeoError::NoActiveRound)));
    let after = s.score();
    assert_eq!((before.total, before.max), (after.total, after.max));
}

#[test]
fn test_sampling_without_replacement() {
    // Play a full ten-round quiz over twelve cities and record every target:
    // all ten must be distinct members of the catalog.
    let n = 12;
    let catalog = catalog_of(n);
    let mut names: Vec<String> = Vec::new();
    let mut s = QuizSession::new(catalog_of(n));
    s.start(10).expect("start with a valid round size");
    let mut rounds = 0;
    while s.state() == GameState::InRound {
        let target = s.current_target().expect("a round is open");
        names.push(target.name.clone());
        s.submit_guess(&far_guess()).expect("round open");
        s.advance_round();
        rounds += 1;
    }
    assert_eq!(rounds, 10);
    assert_eq!(names.len(), 10);
    for i in 0..names.len() {
        for j in 0..i {
            assert_ne!(names[i], names[j], "a city was drawn twice");
        }
        let mut found = false;
        for k in 0..catalog.len() {
            if catalog.get(k).name == names[i] {
                found = true;
            }
        }
        assert!(found, "drawn city {} is not in the catalog", names[i]);
    }
}

#[test]
fn test_round_size_clamped_to_catalog() {
    let mut s = QuizSession::new(catalog_of(5));
    s.start(99).expect("oversized round size is clamped");
    let mut rounds = 0;
    while s.state() == GameState::InRound {
        s.submit_guess(&far_guess()).expect("round open");
        s.advance_round();
        rounds += 1;
    }
    assert_eq!(rounds, 5);
    assert_eq!(s.state(), GameState::SessionComplete);
    assert_eq!(s.score().max, 5 * MAX_POINTS);
}

#[test]
fn test_restart_resets_score() {
    let mut s = QuizSession::new(catalog_of(4));
    s.start(2).expect("start");
    s.submit_guess(&far_guess()).expect("round open");
    s.advance_round();
    s.submit_guess(&far_guess()).expect("round open");
    s.advance_round();
    assert_eq!(s.state(), GameState::SessionComplete);
    assert_eq!(s.score().max, 2 * MAX_POINTS);

    s.start(3).expect("a fresh quiz can begin");
    assert_eq!(s.state(), GameState::InRound);
    let score = s.score();
    assert_eq!((score.total, score.max), (0, 0));
}

#[test]
fn test_name_guess_scores_through_session() {
    let mut s = QuizSession::new(catalog_of(3));
    s.start(1).expect("start");
    let name = s.current_target().expect("a round is open").name.clone();
    let typed = format!("  {} ", name.to_uppercase());
    let pts = s
        .submit_guess(&GuessType::Name(typed))
        .expect("round open");
    assert_eq!(pts, MAX_POINTS);
}
