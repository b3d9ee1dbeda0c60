use duel_game::scoring::{base_score, calculate_score, circular_distance, generate_objectives, Score};

fn value(score: Score) -> f64 {
    score.numerator as f64 / score.denominator as f64
}

#[test]
fn test_circular_distance_same() {
    assert_eq!(circular_distance(50, 50), 0);
}

#[test]
fn test_circular_distance_direct() {
    assert_eq!(circular_distance(30, 40), 10);
}

#[test]
fn test_circular_distance_wrap() {
    assert_eq!(circular_distance(95, 15), 20);
}

#[test]
fn test_circular_distance_symmetric() {
    assert_eq!(circular_distance(15, 95), circular_distance(95, 15));
}

#[test]
fn test_score_exact() {
    let score = value(calculate_score(0, 50, 0));
    assert!((score - 150.0).abs() < f64::EPSILON);
}

#[test]
fn test_score_close() {
    let score = value(calculate_score(3, 50, 0));
    assert!((score - 130.0).abs() < f64::EPSILON);
}

#[test]
fn test_score_medium() {
    let score = value(calculate_score(8, 50, 0));
    assert!((score - 110.0).abs() < f64::EPSILON);
}

#[test]
fn test_score_far() {
    let score = value(calculate_score(15, 50, 0));
    assert!((score - 90.0).abs() < f64::EPSILON);
}

#[test]
fn test_score_very_far() {
    let score = value(calculate_score(30, 50, 0));
    assert!((score - 70.0).abs() < f64::EPSILON);
}

#[test]
fn test_score_miss_range() {
    let score = value(calculate_score(45, 50, 0));
    assert!((score - 50.0).abs() < f64::EPSILON);
}

#[test]
fn test_score_with_miss() {
    let score = value(calculate_score(0, 50, 1));
    assert!((score - 75.0).abs() < f64::EPSILON);
}

#[test]
fn test_score_example_subject() {
    let diff = circular_distance(50, 36);
    assert_eq!(diff, 14);
    let score = value(calculate_score(diff, 50, 1));
    assert!((score - 45.0).abs() < f64::EPSILON);
}

#[test]
fn test_score_example_82_80() {
    let diff = circular_distance(82, 80);
    assert_eq!(diff, 2);
    let score = value(calculate_score(diff, 50, 0));
    assert!((score - 130.0).abs() < f64::EPSILON);
}

#[test]
fn test_generate_objectives_count() {
    let objectives = generate_objectives(5).unwrap();
    assert_eq!(objectives.len(), 5);
    for &obj in &objectives {
        assert!(obj <= 100);
    }
}

#[test]
fn test_generate_objectives_zero() {
    assert!(generate_objectives(0).is_err());
}

#[test]
fn objectives_error_message() {
    assert_eq!(
        generate_objectives(0).unwrap_err(),
        "Le nombre d'objectifs doit être supérieur à 0."
    );
}

#[test]
fn many_objectives_stay_in_range() {
    let objectives = generate_objectives(500).unwrap();
    assert_eq!(objectives.len(), 500);
    assert!(objectives.iter().all(|&o| o <= 100));
}

#[test]
fn base_score_scale_edges() {
    let expected = [
        (0, 100),
        (1, 80),
        (5, 80),
        (6, 60),
        (10, 60),
        (11, 40),
        (20, 40),
        (21, 20),
        (40, 20),
        (41, 0),
        (50, 0),
        (u32::MAX, 0),
    ];
    for (difference, base) in expected {
        assert_eq!(base_score(difference), base);
    }
}

#[test]
fn score_fraction_parts() {
    let score = calculate_score(14, -60, 3);
    assert_eq!(score, Score { numerator: -20, denominator: 4 });
    let big = calculate_score(0, i32::MAX, u32::MAX);
    assert_eq!(big.numerator, 100 + i32::MAX as i64);
    assert_eq!(big.denominator, u32::MAX as u64 + 1);
}

#[test]
fn circular_distance_extremes() {
    assert_eq!(circular_distance(100, 0), 0);
    assert_eq!(circular_distance(0, 50), 50);
    assert_eq!(circular_distance(0, 51), 49);
    assert_eq!(circular_distance(99, 0), 1);
}

#[test]
fn objectives_are_not_all_the_same() {
    let objectives = generate_objectives(500).unwrap();
    let first = objectives[0];
    assert!(objectives.iter().any(|&o| o != first));
}
