use matryriska::calculate_risk;
use matryriska::rating::{rating_label, risk_rating, RiskRating};

#[test]
fn matrix_values() {
    assert_eq!(calculate_risk(1, 1, 1, 1, 1), "LOW");
    assert_eq!(calculate_risk(1, 3, 1, 2, 1), "LOW");
    assert_eq!(calculate_risk(1, 4, 1, 1, 1), "MEDIUM");
    assert_eq!(calculate_risk(1, 1, 1, 1, 6), "HIGH");
    assert_eq!(calculate_risk(2, 6, 1, 1, 1), "CRITICAL");
    assert_eq!(calculate_risk(3, 1, 5, 1, 1), "HIGH");
    assert_eq!(calculate_risk(4, 1, 1, 3, 1), "MEDIUM");
    assert_eq!(calculate_risk(5, 2, 2, 2, 2), "MEDIUM");
    assert_eq!(calculate_risk(5, 1, 1, 1, 4), "CRITICAL");
    assert_eq!(calculate_risk(6, 1, 1, 1, 1), "MEDIUM");
    assert_eq!(calculate_risk(6, 2, 1, 1, 1), "HIGH");
    assert_eq!(calculate_risk(6, 5, 1, 1, 1), "CRITICAL");
    assert_eq!(calculate_risk(6, 6, 6, 6, 6), "EXTREME");
}

#[test]
fn not_rated_inputs() {
    assert_eq!(calculate_risk(0, 3, 3, 3, 3), "N/A");
    assert_eq!(calculate_risk(3, 0, 0, 0, 0), "N/A");
    assert_eq!(calculate_risk(-1, 3, 3, 3, 3), "N/A");
    assert_eq!(calculate_risk(-2, -1, -3, -1, -1), "N/A");
    assert_eq!(calculate_risk(7, 1, 1, 1, 1), "N/A");
    assert_eq!(calculate_risk(1, 7, 1, 1, 1), "N/A");
    assert_eq!(calculate_risk(i32::MAX, i32::MAX, 0, 0, 0), "N/A");
    assert_eq!(calculate_risk(i32::MIN, i32::MIN, 0, 0, 0), "N/A");
}

#[test]
fn every_cell_of_the_matrix_is_rated() {
    for l in 1..=6 {
        for w in 1..=6 {
            assert_ne!(calculate_risk(l, w, 1, 1, 1), "N/A");
            assert_eq!(rating_label(risk_rating(l, 1, w, 1, 1)), calculate_risk(l, w, 1, 1, 1));
        }
    }
    assert_eq!(risk_rating(2, 3, 4, 1, 1), RiskRating::Medium);
}
