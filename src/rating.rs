use vstd::prelude::*;

verus! {

/// The grade given to a scenario from its likelihood and its worst impact.
#[derive(Debug, Clone, Copy, PartialEq, Eq, Structural)]
pub enum RiskRating {
    NotApplicable,
    Low,
    Medium,
    High,
    Critical,
    Extreme,
}

/// The largest of the four impact scores.
pub open spec fn max_impact(a: int, b: int, c: int, d: int) -> int {
    let ab = if a >= b { a } else { b };
    let abc = if ab >= c { ab } else { c };
    if abc >= d { abc } else { d }
}

/// The rating matrix: rows are likelihood 1..=6, columns the worst impact 1..=6.
/// A non-positive product of the two, or a pair outside the matrix, is not rated.
pub open spec fn rating_of(likelihood: int, worst: int) -> RiskRating {
    if likelihood * worst <= 0 {
        RiskRating::NotApplicable
    } else if (likelihood == 1 && 1 <= worst <= 3) || (likelihood == 2 && 1 <= worst <= 2)
        || (likelihood == 3 && 1 <= worst <= 2) || (likelihood == 4 && 1 <= worst <= 2)
        || (likelihood == 5 && worst == 1) {
        RiskRating::Low
    } else if (likelihood == 1 && 4 <= worst <= 5) || (likelihood == 2 && 3 <= worst <= 4)
        || (likelihood == 3 && worst == 3) || (likelihood == 4 && worst == 3)
        || (likelihood == 5 && worst == 2) || (likelihood == 6 && worst == 1) {
        RiskRating::Medium
    } else if (likelihood == 1 && worst == 6) || (likelihood == 2 && worst == 5)
        || (likelihood == 3 && 4 <= worst <= 5) || (likelihood == 4 && worst == 4)
        || (likelihood == 5 && worst == 3) || (likelihood == 6 && worst == 2) {
        RiskRating::High
    } else if (likelihood == 2 && worst == 6) || (likelihood == 3 && worst == 6)
        || (likelihood == 4 && 5 <= worst <= 6) || (likelihood == 5 && 4 <= worst <= 6)
        || (likelihood == 6 && 3 <= worst <= 5) {
        RiskRating::Critical
    } else if likelihood == 6 && worst == 6 {
        RiskRating::Extreme
    } else {
        RiskRating::NotApplicable
    }
}

/// The text shown for a rating.
pub open spec fn label_of(r: RiskRating) -> Seq<char> {
    match r {
        RiskRating::NotApplicable => "N/A"@,
        RiskRating::Low => "LOW"@,
        RiskRating::Medium => "MEDIUM"@,
        RiskRating::High => "HIGH"@,
        RiskRating::Critical => "CRITICAL"@,
        RiskRating::Extreme => "EXTREME"@,
    }
}

/// Rates a scenario from its likelihood and its reputational, operational,
/// legal and financial impacts (the worst impact counts).
pub fn risk_rating(likelihood: i32, reputation: i32, operational: i32, legal: i32, financial: i32)
    -> (r: RiskRating)
    ensures
        r == rating_of(
            likelihood as int,
            max_impact(reputation as int, operational as int, legal as int, financial as int),
        ),
{
    let ab = if reputation >= operational { reputation } else { operational };
    let abc = if ab >= legal { ab } else { legal };
    let worst = if abc >= financial { abc } else { financial };
    let e = likelihood as i64;
    let w = worst as i64;
    assert(-0x4000_0000_0000_0000 <= e * w <= 0x4000_0000_0000_0000) by (nonlinear_arith)
        requires
            i32::MIN <= e <= i32::MAX,
            i32::MIN <= w <= i32::MAX,
    ;
    if e * w <= 0 {
        return RiskRating::NotApplicable;
    }
    if (likelihood == 1 && 1 <= worst && worst <= 3) || (likelihood == 2 && 1 <= worst && worst <= 2)
        || (likelihood == 3 && 1 <= worst && worst <= 2) || (likelihood == 4 && 1 <= worst && worst <= 2)
        || (likelihood == 5 && worst == 1) {
        return RiskRating::Low;
    }
    if (likelihood == 1 && 4 <= worst && worst <= 5) || (likelihood == 2 && 3 <= worst && worst <= 4)
        || (likelihood == 3 && worst == 3) || (likelihood == 4 && worst == 3)
        || (likelihood == 5 && worst == 2) || (likelihood == 6 && worst == 1) {
        return RiskRating::Medium;
    }
    if (likelihood == 1 && worst == 6) || (likelihood == 2 && worst == 5)
        || (likelihood == 3 && 4 <= worst && worst <= 5) || (likelihood == 4 && worst == 4)
        || (likelihood == 5 && worst == 3) || (likelihood == 6 && worst == 2) {
        return RiskRating::High;
    }
    if (likelihood == 2 && worst == 6) || (likelihood == 3 && worst == 6)
        || (likelihood == 4 && 5 <= worst && worst <= 6) || (likelihood == 5 && 4 <= worst && worst <= 6)
        || (likelihood == 6 && 3 <= worst && worst <= 5) {
        return RiskRating::Critical;
    }
    if likelihood == 6 && worst == 6 {
        return RiskRating::Extreme;
    }
    RiskRating::NotApplicable
}

/// The text of a rating.
pub fn rating_label(r: RiskRating) -> (s: &'static str)
    ensures
        s@ == label_of(r),
{
    match r {
        RiskRating::NotApplicable => "N/A",
        RiskRating::Low => "LOW",
        RiskRating::Medium => "MEDIUM",
        RiskRating::High => "HIGH",
        RiskRating::Critical => "CRITICAL",
        RiskRating::Extreme => "EXTREME",
    }
}

/// The rating of a scenario as text: "N/A", "LOW", "MEDIUM", "HIGH", "CRITICAL"
/// or "EXTREME".
pub fn calculate_risk(e5: i32, f5: i32, g5: i32, h5: i32, i5: i32) -> (s: &'static str)
    ensures
        s@ == label_of(rating_of(e5 as int, max_impact(f5 as int, g5 as int, h5 as int, i5 as int))),
{
    rating_label(risk_rating(e5, f5, g5, h5, i5))
}

} // verus!
