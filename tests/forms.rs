use matryriska::forms::{
    check_asset, check_business_value, check_countermeasure_update, check_feared_event, check_gap, check_id,
    check_name, check_risk_source, check_scores, check_stakeholder, check_token, check_uuid_v4, number_or_zero,
    Rejection, ScenarioScores,
};

const UUID: &str = "550e8400-e29b-41d4-a716-446655440000";

#[test]
fn names_and_tokens() {
    assert_eq!(check_name(&"n".repeat(255)), Ok(()));
    assert_eq!(check_name(&"n".repeat(256)), Err(Rejection::NameTooLong));
    assert_eq!(check_uuid_v4(UUID), Ok(()));
    assert_eq!(check_uuid_v4("nope"), Err(Rejection::InvalidUuid));
    assert_eq!(check_token(UUID).map(|t| t.value), Ok(0x550e8400_e29b_41d4_a716_446655440000));
    assert_eq!(check_token("nope"), Err(Rejection::InvalidUuid));
    assert_eq!(check_id("12", Rejection::AssetIdNotValid), Ok(12));
    assert_eq!(check_id("x", Rejection::AssetIdNotValid), Err(Rejection::AssetIdNotValid));
    assert_eq!(number_or_zero("x"), 0);
    assert_eq!(number_or_zero("-3"), -3);
}

#[test]
fn scores_in_order() {
    assert_eq!(
        check_scores("1", "2", "3", "4", "6"),
        Ok(ScenarioScores { likelihood: 1, reputation: 2, operational: 3, legal_compliance: 4, financial: 6 })
    );
    assert_eq!(check_scores("0", "9", "1", "1", "1"), Err(Rejection::InvalidLikelihood));
    assert_eq!(check_scores("1", "9", "x", "1", "1"), Err(Rejection::InvalidReputational));
    assert_eq!(check_scores("1", "1", "x", "1", "1"), Err(Rejection::InvalidOperational));
    assert_eq!(check_scores("1", "1", "1", "7", "1"), Err(Rejection::InvalidLegalCompliance));
    assert_eq!(check_scores("1", "1", "1", "1", ""), Err(Rejection::InvalidFinancial));
}

#[test]
fn countermeasure_edit() {
    assert_eq!(check_countermeasure_update("t", UUID, "40"), Ok(40));
    assert_eq!(check_countermeasure_update("t", UUID, "abc"), Ok(0));
    assert_eq!(check_countermeasure_update("t", UUID, "101"), Err(Rejection::InvalidSolved));
    assert_eq!(check_countermeasure_update("t", "bad", "101"), Err(Rejection::InvalidUuid));
    assert_eq!(check_countermeasure_update(&"t".repeat(300), "bad", "101"), Err(Rejection::NameTooLong));
}

#[test]
fn business_values_and_assets() {
    assert_eq!(check_business_value("n", "d", "processus", "o", "3"), Ok(3));
    assert_eq!(check_business_value("n", "d", "information", "o", "3"), Ok(3));
    assert_eq!(check_business_value("n", &"d".repeat(1001), "x", "o", "3"), Err(Rejection::DescriptionTooLong));
    assert_eq!(check_business_value("n", "d", "other", "o", "3"), Err(Rejection::SourceNotValid));
    assert_eq!(check_business_value("n", "d", "processus", &"o".repeat(256), "3"), Err(Rejection::OwnerTooLong));
    assert_eq!(check_business_value("n", "d", "processus", "o", "three"), Err(Rejection::MissionIdNotValid));
    assert_eq!(check_asset("n", "d", "o", "5"), Ok(5));
    assert_eq!(check_asset("n", "d", "o", "five"), Err(Rejection::VmIdNotValid));
    assert_eq!(check_asset(&"n".repeat(256), "d", "o", "5"), Err(Rejection::NameTooLong));
}

#[test]
fn feared_events_and_gaps() {
    assert_eq!(check_feared_event("n", "i", "2", "4"), Ok((2, 4)));
    assert_eq!(check_feared_event("n", &"i".repeat(2001), "2", "4"), Err(Rejection::ImpactsTooLong));
    assert_eq!(check_feared_event("n", "i", "b", "4"), Err(Rejection::BusinessValueIdNotValid));
    assert_eq!(check_feared_event("n", "i", "2", "g"), Err(Rejection::GravityNotANumber));
    assert_eq!(check_feared_event("n", "i", "2", "5"), Err(Rejection::GravityNotValid));
    assert_eq!(check_gap("t", "n", "50", "g", "w", "c"), Ok(50));
    assert_eq!(check_gap(&"t".repeat(256), "n", "50", "g", "w", "c"), Err(Rejection::RefTypeTooLong));
    assert_eq!(check_gap("t", &"n".repeat(256), "50", "g", "w", "c"), Err(Rejection::RefNameTooLong));
    assert_eq!(check_gap("t", "n", "x", "g", "w", "c"), Err(Rejection::StateNotValid));
    assert_eq!(check_gap("t", "n", "1", &"g".repeat(2001), "w", "c"), Err(Rejection::GapTooLong));
    assert_eq!(check_gap("t", "n", "1", "g", &"w".repeat(2001), "c"), Err(Rejection::GapWhyTooLong));
    assert_eq!(check_gap("t", "n", "1", "g", "w", &"c".repeat(2001)), Err(Rejection::GapCounterTooLong));
}

#[test]
fn risk_sources_and_stakeholders() {
    let ok = check_risk_source("s", "o", "m", "r", "3", "x", "true", "j").unwrap();
    assert_eq!((ok.pertinence_sr_ov, ok.priorite, ok.retenu), (3, 0, true));
    assert!(!check_risk_source("s", "o", "m", "r", "3", "1", "yes", "j").unwrap().retenu);
    assert_eq!(check_risk_source("", "o", "m", "r", "3", "1", "true", "j"), Err(Rejection::FieldEmpty));
    assert_eq!(check_risk_source("s", "o", &"m".repeat(1001), "r", "3", "1", "true", ""), Err(Rejection::FieldTooLong));
    let st = check_stakeholder("c", "n", "1", "2", "x", "4").unwrap();
    assert_eq!((st.dependance, st.penetration, st.maturite_ssi, st.confiance), (1, 2, 0, 4));
    assert_eq!(check_stakeholder("", "n", "1", "2", "3", "4"), Err(Rejection::FieldEmpty));
    assert_eq!(check_stakeholder(&"c".repeat(256), "", "1", "2", "3", "4"), Err(Rejection::FieldTooLong));
}

#[test]
fn status_texts() {
    assert_eq!(Rejection::MissingArgs.status(), "missing_args");
    assert_eq!(Rejection::GravityNotANumber.status(), "m_gravity_not_valid");
    assert_eq!(Rejection::BusinessValueNotFound.status(), "business_value_not_found");
}
