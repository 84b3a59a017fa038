use vstd::prelude::*;
use crate::ids::{parsed_uuid, Token};

verus! {

/// A risk row.
#[derive(Debug)]
pub struct Risk {
    pub risk_uuid: Token,
    pub risk_name: String,
    pub risk_description: String,
}

/// A scenario row; it refers to its risk.
#[derive(Debug)]
pub struct Scenario {
    pub scenario_uuid: Token,
    pub risk_uuid: Token,
    pub scenario_description: String,
    pub threat_description: String,
    pub add_note: String,
}

/// The rating row of a scenario: a likelihood and four impacts.
#[derive(Debug)]
pub struct ScenarioRisk {
    pub scenario_uuid: Token,
    pub likelihood: i32,
    pub reputation: i32,
    pub operational: i32,
    pub legal_compliance: i32,
    pub financial: i32,
}

/// A countermeasure row; it refers to its scenario.
#[derive(Debug)]
pub struct Countermeasure {
    pub ctm_uuid: Token,
    pub scenario_uuid: Token,
    pub title: String,
    pub description: String,
    pub solved: i32,
    pub solved_description: String,
}

/// A mission row.
#[derive(Debug)]
pub struct Mission {
    pub mission_id: i32,
    pub mission_name: String,
}

/// A business-value row; it refers to its mission.
#[derive(Debug)]
pub struct ValeurMetier {
    pub valeur_id: i32,
    pub mission_id: i32,
    pub valeur_name: String,
    pub valeur_nature: String,
    pub valeur_description: String,
    pub responsable: String,
}

/// An asset row; it refers to its business value.
#[derive(Debug)]
pub struct BienSupport {
    pub support_id: i32,
    pub valeur_id: i32,
    pub support_name: String,
    pub support_description: String,
    pub support_responsable: String,
}

/// A feared-event row; it refers to a business value.
#[derive(Debug)]
pub struct FearedEvent {
    pub event_id: i32,
    pub valeur_metier: i32,
    pub evenement_redoute: String,
    pub impact: String,
    pub gravite: i32,
}

/// A gap-analysis row.
#[derive(Debug)]
pub struct Gap {
    pub gap_id: i32,
    pub referential_type: String,
    pub referential_name: String,
    pub application_state: i32,
    pub gap: String,
    pub gap_justification: String,
    pub proposed_measures: String,
}

/// A risk-source row.
#[derive(Debug)]
pub struct C2RiskSources {
    pub risk_id: i32,
    pub source_risque: String,
    pub objectifs_vises: String,
    pub motivation: Option<String>,
    pub ressources: Option<String>,
    pub pertinence_sr_ov: Option<i32>,
    pub priorite: Option<i32>,
    pub retenu: bool,
    pub justification_exclusion_sr_ov: Option<String>,
}

/// A stakeholder row.
#[derive(Debug)]
pub struct C3Stakeholder {
    pub stakeholder_id: i32,
    pub category: String,
    pub stakeholder_name: String,
    pub dependance: i32,
    pub penetration: i32,
    pub maturite_ssi: i32,
    pub confiance: i32,
}

impl Risk {
    /// Decodes a risk row; `None` when the stored identifier is not a token.
    pub fn from_row(risk_uuid: &str, risk_name: String, risk_description: String) -> (r: Option<Risk>)
        ensures
            r == match parsed_uuid(risk_uuid@) {
                Some(v) => Some(Risk { risk_uuid: Token { value: v }, risk_name, risk_description }),
                None => None::<Risk>,
            },
    {
        match Token::parse(risk_uuid) {
            Some(t) => Some(Risk { risk_uuid: t, risk_name, risk_description }),
            None => None,
        }
    }
}

impl Scenario {
    /// Decodes a scenario row; `None` when either stored identifier is not a token.
    pub fn from_row(
        scenario_uuid: &str,
        risk_uuid: &str,
        scenario_description: String,
        threat_description: String,
        add_note: String,
    ) -> (r: Option<Scenario>)
        ensures
            r == match (parsed_uuid(scenario_uuid@), parsed_uuid(risk_uuid@)) {
                (Some(s), Some(k)) => Some(
                    Scenario {
                        scenario_uuid: Token { value: s },
                        risk_uuid: Token { value: k },
                        scenario_description,
                        threat_description,
                        add_note,
                    },
                ),
                _ => None::<Scenario>,
            },
    {
        match (Token::parse(scenario_uuid), Token::parse(risk_uuid)) {
            (Some(s), Some(k)) => Some(
                Scenario {
                    scenario_uuid: s,
                    risk_uuid: k,
                    scenario_description,
                    threat_description,
                    add_note,
                },
            ),
            _ => None,
        }
    }
}

impl ScenarioRisk {
    /// Decodes a rating row; `None` when the stored identifier is not a token.
    pub fn from_row(
        scenario_uuid: &str,
        likelihood: i32,
        reputation: i32,
        operational: i32,
        legal_compliance: i32,
        financial: i32,
    ) -> (r: Option<ScenarioRisk>)
        ensures
            r == match parsed_uuid(scenario_uuid@) {
                Some(v) => Some(
                    ScenarioRisk {
                        scenario_uuid: Token { value: v },
                        likelihood,
                        reputation,
                        operational,
                        legal_compliance,
                        financial,
                    },
                ),
                None => None::<ScenarioRisk>,
            },
    {
        match Token::parse(scenario_uuid) {
            Some(t) => Some(
                ScenarioRisk { scenario_uuid: t, likelihood, reputation, operational, legal_compliance, financial },
            ),
            None => None,
        }
    }
}

impl Countermeasure {
    /// Decodes a countermeasure row; `None` when either stored identifier is
    /// not a token.
    pub fn from_row(
        ctm_uuid: &str,
        scenario_uuid: &str,
        title: String,
        description: String,
        solved: i32,
        solved_description: String,
    ) -> (r: Option<Countermeasure>)
        ensures
            r == match (parsed_uuid(ctm_uuid@), parsed_uuid(scenario_uuid@)) {
                (Some(c), Some(s)) => Some(
                    Countermeasure {
                        ctm_uuid: Token { value: c },
                        scenario_uuid: Token { value: s },
                        title,
                        description,
                        solved,
                        solved_description,
                    },
                ),
                _ => None::<Countermeasure>,
            },
    {
        match (Token::parse(ctm_uuid), Token::parse(scenario_uuid)) {
            (Some(c), Some(s)) => Some(
                Countermeasure { ctm_uuid: c, scenario_uuid: s, title, description, solved, solved_description },
            ),
            _ => None,
        }
    }
}

} // verus!
