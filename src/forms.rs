use vstd::prelude::*;
use vstd::string::*;
use crate::checks::{is_uuid_v4, regex_verdict, UUID_V4_PATTERN};
use crate::ids::{parsed_uuid, Token};
use crate::requests::{
    parse_gravity, parse_i32, parse_score, parse_solved, parsed_i32, within_limit, MAX_DESCRIPTION_LEN,
    MAX_LONG_TEXT_LEN, MAX_NAME_LEN,
};

verus! {

/// Why a request to change the records is refused.
#[derive(Debug, Clone, Copy, PartialEq, Eq, Structural)]
pub enum Rejection {
    MissingArgs,
    NameTooLong,
    DescriptionTooLong,
    OwnerTooLong,
    ImpactsTooLong,
    FieldTooLong,
    FieldEmpty,
    InvalidUuid,
    InvalidLikelihood,
    InvalidReputational,
    InvalidOperational,
    InvalidLegalCompliance,
    InvalidFinancial,
    InvalidSolved,
    SourceNotValid,
    MissionIdNotValid,
    VmIdNotValid,
    AssetIdNotValid,
    EventIdNotValid,
    GapsIdNotValid,
    BusinessValueIdNotValid,
    GravityNotANumber,
    GravityNotValid,
    RefTypeTooLong,
    RefNameTooLong,
    StateNotValid,
    GapTooLong,
    GapWhyTooLong,
    GapCounterTooLong,
    RiskNotFound,
    ScenarioNotFound,
    MissionNotFound,
    VmNotFound,
    BusinessValueNotFound,
}

/// The status text of each rejection.
pub open spec fn status_text(r: Rejection) -> Seq<char> {
    match r {
        Rejection::MissingArgs => "missing_args"@,
        Rejection::NameTooLong => "name_too_long"@,
        Rejection::DescriptionTooLong => "description_too_long"@,
        Rejection::OwnerTooLong => "owner_too_long"@,
        Rejection::ImpactsTooLong => "impacts_too_long"@,
        Rejection::FieldTooLong => "field_too_long"@,
        Rejection::FieldEmpty => "field_empty"@,
        Rejection::InvalidUuid => "invalid_uuid"@,
        Rejection::InvalidLikelihood => "invalid_likelihood"@,
        Rejection::InvalidReputational => "invalid_reputational"@,
        Rejection::InvalidOperational => "invalid_operational"@,
        Rejection::InvalidLegalCompliance => "invalid_legal_compliance"@,
        Rejection::InvalidFinancial => "invalid_financial"@,
        Rejection::InvalidSolved => "invalid_solved"@,
        Rejection::SourceNotValid => "source_not_valid"@,
        Rejection::MissionIdNotValid => "mission_id_not_valid"@,
        Rejection::VmIdNotValid => "vm_id_not_valid"@,
        Rejection::AssetIdNotValid => "asset_id_not_valid"@,
        Rejection::EventIdNotValid => "event_id_not_valid"@,
        Rejection::GapsIdNotValid => "gaps_id_not_valid"@,
        Rejection::BusinessValueIdNotValid => "m_bv_not_valid"@,
        Rejection::GravityNotANumber => "m_gravity_not_valid"@,
        Rejection::GravityNotValid => "gravity_not_valid"@,
        Rejection::RefTypeTooLong => "g_ref_type_too_long"@,
        Rejection::RefNameTooLong => "g_ref_name_too_long"@,
        Rejection::StateNotValid => "g_state_not_valid"@,
        Rejection::GapTooLong => "g_gap_too_long"@,
        Rejection::GapWhyTooLong => "g_gap_why_too_long"@,
        Rejection::GapCounterTooLong => "g_gap_counter_too_long"@,
        Rejection::RiskNotFound => "risk_not_found"@,
        Rejection::ScenarioNotFound => "scenario_not_found"@,
        Rejection::MissionNotFound => "mission_not_found"@,
        Rejection::VmNotFound => "vm_not_found"@,
        Rejection::BusinessValueNotFound => "business_value_not_found"@,
    }
}

impl Rejection {
    /// The status text that the web surface reports.
    pub fn status(&self) -> (r: &'static str)
        ensures
            r@ == status_text(*self),
    {
        match self {
            Rejection::MissingArgs => "missing_args",
            Rejection::NameTooLong => "name_too_long",
            Rejection::DescriptionTooLong => "description_too_long",
            Rejection::OwnerTooLong => "owner_too_long",
            Rejection::ImpactsTooLong => "impacts_too_long",
            Rejection::FieldTooLong => "field_too_long",
            Rejection::FieldEmpty => "field_empty",
            Rejection::InvalidUuid => "invalid_uuid",
            Rejection::InvalidLikelihood => "invalid_likelihood",
            Rejection::InvalidReputational => "invalid_reputational",
            Rejection::InvalidOperational => "invalid_operational",
            Rejection::InvalidLegalCompliance => "invalid_legal_compliance",
            Rejection::InvalidFinancial => "invalid_financial",
            Rejection::InvalidSolved => "invalid_solved",
            Rejection::SourceNotValid => "source_not_valid",
            Rejection::MissionIdNotValid => "mission_id_not_valid",
            Rejection::VmIdNotValid => "vm_id_not_valid",
            Rejection::AssetIdNotValid => "asset_id_not_valid",
            Rejection::EventIdNotValid => "event_id_not_valid",
            Rejection::GapsIdNotValid => "gaps_id_not_valid",
            Rejection::BusinessValueIdNotValid => "m_bv_not_valid",
            Rejection::GravityNotANumber => "m_gravity_not_valid",
            Rejection::GravityNotValid => "gravity_not_valid",
            Rejection::RefTypeTooLong => "g_ref_type_too_long",
            Rejection::RefNameTooLong => "g_ref_name_too_long",
            Rejection::StateNotValid => "g_state_not_valid",
            Rejection::GapTooLong => "g_gap_too_long",
            Rejection::GapWhyTooLong => "g_gap_why_too_long",
            Rejection::GapCounterTooLong => "g_gap_counter_too_long",
            Rejection::RiskNotFound => "risk_not_found",
            Rejection::ScenarioNotFound => "scenario_not_found",
            Rejection::MissionNotFound => "mission_not_found",
            Rejection::VmNotFound => "vm_not_found",
            Rejection::BusinessValueNotFound => "business_value_not_found",
        }
    }
}

/// The five scores of a scenario, each from 1 to 6.
#[derive(Debug, Clone, Copy, PartialEq, Eq, Structural)]
pub struct ScenarioScores {
    pub likelihood: i32,
    pub reputation: i32,
    pub operational: i32,
    pub legal_compliance: i32,
    pub financial: i32,
}

pub open spec fn score_of(s: Seq<char>) -> Option<i32> {
    match parsed_i32(s) {
        Some(v) => if 1 <= v <= 6 { Some(v) } else { None },
        None => None,
    }
}

pub open spec fn int_or_zero(s: Seq<char>) -> i32 {
    match parsed_i32(s) {
        Some(v) => v,
        None => 0,
    }
}

/// A name, title or owner: at most 255 bytes.
pub fn check_name(name: &str) -> (r: Result<(), Rejection>)
    ensures
        r == (if name.len() > 255 { Err(Rejection::NameTooLong) } else { Ok::<(), Rejection>(()) }),
{
    if !within_limit(name, MAX_NAME_LEN) {
        return Err(Rejection::NameTooLong);
    }
    Ok(())
}

/// The text of a version-4 token.
pub fn check_uuid_v4(text: &str) -> (r: Result<(), Rejection>)
    ensures
        r == (if regex_verdict(UUID_V4_PATTERN@, text@) == Some(true) {
            Ok::<(), Rejection>(())
        } else {
            Err(Rejection::InvalidUuid)
        }),
{
    if is_uuid_v4(text) { Ok(()) } else { Err(Rejection::InvalidUuid) }
}

/// The text of any token.
pub fn check_token(text: &str) -> (r: Result<Token, Rejection>)
    ensures
        r == match parsed_uuid(text@) {
            Some(v) => Ok(Token { value: v }),
            None => Err::<Token, Rejection>(Rejection::InvalidUuid),
        },
{
    match Token::parse(text) {
        Some(t) => Ok(t),
        None => Err(Rejection::InvalidUuid),
    }
}

/// A record number; the given rejection when the text is not one.
pub fn check_id(text: &str, otherwise: Rejection) -> (r: Result<i32, Rejection>)
    ensures
        r == match parsed_i32(text@) {
            Some(v) => Ok(v),
            None => Err::<i32, Rejection>(otherwise),
        },
{
    match parse_i32(text) {
        Some(v) => Ok(v),
        None => Err(otherwise),
    }
}

/// A number, or 0 when the text is not one.
pub fn number_or_zero(text: &str) -> (r: i32)
    ensures
        r == int_or_zero(text@),
{
    match parse_i32(text) {
        Some(v) => v,
        None => 0,
    }
}

/// The five scores of a scenario, checked in this order: likelihood,
/// reputational, operational, legal, financial.
pub fn check_scores(
    likelihood: &str,
    reputational: &str,
    operational: &str,
    legal_compliance: &str,
    financial: &str,
) -> (r: Result<ScenarioScores, Rejection>)
    ensures
        r == (if score_of(likelihood@) is None {
            Err(Rejection::InvalidLikelihood)
        } else if score_of(reputational@) is None {
            Err(Rejection::InvalidReputational)
        } else if score_of(operational@) is None {
            Err(Rejection::InvalidOperational)
        } else if score_of(legal_compliance@) is None {
            Err(Rejection::InvalidLegalCompliance)
        } else if score_of(financial@) is None {
            Err(Rejection::InvalidFinancial)
        } else {
            Ok(
                ScenarioScores {
                    likelihood: score_of(likelihood@)->0,
                    reputation: score_of(reputational@)->0,
                    operational: score_of(operational@)->0,
                    legal_compliance: score_of(legal_compliance@)->0,
                    financial: score_of(financial@)->0,
                },
            )
        }),
{
    let l = match parse_score(likelihood) {
        Some(v) => v,
        None => return Err(Rejection::InvalidLikelihood),
    };
    let rep = match parse_score(reputational) {
        Some(v) => v,
        None => return Err(Rejection::InvalidReputational),
    };
    let o = match parse_score(operational) {
        Some(v) => v,
        None => return Err(Rejection::InvalidOperational),
    };
    let lc = match parse_score(legal_compliance) {
        Some(v) => v,
        None => return Err(Rejection::InvalidLegalCompliance),
    };
    let f = match parse_score(financial) {
        Some(v) => v,
        None => return Err(Rejection::InvalidFinancial),
    };
    Ok(ScenarioScores { likelihood: l, reputation: rep, operational: o, legal_compliance: lc, financial: f })
}

/// An edit of a countermeasure: the title, then the token, then how far it is
/// solved (a text that is no number counts as 0), from 0 to 100.
pub fn check_countermeasure_update(title: &str, ctm_uuid: &str, solved: &str) -> (r: Result<i32, Rejection>)
    ensures
        r == (if title.len() > 255 {
            Err(Rejection::NameTooLong)
        } else if regex_verdict(UUID_V4_PATTERN@, ctm_uuid@) != Some(true) {
            Err(Rejection::InvalidUuid)
        } else if !(0 <= int_or_zero(solved@) <= 100) {
            Err(Rejection::InvalidSolved)
        } else {
            Ok(int_or_zero(solved@))
        }),
{
    check_name(title)?;
    check_uuid_v4(ctm_uuid)?;
    match parse_solved(solved) {
        Some(v) => Ok(v),
        None => Err(Rejection::InvalidSolved),
    }
}

/// A new business value: name, description, nature, owner, then the mission's
/// number, which is returned.
pub fn check_business_value(name: &str, description: &str, source: &str, owner: &str, mission_id: &str) -> (r:
    Result<i32, Rejection>)
    ensures
        r == (if name.len() > 255 {
            Err(Rejection::NameTooLong)
        } else if description.len() > 1000 {
            Err(Rejection::DescriptionTooLong)
        } else if !(source@ == "processus"@ || source@ == "information"@) {
            Err(Rejection::SourceNotValid)
        } else if owner.len() > 255 {
            Err(Rejection::OwnerTooLong)
        } else {
            match parsed_i32(mission_id@) {
                Some(v) => Ok(v),
                None => Err(Rejection::MissionIdNotValid),
            }
        }),
{
    check_name(name)?;
    if !within_limit(description, MAX_DESCRIPTION_LEN) {
        return Err(Rejection::DescriptionTooLong);
    }
    if !crate::requests::is_value_nature(source) {
        return Err(Rejection::SourceNotValid);
    }
    if !within_limit(owner, MAX_NAME_LEN) {
        return Err(Rejection::OwnerTooLong);
    }
    check_id(mission_id, Rejection::MissionIdNotValid)
}

/// A new asset: name, description, owner, then the business value's number,
/// which is returned.
pub fn check_asset(name: &str, description: &str, owner: &str, vm_id: &str) -> (r: Result<i32, Rejection>)
    ensures
        r == (if name.len() > 255 {
            Err(Rejection::NameTooLong)
        } else if description.len() > 1000 {
            Err(Rejection::DescriptionTooLong)
        } else if owner.len() > 255 {
            Err(Rejection::OwnerTooLong)
        } else {
            match parsed_i32(vm_id@) {
                Some(v) => Ok(v),
                None => Err(Rejection::VmIdNotValid),
            }
        }),
{
    check_name(name)?;
    if !within_limit(description, MAX_DESCRIPTION_LEN) {
        return Err(Rejection::DescriptionTooLong);
    }
    if !within_limit(owner, MAX_NAME_LEN) {
        return Err(Rejection::OwnerTooLong);
    }
    check_id(vm_id, Rejection::VmIdNotValid)
}

/// A new feared event: name, impacts, the business value's number, then the
/// gravity from 1 to 4; returns the number and the gravity.
pub fn check_feared_event(name: &str, impacts: &str, bv: &str, gravity: &str) -> (r: Result<(i32, i32), Rejection>)
    ensures
        r == (if name.len() > 255 {
            Err(Rejection::NameTooLong)
        } else if impacts.len() > 2000 {
            Err(Rejection::ImpactsTooLong)
        } else if parsed_i32(bv@) is None {
            Err(Rejection::BusinessValueIdNotValid)
        } else if parsed_i32(gravity@) is None {
            Err(Rejection::GravityNotANumber)
        } else if !(1 <= parsed_i32(gravity@)->0 <= 4) {
            Err(Rejection::GravityNotValid)
        } else {
            Ok((parsed_i32(bv@)->0, parsed_i32(gravity@)->0))
        }),
{
    check_name(name)?;
    if !within_limit(impacts, MAX_LONG_TEXT_LEN) {
        return Err(Rejection::ImpactsTooLong);
    }
    let b = check_id(bv, Rejection::BusinessValueIdNotValid)?;
    check_id(gravity, Rejection::GravityNotANumber)?;
    match parse_gravity(gravity) {
        Some(g) => Ok((b, g)),
        None => Err(Rejection::GravityNotValid),
    }
}

/// A new gap analysis: the two referential fields, the application state (a
/// number, returned), then the three long texts.
pub fn check_gap(
    ref_type: &str,
    ref_name: &str,
    state: &str,
    gap: &str,
    justification: &str,
    measures: &str,
) -> (r: Result<i32, Rejection>)
    ensures
        r == (if ref_type.len() > 255 {
            Err(Rejection::RefTypeTooLong)
        } else if ref_name.len() > 255 {
            Err(Rejection::RefNameTooLong)
        } else if parsed_i32(state@) is None {
            Err(Rejection::StateNotValid)
        } else if gap.len() > 2000 {
            Err(Rejection::GapTooLong)
        } else if justification.len() > 2000 {
            Err(Rejection::GapWhyTooLong)
        } else if measures.len() > 2000 {
            Err(Rejection::GapCounterTooLong)
        } else {
            Ok(parsed_i32(state@)->0)
        }),
{
    if !within_limit(ref_type, MAX_NAME_LEN) {
        return Err(Rejection::RefTypeTooLong);
    }
    if !within_limit(ref_name, MAX_NAME_LEN) {
        return Err(Rejection::RefNameTooLong);
    }
    let s = check_id(state, Rejection::StateNotValid)?;
    if !within_limit(gap, MAX_LONG_TEXT_LEN) {
        return Err(Rejection::GapTooLong);
    }
    if !within_limit(justification, MAX_LONG_TEXT_LEN) {
        return Err(Rejection::GapWhyTooLong);
    }
    if !within_limit(measures, MAX_LONG_TEXT_LEN) {
        return Err(Rejection::GapCounterTooLong);
    }
    Ok(s)
}

/// The numbers and flag of a new risk source.
#[derive(Debug, Clone, Copy, PartialEq, Eq, Structural)]
pub struct RiskSourceRating {
    pub pertinence_sr_ov: i32,
    pub priorite: i32,
    pub retenu: bool,
}

/// A new risk source: every text present and within its limit (255 bytes for
/// the source and the objectives, 1000 for the others); numbers that are not
/// numbers count as 0; kept only when the flag reads "true".
pub fn check_risk_source(
    source_risque: &str,
    objectifs_vises: &str,
    motivation: &str,
    ressources: &str,
    pertinence_sr_ov: &str,
    priorite: &str,
    retenu: &str,
    justification: &str,
) -> (r: Result<RiskSourceRating, Rejection>)
    ensures
        r == (if source_risque.len() > 255 || objectifs_vises.len() > 255 || motivation.len() > 1000
            || ressources.len() > 1000 || justification.len() > 1000 {
            Err(Rejection::FieldTooLong)
        } else if source_risque@.len() == 0 || objectifs_vises@.len() == 0 || motivation@.len() == 0
            || ressources@.len() == 0 || justification@.len() == 0 {
            Err(Rejection::FieldEmpty)
        } else {
            Ok(
                RiskSourceRating {
                    pertinence_sr_ov: int_or_zero(pertinence_sr_ov@),
                    priorite: int_or_zero(priorite@),
                    retenu: retenu@ == "true"@,
                },
            )
        }),
{
    let pert = number_or_zero(pertinence_sr_ov);
    let prio = number_or_zero(priorite);
    let kept = String::from_str(retenu) == String::from_str("true");
    if !within_limit(source_risque, MAX_NAME_LEN) || !within_limit(objectifs_vises, MAX_NAME_LEN) || !within_limit(
        motivation,
        MAX_DESCRIPTION_LEN,
    ) || !within_limit(ressources, MAX_DESCRIPTION_LEN) || !within_limit(justification, MAX_DESCRIPTION_LEN) {
        return Err(Rejection::FieldTooLong);
    }
    if source_risque.is_empty() || objectifs_vises.is_empty() || motivation.is_empty() || ressources.is_empty()
        || justification.is_empty() {
        return Err(Rejection::FieldEmpty);
    }
    Ok(RiskSourceRating { pertinence_sr_ov: pert, priorite: prio, retenu: kept })
}

/// The four scores of a stakeholder.
#[derive(Debug, Clone, Copy, PartialEq, Eq, Structural)]
pub struct StakeholderScores {
    pub dependance: i32,
    pub penetration: i32,
    pub maturite_ssi: i32,
    pub confiance: i32,
}

/// A new stakeholder: category and name present and at most 255 bytes; scores
/// that are not numbers count as 0.
pub fn check_stakeholder(
    category: &str,
    stakeholder_name: &str,
    dependance: &str,
    penetration: &str,
    maturite_ssi: &str,
    confiance: &str,
) -> (r: Result<StakeholderScores, Rejection>)
    ensures
        r == (if category.len() > 255 || stakeholder_name.len() > 255 {
            Err(Rejection::FieldTooLong)
        } else if category@.len() == 0 || stakeholder_name@.len() == 0 {
            Err(Rejection::FieldEmpty)
        } else {
            Ok(
                StakeholderScores {
                    dependance: int_or_zero(dependance@),
                    penetration: int_or_zero(penetration@),
                    maturite_ssi: int_or_zero(maturite_ssi@),
                    confiance: int_or_zero(confiance@),
                },
            )
        }),
{
    let scores = StakeholderScores {
        dependance: number_or_zero(dependance),
        penetration: number_or_zero(penetration),
        maturite_ssi: number_or_zero(maturite_ssi),
        confiance: number_or_zero(confiance),
    };
    if !within_limit(category, MAX_NAME_LEN) || !within_limit(stakeholder_name, MAX_NAME_LEN) {
        return Err(Rejection::FieldTooLong);
    }
    if category.is_empty() || stakeholder_name.is_empty() {
        return Err(Rejection::FieldEmpty);
    }
    Ok(scores)
}

} // verus!
