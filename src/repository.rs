use vstd::prelude::*;
use vstd::string::*;
use crate::ids::{is_v4, uuid_text, Token};

verus! {

/// A value bound to a `?` placeholder of a statement.
#[derive(Debug)]
pub enum SqlValue {
    Text(String),
    Int(i32),
    Bool(bool),
}

pub enum ParamView {
    Text(Seq<char>),
    Int(i32),
    Bool(bool),
}

impl View for SqlValue {
    type V = ParamView;

    open spec fn view(&self) -> ParamView {
        match self {
            SqlValue::Text(s) => ParamView::Text(s@),
            SqlValue::Int(i) => ParamView::Int(*i),
            SqlValue::Bool(b) => ParamView::Bool(*b),
        }
    }
}

pub open spec fn params_view(p: Seq<SqlValue>) -> Seq<ParamView> {
    p.map_values(|v: SqlValue| v@)
}

/// A parameterized statement: fixed SQL text with `?` placeholders, and the
/// values bound to them in order. Values never become part of the text.
#[derive(Debug)]
pub struct Statement {
    pub sql: String,
    pub params: Vec<SqlValue>,
}

pub struct StatementView {
    pub sql: Seq<char>,
    pub params: Seq<ParamView>,
}

impl View for Statement {
    type V = StatementView;

    open spec fn view(&self) -> StatementView {
        StatementView { sql: self.sql@, params: params_view(self.params@) }
    }
}

pub const LIVENESS_PROBE: &'static str = "SELECT 1";
pub const SELECT_ALL_RISK: &'static str = "SELECT * FROM risk ORDER BY risk_name ASC";
pub const GET_RISK_DETAIL: &'static str = "SELECT * FROM risk WHERE risk_uuid = ? ORDER BY risk_name ASC";
pub const UPDATE_RISK: &'static str = "UPDATE risk SET risk_name = ?, risk_description = ? WHERE risk_uuid = ?";
pub const DELETE_RISK: &'static str = "DELETE FROM risk WHERE risk_uuid = ?";
pub const GET_ALL_SCENARIO_OF_RISK: &'static str = "SELECT * FROM scenario WHERE risk_uuid = ? ORDER BY scenario_description ASC";
pub const GET_SCENARIO_DETAIL: &'static str = "SELECT * FROM scenario WHERE scenario_uuid = ? ORDER BY scenario_description ASC";
pub const UPDATE_SCENARIO: &'static str = "UPDATE scenario SET scenario_description = ?, threat_description = ?, add_note = ? WHERE scenario_uuid = ?";
pub const DELETE_SCENARIO: &'static str = "DELETE FROM scenario WHERE scenario_uuid = ?";
pub const GET_SCENARIO_RISK: &'static str = "SELECT * FROM scenario_risk WHERE scenario_uuid = ? ORDER BY scenario_uuid ASC";
pub const CREATE_SCENARIO_RISK: &'static str = "INSERT INTO scenario_risk (scenario_uuid, likelihood, reputation, operational, legal_compliance, financial) VALUES (?, ?, ?, ?, ?, ?)";
pub const UPDATE_SCENARIO_RISK: &'static str = "UPDATE scenario_risk SET likelihood = ?, reputation = ?, operational = ?, legal_compliance = ?, financial = ? WHERE scenario_uuid = ?";
pub const DELETE_SCENARIO_RISK: &'static str = "DELETE FROM scenario_risk WHERE scenario_uuid = ?";
pub const GET_ALL_COUNTERMEASURE_OF_SC: &'static str = "SELECT * FROM countermeasure WHERE scenario_uuid = ? ORDER BY title ASC";
pub const GET_ALL_COUNTERMEASURE_FROM_RISK_UUID: &'static str = "SELECT * FROM countermeasure WHERE scenario_uuid IN (SELECT scenario_uuid FROM scenario WHERE risk_uuid = ?) ORDER BY title ASC";
pub const GET_CTM_BY_ID: &'static str = "SELECT * FROM countermeasure WHERE ctm_uuid = ? ORDER BY title ASC";
pub const UPDATE_COUNTERMEASURE: &'static str = "UPDATE countermeasure SET title = ?, description = ?, solved = ?, solved_description = ? WHERE ctm_uuid = ?";
pub const DELETE_COUNTERMEASURE: &'static str = "DELETE FROM countermeasure WHERE ctm_uuid = ?";
pub const DELETE_COUNTERMEASURE_FROM_SC: &'static str = "DELETE FROM countermeasure WHERE scenario_uuid = ?";
pub const C1_GET_ALL_MISSIONS: &'static str = "SELECT * FROM c1_mission ORDER BY mission_id ASC";
pub const C1_CREATE_MISSION: &'static str = "INSERT INTO c1_mission (mission_name) VALUES (?)";
pub const C1_GET_MISSION_BY_ID: &'static str = "SELECT * FROM c1_mission WHERE mission_id = ? ORDER BY mission_id ASC";
pub const C1_GET_ALL_VALEURMETIER: &'static str = "SELECT * FROM c1_valeur_metier WHERE mission_id = ? ORDER BY valeur_id ASC";
pub const C1_GET_ALL_VALEURMETIER_NO_LIMIT: &'static str = "SELECT * FROM c1_valeur_metier ORDER BY valeur_id ASC";
pub const C1_CREATE_VALEURMETIER: &'static str = "INSERT INTO c1_valeur_metier (mission_id, valeur_name, valeur_nature, valeur_description, responsable) VALUES (?, ?, ?, ?, ?)";
pub const C1_GET_VALERMETIER_BY_ID: &'static str = "SELECT * FROM c1_valeur_metier WHERE valeur_id = ? ORDER BY valeur_id ASC";
pub const C1_CREATE_ASSET: &'static str = "INSERT INTO c1_bien_support (valeur_id, support_name, support_description, support_responsable) VALUES (?, ?, ?, ?)";
pub const C1_GET_ASSET_BY_VMID: &'static str = "SELECT * FROM c1_bien_support WHERE valeur_id = ? ORDER BY support_id ASC";
pub const C1_DELETE_ASSET_BY_ID: &'static str = "DELETE FROM c1_bien_support WHERE support_id = ?";
pub const C1_DELETE_VM_BY_ID: &'static str = "DELETE FROM c1_valeur_metier WHERE valeur_id = ?";
pub const C1_DELETE_MISSION_BY_ID: &'static str = "DELETE FROM c1_mission WHERE mission_id = ?";
pub const C1_FEARED_EVENT_CREATE: &'static str = "INSERT INTO c1_feared_event (evenement_redoute, impact, valeur_metier, gravite) VALUES (?, ?, ?, ?)";
pub const C1_DELETE_FEARED_EVENT: &'static str = "DELETE FROM c1_feared_event WHERE event_id = ?";
pub const C1_GET_ALL_FEARED_EVENT: &'static str = "SELECT event_id, evenement_redoute, impact, valeur_metier, gravite FROM c1_feared_event ORDER BY event_id ASC";
pub const C1_CREATE_GAP: &'static str = "INSERT INTO c1_gaps (referential_type, referential_name, application_state, gap, gap_justification, proposed_measures) VALUES (?, ?, ?, ?, ?, ?)";
pub const C1_DELETE_GAP: &'static str = "DELETE FROM c1_gaps WHERE gap_id = ?";
pub const C1_GET_ALL_GAPS: &'static str = "SELECT gap_id, referential_type, referential_name, application_state, gap, gap_justification, proposed_measures FROM c1_gaps ORDER BY gap_id ASC";
pub const C1_GET_GAPS_BY_ID: &'static str = "SELECT gap_id, referential_type, referential_name, application_state, gap, gap_justification, proposed_measures FROM c1_gaps WHERE gap_id = ? ORDER BY gap_id ASC";
pub const C2_GET_ALL_RISK: &'static str = "SELECT risk_id, source_risque, objectifs_vises, motivation, ressources, pertinence_sr_ov, priorite, retenu, justification_exclusion_sr_ov FROM c2_risk_sources ORDER BY risk_id ASC";
pub const C2_CREATE_RISK: &'static str = "INSERT INTO c2_risk_sources (source_risque, objectifs_vises, motivation, ressources, pertinence_sr_ov, priorite, retenu, justification_exclusion_sr_ov) VALUES (?, ?, ?, ?, ?, ?, ?, ?)";
pub const C2_DELETE_RISK_BY_ID: &'static str = "DELETE FROM c2_risk_sources WHERE risk_id = ?";
pub const C2_GET_RISK_DETAIL: &'static str = "SELECT risk_id, source_risque, objectifs_vises, motivation, ressources, pertinence_sr_ov, priorite, retenu, justification_exclusion_sr_ov FROM c2_risk_sources WHERE risk_id = ? ORDER BY risk_id ASC";
pub const C3_GET_ALL_STAKEHOLDER: &'static str = "SELECT stakeholder_id, category, stakeholder_name, dependance, penetration, maturite_ssi, confiance FROM c3_stakeholders ORDER BY stakeholder_id ASC";
pub const C3_CREATE_STAKEHOLDER: &'static str = "INSERT INTO c3_stakeholders (category, stakeholder_name, dependance, penetration, maturite_ssi, confiance) VALUES (?, ?, ?, ?, ?, ?)";
pub const C3_DELETE_STAKEHOLDER_BY_ID: &'static str = "DELETE FROM c3_stakeholders WHERE stakeholder_id = ?";
pub const C3_GET_STAKEHOLDER_DETAIL: &'static str = "SELECT stakeholder_id, category, stakeholder_name, dependance, penetration, maturite_ssi, confiance FROM c3_stakeholders WHERE stakeholder_id = ? ORDER BY stakeholder_id ASC";
pub const CHECK_IF_TABLE_EXIST: &'static str = "SELECT table_name FROM information_schema.tables WHERE table_name = ? LIMIT 1";
pub const CHECK_COLUMN_EXIST: &'static str = "SELECT column_name FROM information_schema.columns WHERE table_name = ? AND column_name = ? LIMIT 1";
pub const CREATE_NEW_RISK: &'static str = "INSERT INTO risk (risk_uuid, risk_name, risk_description) VALUES (?, ?, ?)";
pub const CREATE_NEW_SCENARIO: &'static str = "INSERT INTO scenario (scenario_uuid, risk_uuid, scenario_description, threat_description, add_note) VALUES (?, ?, ?, ?, ?)";
pub const CREATE_COUNTERMEASURE: &'static str = "INSERT INTO countermeasure (ctm_uuid, scenario_uuid, title, description, solved, solved_description) VALUES (?, ?, ?, ?, ?, ?)";

/// The statement that probes whether the store answers.
pub fn liveness_probe() -> (r: Statement)
    ensures
        r@ == (StatementView { sql: LIVENESS_PROBE@, params: Seq::empty() }),
{
    let p: Vec<SqlValue> = Vec::new();
    assert(params_view(p@) =~= Seq::<ParamView>::empty());
    Statement { sql: String::from_str(LIVENESS_PROBE), params: p }
}

/// The statement that lists every risk by name.
pub fn select_all_risk() -> (r: Statement)
    ensures
        r@ == (StatementView { sql: SELECT_ALL_RISK@, params: Seq::empty() }),
{
    let p: Vec<SqlValue> = Vec::new();
    assert(params_view(p@) =~= Seq::<ParamView>::empty());
    Statement { sql: String::from_str(SELECT_ALL_RISK), params: p }
}

/// The statement that reads one risk.
pub fn get_risk_detail(risk_uuid: String) -> (r: Statement)
    ensures
        r@ == (StatementView { sql: GET_RISK_DETAIL@, params: seq![ParamView::Text(risk_uuid@)] }),
{
    let mut p: Vec<SqlValue> = Vec::new();
    p.push(SqlValue::Text(risk_uuid));
    assert(params_view(p@) =~= seq![ParamView::Text(risk_uuid@)]);
    Statement { sql: String::from_str(GET_RISK_DETAIL), params: p }
}

/// The statement that rewrites the name and description of a risk.
pub fn update_risk(risk_uuid: String, risk_name: String, risk_description: String) -> (r: Statement)
    ensures
        r@ == (StatementView { sql: UPDATE_RISK@, params: seq![ParamView::Text(risk_name@), ParamView::Text(risk_description@), ParamView::Text(risk_uuid@)] }),
{
    let mut p: Vec<SqlValue> = Vec::new();
    p.push(SqlValue::Text(risk_name));
    p.push(SqlValue::Text(risk_description));
    p.push(SqlValue::Text(risk_uuid));
    assert(params_view(p@) =~= seq![ParamView::Text(risk_name@), ParamView::Text(risk_description@), ParamView::Text(risk_uuid@)]);
    Statement { sql: String::from_str(UPDATE_RISK), params: p }
}

/// The statement that deletes a risk row.
pub fn delete_risk(risk_uuid: String) -> (r: Statement)
    ensures
        r@ == (StatementView { sql: DELETE_RISK@, params: seq![ParamView::Text(risk_uuid@)] }),
{
    let mut p: Vec<SqlValue> = Vec::new();
    p.push(SqlValue::Text(risk_uuid));
    assert(params_view(p@) =~= seq![ParamView::Text(risk_uuid@)]);
    Statement { sql: String::from_str(DELETE_RISK), params: p }
}

/// The statement that lists the scenarios that refer to a risk.
pub fn get_all_scenario_of_risk(risk_uuid: String) -> (r: Statement)
    ensures
        r@ == (StatementView { sql: GET_ALL_SCENARIO_OF_RISK@, params: seq![ParamView::Text(risk_uuid@)] }),
{
    let mut p: Vec<SqlValue> = Vec::new();
    p.push(SqlValue::Text(risk_uuid));
    assert(params_view(p@) =~= seq![ParamView::Text(risk_uuid@)]);
    Statement { sql: String::from_str(GET_ALL_SCENARIO_OF_RISK), params: p }
}

/// The statement that reads one scenario.
pub fn get_scenario_detail(scenario_uuid: String) -> (r: Statement)
    ensures
        r@ == (StatementView { sql: GET_SCENARIO_DETAIL@, params: seq![ParamView::Text(scenario_uuid@)] }),
{
    let mut p: Vec<SqlValue> = Vec::new();
    p.push(SqlValue::Text(scenario_uuid));
    assert(params_view(p@) =~= seq![ParamView::Text(scenario_uuid@)]);
    Statement { sql: String::from_str(GET_SCENARIO_DETAIL), params: p }
}

/// The statement that rewrites the texts of a scenario.
pub fn update_scenario(scenario_uuid: String, scenario_description: String, threat_description: String, add_note: String) -> (r: Statement)
    ensures
        r@ == (StatementView { sql: UPDATE_SCENARIO@, params: seq![ParamView::Text(scenario_description@), ParamView::Text(threat_description@), ParamView::Text(add_note@), ParamView::Text(scenario_uuid@)] }),
{
    let mut p: Vec<SqlValue> = Vec::new();
    p.push(SqlValue::Text(scenario_description));
    p.push(SqlValue::Text(threat_description));
    p.push(SqlValue::Text(add_note));
    p.push(SqlValue::Text(scenario_uuid));
    assert(params_view(p@) =~= seq![ParamView::Text(scenario_description@), ParamView::Text(threat_description@), ParamView::Text(add_note@), ParamView::Text(scenario_uuid@)]);
    Statement { sql: String::from_str(UPDATE_SCENARIO), params: p }
}

/// The statement that deletes a scenario row.
pub fn delete_scenario(scenario_uuid: String) -> (r: Statement)
    ensures
        r@ == (StatementView { sql: DELETE_SCENARIO@, params: seq![ParamView::Text(scenario_uuid@)] }),
{
    let mut p: Vec<SqlValue> = Vec::new();
    p.push(SqlValue::Text(scenario_uuid));
    assert(params_view(p@) =~= seq![ParamView::Text(scenario_uuid@)]);
    Statement { sql: String::from_str(DELETE_SCENARIO), params: p }
}

/// The statement that reads the rating row of a scenario.
pub fn get_scenario_risk(scenario_uuid: String) -> (r: Statement)
    ensures
        r@ == (StatementView { sql: GET_SCENARIO_RISK@, params: seq![ParamView::Text(scenario_uuid@)] }),
{
    let mut p: Vec<SqlValue> = Vec::new();
    p.push(SqlValue::Text(scenario_uuid));
    assert(params_view(p@) =~= seq![ParamView::Text(scenario_uuid@)]);
    Statement { sql: String::from_str(GET_SCENARIO_RISK), params: p }
}

/// The statement that inserts the rating row of a scenario.
pub fn create_scenario_risk(scenario_uuid: String, likelihood: i32, reputation: i32, operational: i32, legal_compliance: i32, financial: i32) -> (r: Statement)
    ensures
        r@ == (StatementView { sql: CREATE_SCENARIO_RISK@, params: seq![ParamView::Text(scenario_uuid@), ParamView::Int(likelihood), ParamView::Int(reputation), ParamView::Int(operational), ParamView::Int(legal_compliance), ParamView::Int(financial)] }),
{
    let mut p: Vec<SqlValue> = Vec::new();
    p.push(SqlValue::Text(scenario_uuid));
    p.push(SqlValue::Int(likelihood));
    p.push(SqlValue::Int(reputation));
    p.push(SqlValue::Int(operational));
    p.push(SqlValue::Int(legal_compliance));
    p.push(SqlValue::Int(financial));
    assert(params_view(p@) =~= seq![ParamView::Text(scenario_uuid@), ParamView::Int(likelihood), ParamView::Int(reputation), ParamView::Int(operational), ParamView::Int(legal_compliance), ParamView::Int(financial)]);
    Statement { sql: String::from_str(CREATE_SCENARIO_RISK), params: p }
}

/// The statement that rewrites the rating row of a scenario.
pub fn update_scenario_risk(scenario_uuid: String, likelihood: i32, reputation: i32, operational: i32, legal_compliance: i32, financial: i32) -> (r: Statement)
    ensures
        r@ == (StatementView { sql: UPDATE_SCENARIO_RISK@, params: seq![ParamView::Int(likelihood), ParamView::Int(reputation), ParamView::Int(operational), ParamView::Int(legal_compliance), ParamView::Int(financial), ParamView::Text(scenario_uuid@)] }),
{
    let mut p: Vec<SqlValue> = Vec::new();
    p.push(SqlValue::Int(likelihood));
    p.push(SqlValue::Int(reputation));
    p.push(SqlValue::Int(operational));
    p.push(SqlValue::Int(legal_compliance));
    p.push(SqlValue::Int(financial));
    p.push(SqlValue::Text(scenario_uuid));
    assert(params_view(p@) =~= seq![ParamView::Int(likelihood), ParamView::Int(reputation), ParamView::Int(operational), ParamView::Int(legal_compliance), ParamView::Int(financial), ParamView::Text(scenario_uuid@)]);
    Statement { sql: String::from_str(UPDATE_SCENARIO_RISK), params: p }
}

/// The statement that deletes the rating row of a scenario.
pub fn delete_scenario_risk(scenario_uuid: String) -> (r: Statement)
    ensures
        r@ == (StatementView { sql: DELETE_SCENARIO_RISK@, params: seq![ParamView::Text(scenario_uuid@)] }),
{
    let mut p: Vec<SqlValue> = Vec::new();
    p.push(SqlValue::Text(scenario_uuid));
    assert(params_view(p@) =~= seq![ParamView::Text(scenario_uuid@)]);
    Statement { sql: String::from_str(DELETE_SCENARIO_RISK), params: p }
}

/// The statement that lists the countermeasures of a scenario.
pub fn get_all_countermeasure_of_sc(scenario_uuid: String) -> (r: Statement)
    ensures
        r@ == (StatementView { sql: GET_ALL_COUNTERMEASURE_OF_SC@, params: seq![ParamView::Text(scenario_uuid@)] }),
{
    let mut p: Vec<SqlValue> = Vec::new();
    p.push(SqlValue::Text(scenario_uuid));
    assert(params_view(p@) =~= seq![ParamView::Text(scenario_uuid@)]);
    Statement { sql: String::from_str(GET_ALL_COUNTERMEASURE_OF_SC), params: p }
}

/// The statement that lists the countermeasures of every scenario of a risk.
pub fn get_all_countermeasure_from_risk_uuid(risk_uuid: String) -> (r: Statement)
    ensures
        r@ == (StatementView { sql: GET_ALL_COUNTERMEASURE_FROM_RISK_UUID@, params: seq![ParamView::Text(risk_uuid@)] }),
{
    let mut p: Vec<SqlValue> = Vec::new();
    p.push(SqlValue::Text(risk_uuid));
    assert(params_view(p@) =~= seq![ParamView::Text(risk_uuid@)]);
    Statement { sql: String::from_str(GET_ALL_COUNTERMEASURE_FROM_RISK_UUID), params: p }
}

/// The statement that reads one countermeasure.
pub fn get_ctm_by_id(ctm_uuid: String) -> (r: Statement)
    ensures
        r@ == (StatementView { sql: GET_CTM_BY_ID@, params: seq![ParamView::Text(ctm_uuid@)] }),
{
    let mut p: Vec<SqlValue> = Vec::new();
    p.push(SqlValue::Text(ctm_uuid));
    assert(params_view(p@) =~= seq![ParamView::Text(ctm_uuid@)]);
    Statement { sql: String::from_str(GET_CTM_BY_ID), params: p }
}

/// The statement that rewrites a countermeasure.
pub fn update_countermeasure(ctm_uuid: String, title: String, description: String, solved: i32, solved_description: String) -> (r: Statement)
    ensures
        r@ == (StatementView { sql: UPDATE_COUNTERMEASURE@, params: seq![ParamView::Text(title@), ParamView::Text(description@), ParamView::Int(solved), ParamView::Text(solved_description@), ParamView::Text(ctm_uuid@)] }),
{
    let mut p: Vec<SqlValue> = Vec::new();
    p.push(SqlValue::Text(title));
    p.push(SqlValue::Text(description));
    p.push(SqlValue::Int(solved));
    p.push(SqlValue::Text(solved_description));
    p.push(SqlValue::Text(ctm_uuid));
    assert(params_view(p@) =~= seq![ParamView::Text(title@), ParamView::Text(description@), ParamView::Int(solved), ParamView::Text(solved_description@), ParamView::Text(ctm_uuid@)]);
    Statement { sql: String::from_str(UPDATE_COUNTERMEASURE), params: p }
}

/// The statement that deletes one countermeasure.
pub fn delete_countermeasure(ctm_uuid: String) -> (r: Statement)
    ensures
        r@ == (StatementView { sql: DELETE_COUNTERMEASURE@, params: seq![ParamView::Text(ctm_uuid@)] }),
{
    let mut p: Vec<SqlValue> = Vec::new();
    p.push(SqlValue::Text(ctm_uuid));
    assert(params_view(p@) =~= seq![ParamView::Text(ctm_uuid@)]);
    Statement { sql: String::from_str(DELETE_COUNTERMEASURE), params: p }
}

/// The statement that deletes every countermeasure of a scenario.
pub fn delete_countermeasure_from_sc(scenario_uuid: String) -> (r: Statement)
    ensures
        r@ == (StatementView { sql: DELETE_COUNTERMEASURE_FROM_SC@, params: seq![ParamView::Text(scenario_uuid@)] }),
{
    let mut p: Vec<SqlValue> = Vec::new();
    p.push(SqlValue::Text(scenario_uuid));
    assert(params_view(p@) =~= seq![ParamView::Text(scenario_uuid@)]);
    Statement { sql: String::from_str(DELETE_COUNTERMEASURE_FROM_SC), params: p }
}

/// The statement that lists every mission.
pub fn c1_get_all_missions() -> (r: Statement)
    ensures
        r@ == (StatementView { sql: C1_GET_ALL_MISSIONS@, params: Seq::empty() }),
{
    let p: Vec<SqlValue> = Vec::new();
    assert(params_view(p@) =~= Seq::<ParamView>::empty());
    Statement { sql: String::from_str(C1_GET_ALL_MISSIONS), params: p }
}

/// The statement that inserts a mission; the store numbers it.
pub fn c1_create_mission(mission_name: String) -> (r: Statement)
    ensures
        r@ == (StatementView { sql: C1_CREATE_MISSION@, params: seq![ParamView::Text(mission_name@)] }),
{
    let mut p: Vec<SqlValue> = Vec::new();
    p.push(SqlValue::Text(mission_name));
    assert(params_view(p@) =~= seq![ParamView::Text(mission_name@)]);
    Statement { sql: String::from_str(C1_CREATE_MISSION), params: p }
}

/// The statement that reads one mission.
pub fn c1_get_mission_by_id(mission_id: i32) -> (r: Statement)
    ensures
        r@ == (StatementView { sql: C1_GET_MISSION_BY_ID@, params: seq![ParamView::Int(mission_id)] }),
{
    let mut p: Vec<SqlValue> = Vec::new();
    p.push(SqlValue::Int(mission_id));
    assert(params_view(p@) =~= seq![ParamView::Int(mission_id)]);
    Statement { sql: String::from_str(C1_GET_MISSION_BY_ID), params: p }
}

/// The statement that lists the business values of a mission.
pub fn c1_get_all_valeurmetier(mission_id: i32) -> (r: Statement)
    ensures
        r@ == (StatementView { sql: C1_GET_ALL_VALEURMETIER@, params: seq![ParamView::Int(mission_id)] }),
{
    let mut p: Vec<SqlValue> = Vec::new();
    p.push(SqlValue::Int(mission_id));
    assert(params_view(p@) =~= seq![ParamView::Int(mission_id)]);
    Statement { sql: String::from_str(C1_GET_ALL_VALEURMETIER), params: p }
}

/// The statement that lists every business value.
pub fn c1_get_all_valeurmetier_no_limit() -> (r: Statement)
    ensures
        r@ == (StatementView { sql: C1_GET_ALL_VALEURMETIER_NO_LIMIT@, params: Seq::empty() }),
{
    let p: Vec<SqlValue> = Vec::new();
    assert(params_view(p@) =~= Seq::<ParamView>::empty());
    Statement { sql: String::from_str(C1_GET_ALL_VALEURMETIER_NO_LIMIT), params: p }
}

/// The statement that inserts a business value of a mission.
pub fn c1_create_valeurmetier(mission_id: i32, valeur_name: String, valeur_nature: String, valeur_description: String, responsable: String) -> (r: Statement)
    ensures
        r@ == (StatementView { sql: C1_CREATE_VALEURMETIER@, params: seq![ParamView::Int(mission_id), ParamView::Text(valeur_name@), ParamView::Text(valeur_nature@), ParamView::Text(valeur_description@), ParamView::Text(responsable@)] }),
{
    let mut p: Vec<SqlValue> = Vec::new();
    p.push(SqlValue::Int(mission_id));
    p.push(SqlValue::Text(valeur_name));
    p.push(SqlValue::Text(valeur_nature));
    p.push(SqlValue::Text(valeur_description));
    p.push(SqlValue::Text(responsable));
    assert(params_view(p@) =~= seq![ParamView::Int(mission_id), ParamView::Text(valeur_name@), ParamView::Text(valeur_nature@), ParamView::Text(valeur_description@), ParamView::Text(responsable@)]);
    Statement { sql: String::from_str(C1_CREATE_VALEURMETIER), params: p }
}

/// The statement that reads one business value.
pub fn c1_get_valermetier_by_id(vm_id: i32) -> (r: Statement)
    ensures
        r@ == (StatementView { sql: C1_GET_VALERMETIER_BY_ID@, params: seq![ParamView::Int(vm_id)] }),
{
    let mut p: Vec<SqlValue> = Vec::new();
    p.push(SqlValue::Int(vm_id));
    assert(params_view(p@) =~= seq![ParamView::Int(vm_id)]);
    Statement { sql: String::from_str(C1_GET_VALERMETIER_BY_ID), params: p }
}

/// The statement that inserts an asset of a business value.
pub fn c1_create_asset(vm_id: i32, asset_name: String, asset_description: String, owner: String) -> (r: Statement)
    ensures
        r@ == (StatementView { sql: C1_CREATE_ASSET@, params: seq![ParamView::Int(vm_id), ParamView::Text(asset_name@), ParamView::Text(asset_description@), ParamView::Text(owner@)] }),
{
    let mut p: Vec<SqlValue> = Vec::new();
    p.push(SqlValue::Int(vm_id));
    p.push(SqlValue::Text(asset_name));
    p.push(SqlValue::Text(asset_description));
    p.push(SqlValue::Text(owner));
    assert(params_view(p@) =~= seq![ParamView::Int(vm_id), ParamView::Text(asset_name@), ParamView::Text(asset_description@), ParamView::Text(owner@)]);
    Statement { sql: String::from_str(C1_CREATE_ASSET), params: p }
}

/// The statement that lists the assets of a business value.
pub fn c1_get_asset_by_vmid(vm_id: i32) -> (r: Statement)
    ensures
        r@ == (StatementView { sql: C1_GET_ASSET_BY_VMID@, params: seq![ParamView::Int(vm_id)] }),
{
    let mut p: Vec<SqlValue> = Vec::new();
    p.push(SqlValue::Int(vm_id));
    assert(params_view(p@) =~= seq![ParamView::Int(vm_id)]);
    Statement { sql: String::from_str(C1_GET_ASSET_BY_VMID), params: p }
}

/// The statement that deletes an asset row.
pub fn c1_delete_asset_by_id(asset_id: i32) -> (r: Statement)
    ensures
        r@ == (StatementView { sql: C1_DELETE_ASSET_BY_ID@, params: seq![ParamView::Int(asset_id)] }),
{
    let mut p: Vec<SqlValue> = Vec::new();
    p.push(SqlValue::Int(asset_id));
    assert(params_view(p@) =~= seq![ParamView::Int(asset_id)]);
    Statement { sql: String::from_str(C1_DELETE_ASSET_BY_ID), params: p }
}

/// The statement that deletes a business-value row.
pub fn c1_delete_vm_by_id(vm_id: i32) -> (r: Statement)
    ensures
        r@ == (StatementView { sql: C1_DELETE_VM_BY_ID@, params: seq![ParamView::Int(vm_id)] }),
{
    let mut p: Vec<SqlValue> = Vec::new();
    p.push(SqlValue::Int(vm_id));
    assert(params_view(p@) =~= seq![ParamView::Int(vm_id)]);
    Statement { sql: String::from_str(C1_DELETE_VM_BY_ID), params: p }
}

/// The statement that deletes a mission row.
pub fn c1_delete_mission_by_id(mission_id: i32) -> (r: Statement)
    ensures
        r@ == (StatementView { sql: C1_DELETE_MISSION_BY_ID@, params: seq![ParamView::Int(mission_id)] }),
{
    let mut p: Vec<SqlValue> = Vec::new();
    p.push(SqlValue::Int(mission_id));
    assert(params_view(p@) =~= seq![ParamView::Int(mission_id)]);
    Statement { sql: String::from_str(C1_DELETE_MISSION_BY_ID), params: p }
}

/// The statement that inserts a feared event.
pub fn c1_feared_event_create(event_name: String, impacts: String, valeur_metier_id: i32, gravity: i32) -> (r: Statement)
    ensures
        r@ == (StatementView { sql: C1_FEARED_EVENT_CREATE@, params: seq![ParamView::Text(event_name@), ParamView::Text(impacts@), ParamView::Int(valeur_metier_id), ParamView::Int(gravity)] }),
{
    let mut p: Vec<SqlValue> = Vec::new();
    p.push(SqlValue::Text(event_name));
    p.push(SqlValue::Text(impacts));
    p.push(SqlValue::Int(valeur_metier_id));
    p.push(SqlValue::Int(gravity));
    assert(params_view(p@) =~= seq![ParamView::Text(event_name@), ParamView::Text(impacts@), ParamView::Int(valeur_metier_id), ParamView::Int(gravity)]);
    Statement { sql: String::from_str(C1_FEARED_EVENT_CREATE), params: p }
}

/// The statement that deletes a feared event.
pub fn c1_delete_feared_event(event_id: i32) -> (r: Statement)
    ensures
        r@ == (StatementView { sql: C1_DELETE_FEARED_EVENT@, params: seq![ParamView::Int(event_id)] }),
{
    let mut p: Vec<SqlValue> = Vec::new();
    p.push(SqlValue::Int(event_id));
    assert(params_view(p@) =~= seq![ParamView::Int(event_id)]);
    Statement { sql: String::from_str(C1_DELETE_FEARED_EVENT), params: p }
}

/// The statement that lists every feared event.
pub fn c1_get_all_feared_event() -> (r: Statement)
    ensures
        r@ == (StatementView { sql: C1_GET_ALL_FEARED_EVENT@, params: Seq::empty() }),
{
    let p: Vec<SqlValue> = Vec::new();
    assert(params_view(p@) =~= Seq::<ParamView>::empty());
    Statement { sql: String::from_str(C1_GET_ALL_FEARED_EVENT), params: p }
}

/// The statement that inserts a gap analysis.
pub fn c1_create_gap(g_ref_type: String, g_ref_name: String, g_state: i32, g_gap: String, g_gap_why: String, g_gap_counter: String) -> (r: Statement)
    ensures
        r@ == (StatementView { sql: C1_CREATE_GAP@, params: seq![ParamView::Text(g_ref_type@), ParamView::Text(g_ref_name@), ParamView::Int(g_state), ParamView::Text(g_gap@), ParamView::Text(g_gap_why@), ParamView::Text(g_gap_counter@)] }),
{
    let mut p: Vec<SqlValue> = Vec::new();
    p.push(SqlValue::Text(g_ref_type));
    p.push(SqlValue::Text(g_ref_name));
    p.push(SqlValue::Int(g_state));
    p.push(SqlValue::Text(g_gap));
    p.push(SqlValue::Text(g_gap_why));
    p.push(SqlValue::Text(g_gap_counter));
    assert(params_view(p@) =~= seq![ParamView::Text(g_ref_type@), ParamView::Text(g_ref_name@), ParamView::Int(g_state), ParamView::Text(g_gap@), ParamView::Text(g_gap_why@), ParamView::Text(g_gap_counter@)]);
    Statement { sql: String::from_str(C1_CREATE_GAP), params: p }
}

/// The statement that deletes a gap analysis.
pub fn c1_delete_gap(gap_id: i32) -> (r: Statement)
    ensures
        r@ == (StatementView { sql: C1_DELETE_GAP@, params: seq![ParamView::Int(gap_id)] }),
{
    let mut p: Vec<SqlValue> = Vec::new();
    p.push(SqlValue::Int(gap_id));
    assert(params_view(p@) =~= seq![ParamView::Int(gap_id)]);
    Statement { sql: String::from_str(C1_DELETE_GAP), params: p }
}

/// The statement that lists every gap analysis.
pub fn c1_get_all_gaps() -> (r: Statement)
    ensures
        r@ == (StatementView { sql: C1_GET_ALL_GAPS@, params: Seq::empty() }),
{
    let p: Vec<SqlValue> = Vec::new();
    assert(params_view(p@) =~= Seq::<ParamView>::empty());
    Statement { sql: String::from_str(C1_GET_ALL_GAPS), params: p }
}

/// The statement that reads one gap analysis.
pub fn c1_get_gaps_by_id(gap_id: i32) -> (r: Statement)
    ensures
        r@ == (StatementView { sql: C1_GET_GAPS_BY_ID@, params: seq![ParamView::Int(gap_id)] }),
{
    let mut p: Vec<SqlValue> = Vec::new();
    p.push(SqlValue::Int(gap_id));
    assert(params_view(p@) =~= seq![ParamView::Int(gap_id)]);
    Statement { sql: String::from_str(C1_GET_GAPS_BY_ID), params: p }
}

/// The statement that lists every risk source.
pub fn c2_get_all_risk() -> (r: Statement)
    ensures
        r@ == (StatementView { sql: C2_GET_ALL_RISK@, params: Seq::empty() }),
{
    let p: Vec<SqlValue> = Vec::new();
    assert(params_view(p@) =~= Seq::<ParamView>::empty());
    Statement { sql: String::from_str(C2_GET_ALL_RISK), params: p }
}

/// The statement that inserts a risk source.
pub fn c2_create_risk(source_risque: String, objectifs_vises: String, motivation: String, ressources: String, pertinence_sr_ov: i32, priorite: i32, retenu: bool, justification_exclusion_sr_ov: String) -> (r: Statement)
    ensures
        r@ == (StatementView { sql: C2_CREATE_RISK@, params: seq![ParamView::Text(source_risque@), ParamView::Text(objectifs_vises@), ParamView::Text(motivation@), ParamView::Text(ressources@), ParamView::Int(pertinence_sr_ov), ParamView::Int(priorite), ParamView::Bool(retenu), ParamView::Text(justification_exclusion_sr_ov@)] }),
{
    let mut p: Vec<SqlValue> = Vec::new();
    p.push(SqlValue::Text(source_risque));
    p.push(SqlValue::Text(objectifs_vises));
    p.push(SqlValue::Text(motivation));
    p.push(SqlValue::Text(ressources));
    p.push(SqlValue::Int(pertinence_sr_ov));
    p.push(SqlValue::Int(priorite));
    p.push(SqlValue::Bool(retenu));
    p.push(SqlValue::Text(justification_exclusion_sr_ov));
    assert(params_view(p@) =~= seq![ParamView::Text(source_risque@), ParamView::Text(objectifs_vises@), ParamView::Text(motivation@), ParamView::Text(ressources@), ParamView::Int(pertinence_sr_ov), ParamView::Int(priorite), ParamView::Bool(retenu), ParamView::Text(justification_exclusion_sr_ov@)]);
    Statement { sql: String::from_str(C2_CREATE_RISK), params: p }
}

/// The statement that deletes a risk source.
pub fn c2_delete_risk_by_id(risk_id: i32) -> (r: Statement)
    ensures
        r@ == (StatementView { sql: C2_DELETE_RISK_BY_ID@, params: seq![ParamView::Int(risk_id)] }),
{
    let mut p: Vec<SqlValue> = Vec::new();
    p.push(SqlValue::Int(risk_id));
    assert(params_view(p@) =~= seq![ParamView::Int(risk_id)]);
    Statement { sql: String::from_str(C2_DELETE_RISK_BY_ID), params: p }
}

/// The statement that reads one risk source.
pub fn c2_get_risk_detail(risk_id: i32) -> (r: Statement)
    ensures
        r@ == (StatementView { sql: C2_GET_RISK_DETAIL@, params: seq![ParamView::Int(risk_id)] }),
{
    let mut p: Vec<SqlValue> = Vec::new();
    p.push(SqlValue::Int(risk_id));
    assert(params_view(p@) =~= seq![ParamView::Int(risk_id)]);
    Statement { sql: String::from_str(C2_GET_RISK_DETAIL), params: p }
}

/// The statement that lists every stakeholder.
pub fn c3_get_all_stakeholder() -> (r: Statement)
    ensures
        r@ == (StatementView { sql: C3_GET_ALL_STAKEHOLDER@, params: Seq::empty() }),
{
    let p: Vec<SqlValue> = Vec::new();
    assert(params_view(p@) =~= Seq::<ParamView>::empty());
    Statement { sql: String::from_str(C3_GET_ALL_STAKEHOLDER), params: p }
}

/// The statement that inserts a stakeholder.
pub fn c3_create_stakeholder(category: String, stakeholder_name: String, dependance: i32, penetration: i32, maturite_ssi: i32, confiance: i32) -> (r: Statement)
    ensures
        r@ == (StatementView { sql: C3_CREATE_STAKEHOLDER@, params: seq![ParamView::Text(category@), ParamView::Text(stakeholder_name@), ParamView::Int(dependance), ParamView::Int(penetration), ParamView::Int(maturite_ssi), ParamView::Int(confiance)] }),
{
    let mut p: Vec<SqlValue> = Vec::new();
    p.push(SqlValue::Text(category));
    p.push(SqlValue::Text(stakeholder_name));
    p.push(SqlValue::Int(dependance));
    p.push(SqlValue::Int(penetration));
    p.push(SqlValue::Int(maturite_ssi));
    p.push(SqlValue::Int(confiance));
    assert(params_view(p@) =~= seq![ParamView::Text(category@), ParamView::Text(stakeholder_name@), ParamView::Int(dependance), ParamView::Int(penetration), ParamView::Int(maturite_ssi), ParamView::Int(confiance)]);
    Statement { sql: String::from_str(C3_CREATE_STAKEHOLDER), params: p }
}

/// The statement that deletes a stakeholder.
pub fn c3_delete_stakeholder_by_id(stakeholder_id: i32) -> (r: Statement)
    ensures
        r@ == (StatementView { sql: C3_DELETE_STAKEHOLDER_BY_ID@, params: seq![ParamView::Int(stakeholder_id)] }),
{
    let mut p: Vec<SqlValue> = Vec::new();
    p.push(SqlValue::Int(stakeholder_id));
    assert(params_view(p@) =~= seq![ParamView::Int(stakeholder_id)]);
    Statement { sql: String::from_str(C3_DELETE_STAKEHOLDER_BY_ID), params: p }
}

/// The statement that reads one stakeholder.
pub fn c3_get_stakeholder_detail(stakeholder_id: i32) -> (r: Statement)
    ensures
        r@ == (StatementView { sql: C3_GET_STAKEHOLDER_DETAIL@, params: seq![ParamView::Int(stakeholder_id)] }),
{
    let mut p: Vec<SqlValue> = Vec::new();
    p.push(SqlValue::Int(stakeholder_id));
    assert(params_view(p@) =~= seq![ParamView::Int(stakeholder_id)]);
    Statement { sql: String::from_str(C3_GET_STAKEHOLDER_DETAIL), params: p }
}

/// The statement that asks whether a table exists.
pub fn check_if_table_exist(table_name: String) -> (r: Statement)
    ensures
        r@ == (StatementView { sql: CHECK_IF_TABLE_EXIST@, params: seq![ParamView::Text(table_name@)] }),
{
    let mut p: Vec<SqlValue> = Vec::new();
    p.push(SqlValue::Text(table_name));
    assert(params_view(p@) =~= seq![ParamView::Text(table_name@)]);
    Statement { sql: String::from_str(CHECK_IF_TABLE_EXIST), params: p }
}

/// The statement that asks whether a table has a column.
pub fn check_column_exist(table_name: String, column_name: String) -> (r: Statement)
    ensures
        r@ == (StatementView { sql: CHECK_COLUMN_EXIST@, params: seq![ParamView::Text(table_name@), ParamView::Text(column_name@)] }),
{
    let mut p: Vec<SqlValue> = Vec::new();
    p.push(SqlValue::Text(table_name));
    p.push(SqlValue::Text(column_name));
    assert(params_view(p@) =~= seq![ParamView::Text(table_name@), ParamView::Text(column_name@)]);
    Statement { sql: String::from_str(CHECK_COLUMN_EXIST), params: p }
}

/// The statement that inserts a risk under the given token.
pub fn create_risk_with_id(risk_uuid: Token, risk_name: String, risk_description: String) -> (r: Statement)
    ensures
        r@ == (StatementView {
            sql: CREATE_NEW_RISK@,
            params: seq![
                ParamView::Text(uuid_text(risk_uuid.value)),
                ParamView::Text(risk_name@),
                ParamView::Text(risk_description@),
            ],
        }),
{
    let mut p: Vec<SqlValue> = Vec::new();
    p.push(SqlValue::Text(risk_uuid.text()));
    p.push(SqlValue::Text(risk_name));
    p.push(SqlValue::Text(risk_description));
    assert(params_view(p@) =~= seq![
        ParamView::Text(uuid_text(risk_uuid.value)),
        ParamView::Text(risk_name@),
        ParamView::Text(risk_description@),
    ]);
    Statement { sql: String::from_str(CREATE_NEW_RISK), params: p }
}

/// A fresh token for a new risk, and the statement that inserts the risk
/// under it.
pub fn create_new_risk(risk_name: String, risk_description: String) -> (r: (Token, Statement))
    ensures
        is_v4(r.0.value),
        r.1@ == (StatementView {
            sql: CREATE_NEW_RISK@,
            params: seq![
                ParamView::Text(uuid_text(r.0.value)),
                ParamView::Text(risk_name@),
                ParamView::Text(risk_description@),
            ],
        }),
{
    let id = Token::random();
    (id, create_risk_with_id(id, risk_name, risk_description))
}

/// The statement that inserts a scenario of a risk under the given token.
pub fn create_scenario_with_id(
    scenario_uuid: Token,
    risk_uuid: String,
    scenario_description: String,
    threat_description: String,
    add_note: String,
) -> (r: Statement)
    ensures
        r@ == (StatementView {
            sql: CREATE_NEW_SCENARIO@,
            params: seq![
                ParamView::Text(uuid_text(scenario_uuid.value)),
                ParamView::Text(risk_uuid@),
                ParamView::Text(scenario_description@),
                ParamView::Text(threat_description@),
                ParamView::Text(add_note@),
            ],
        }),
{
    let mut p: Vec<SqlValue> = Vec::new();
    p.push(SqlValue::Text(scenario_uuid.text()));
    p.push(SqlValue::Text(risk_uuid));
    p.push(SqlValue::Text(scenario_description));
    p.push(SqlValue::Text(threat_description));
    p.push(SqlValue::Text(add_note));
    assert(params_view(p@) =~= seq![
        ParamView::Text(uuid_text(scenario_uuid.value)),
        ParamView::Text(risk_uuid@),
        ParamView::Text(scenario_description@),
        ParamView::Text(threat_description@),
        ParamView::Text(add_note@),
    ]);
    Statement { sql: String::from_str(CREATE_NEW_SCENARIO), params: p }
}

/// A fresh token for a new scenario, and the statement that inserts the
/// scenario under it; the token is what its rating row is then created with.
pub fn create_new_scenario(
    risk_uuid: String,
    scenario_description: String,
    threat_description: String,
    add_note: String,
) -> (r: (Token, Statement))
    ensures
        is_v4(r.0.value),
        r.1@ == (StatementView {
            sql: CREATE_NEW_SCENARIO@,
            params: seq![
                ParamView::Text(uuid_text(r.0.value)),
                ParamView::Text(risk_uuid@),
                ParamView::Text(scenario_description@),
                ParamView::Text(threat_description@),
                ParamView::Text(add_note@),
            ],
        }),
{
    let id = Token::random();
    (id, create_scenario_with_id(id, risk_uuid, scenario_description, threat_description, add_note))
}

/// The statement that inserts an unsolved countermeasure of a scenario under
/// the given token: solved at 0, with an empty solution text.
pub fn create_countermeasure_with_id(
    ctm_uuid: Token,
    scenario_uuid: String,
    title: String,
    description: String,
) -> (r: Statement)
    ensures
        r@ == (StatementView {
            sql: CREATE_COUNTERMEASURE@,
            params: seq![
                ParamView::Text(uuid_text(ctm_uuid.value)),
                ParamView::Text(scenario_uuid@),
                ParamView::Text(title@),
                ParamView::Text(description@),
                ParamView::Int(0),
                ParamView::Text(Seq::empty()),
            ],
        }),
{
    let mut p: Vec<SqlValue> = Vec::new();
    p.push(SqlValue::Text(ctm_uuid.text()));
    p.push(SqlValue::Text(scenario_uuid));
    p.push(SqlValue::Text(title));
    p.push(SqlValue::Text(description));
    p.push(SqlValue::Int(0));
    p.push(SqlValue::Text(String::new()));
    assert(params_view(p@) =~= seq![
        ParamView::Text(uuid_text(ctm_uuid.value)),
        ParamView::Text(scenario_uuid@),
        ParamView::Text(title@),
        ParamView::Text(description@),
        ParamView::Int(0),
        ParamView::Text(Seq::empty()),
    ]);
    Statement { sql: String::from_str(CREATE_COUNTERMEASURE), params: p }
}

/// A fresh token for a new countermeasure, and the statement that inserts it.
pub fn create_countermeasure(scenario_uuid: String, title: String, description: String) -> (r: (Token, Statement))
    ensures
        is_v4(r.0.value),
        r.1@ == (StatementView {
            sql: CREATE_COUNTERMEASURE@,
            params: seq![
                ParamView::Text(uuid_text(r.0.value)),
                ParamView::Text(scenario_uuid@),
                ParamView::Text(title@),
                ParamView::Text(description@),
                ParamView::Int(0),
                ParamView::Text(Seq::empty()),
            ],
        }),
{
    let id = Token::random();
    (id, create_countermeasure_with_id(id, scenario_uuid, title, description))
}

} // verus!
