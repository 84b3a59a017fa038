use matryriska::ids::Token;
use matryriska::records::{Countermeasure, Risk, Scenario, ScenarioRisk};
use matryriska::repository::{
    c1_get_all_valeurmetier, c2_create_risk, check_column_exist, create_countermeasure_with_id, create_new_risk,
    create_risk_with_id, delete_risk, select_all_risk, update_risk, SqlValue,
};

fn texts(params: &[SqlValue]) -> Vec<String> {
    params
        .iter()
        .map(|p| match p {
            SqlValue::Text(s) => s.clone(),
            SqlValue::Int(i) => format!("#{}", i),
            SqlValue::Bool(b) => format!("?{}", b),
        })
        .collect()
}

#[test]
fn values_are_bound_not_spliced() {
    let s = update_risk("id".to_string(), "it's".to_string(), "d".to_string());
    assert_eq!(s.sql, "UPDATE risk SET risk_name = ?, risk_description = ? WHERE risk_uuid = ?");
    assert_eq!(texts(&s.params), vec!["it's", "d", "id"]);
    let d = delete_risk("x".to_string());
    assert_eq!(d.sql, "DELETE FROM risk WHERE risk_uuid = ?");
    assert_eq!(texts(&d.params), vec!["x"]);
    let all = select_all_risk();
    assert_eq!(all.sql, "SELECT * FROM risk ORDER BY risk_name ASC");
    assert!(all.params.is_empty());
}

#[test]
fn integer_and_flag_parameters() {
    let s = c1_get_all_valeurmetier(7);
    assert_eq!(s.sql, "SELECT * FROM c1_valeur_metier WHERE mission_id = ? ORDER BY valeur_id ASC");
    assert_eq!(texts(&s.params), vec!["#7"]);
    let c = c2_create_risk("a".into(), "b".into(), "c".into(), "d".into(), 1, 2, true, "e".into());
    assert_eq!(texts(&c.params), vec!["a", "b", "c", "d", "#1", "#2", "?true", "e"]);
    let q = check_column_exist("risk".into(), "risk_name".into());
    assert_eq!(
        q.sql,
        "SELECT column_name FROM information_schema.columns WHERE table_name = ? AND column_name = ? LIMIT 1"
    );
    assert_eq!(texts(&q.params), vec!["risk", "risk_name"]);
}

#[test]
fn inserts_carry_their_token() {
    let id = Token { value: 1 };
    let s = create_risk_with_id(id, "n".into(), "d".into());
    assert_eq!(texts(&s.params), vec!["00000000-0000-0000-0000-000000000001", "n", "d"]);
    let (fresh, s2) = create_new_risk("n".into(), "d".into());
    assert_eq!(texts(&s2.params)[0], fresh.text());
    let c = create_countermeasure_with_id(id, "sc".into(), "t".into(), "d".into());
    assert_eq!(texts(&c.params), vec!["00000000-0000-0000-0000-000000000001", "sc", "t", "d", "#0", ""]);
}

#[test]
fn rows_with_tokens_decode() {
    let r = Risk::from_row("550e8400-e29b-41d4-a716-446655440000", "n".into(), "d".into()).unwrap();
    assert_eq!(r.risk_uuid.value, 0x550e8400_e29b_41d4_a716_446655440000);
    assert!(Risk::from_row("bad", "n".into(), "d".into()).is_none());
    let id = "00000000-0000-0000-0000-000000000002";
    let s = Scenario::from_row(id, id, "a".into(), "b".into(), "c".into()).unwrap();
    assert_eq!(s.risk_uuid.value, 2);
    assert!(Scenario::from_row(id, "bad", "a".into(), "b".into(), "c".into()).is_none());
    let sr = ScenarioRisk::from_row(id, 1, 2, 3, 4, 5).unwrap();
    assert_eq!(sr.financial, 5);
    let c = Countermeasure::from_row(id, id, "t".into(), "d".into(), 40, "s".into()).unwrap();
    assert_eq!(c.solved, 40);
    assert!(Countermeasure::from_row("bad", id, "t".into(), "d".into(), 40, "s".into()).is_none());
}
