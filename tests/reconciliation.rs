use matryriska::schema::{
    add_column, create_table, plan_for_table, reconcile, ColumnSpec, Ddl, SchemaSnapshot, TableSpec,
};

fn col(name: &str, ty: &str) -> ColumnSpec {
    ColumnSpec { name: name.to_string(), col_type: ty.to_string() }
}

fn risk_table() -> TableSpec {
    TableSpec {
        name: "risk".to_string(),
        columns: vec![
            col("risk_uuid", "varchar(36)"),
            col("risk_name", "varchar(255)"),
            col("risk_description", "text"),
        ],
    }
}

fn snapshot_with(tables: Vec<TableSpec>) -> SchemaSnapshot {
    let mut s = SchemaSnapshot::new();
    for t in tables {
        s.apply(&Ddl::CreateTable { table: t.name, columns: t.columns });
    }
    s
}

#[test]
fn missing_table_is_created_whole_in_declared_order() {
    let manifest = vec![risk_table()];
    let mut live = SchemaSnapshot::new();
    let ddl = reconcile(&manifest, &mut live);
    assert_eq!(ddl.len(), 1);
    match &ddl[0] {
        Ddl::CreateTable { table, columns } => {
            assert_eq!(table, "risk");
            let names: Vec<&str> = columns.iter().map(|c| c.name.as_str()).collect();
            assert_eq!(names, vec!["risk_uuid", "risk_name", "risk_description"]);
        }
        other => panic!("unexpected statement {:?}", other),
    }
    assert_eq!(
        ddl[0].sql(),
        "CREATE TABLE risk (risk_uuid varchar(36), risk_name varchar(255), risk_description text)"
    );
    assert!(!ddl.iter().any(|d| matches!(d, Ddl::AddColumn { .. })));
    assert!(live.has_table("risk"));
    assert!(live.has_column("risk", "risk_description"));
}

#[test]
fn missing_column_is_added_alone() {
    let manifest = vec![risk_table()];
    let mut live = snapshot_with(vec![TableSpec {
        name: "risk".to_string(),
        columns: vec![col("risk_uuid", "varchar(36)"), col("risk_name", "varchar(255)")],
    }]);
    let ddl = reconcile(&manifest, &mut live);
    assert_eq!(ddl.len(), 1);
    match &ddl[0] {
        Ddl::AddColumn { table, column, col_type } => {
            assert_eq!(table, "risk");
            assert_eq!(column, "risk_description");
            assert_eq!(col_type, "text");
        }
        other => panic!("unexpected statement {:?}", other),
    }
    assert_eq!(ddl[0].sql(), "ALTER TABLE risk ADD COLUMN risk_description text");
    assert!(live.has_column("risk", "risk_description"));
}

#[test]
fn second_run_issues_nothing() {
    let manifest = vec![
        risk_table(),
        TableSpec { name: "c1_mission".to_string(), columns: vec![col("mission_id", "int"), col("mission_name", "text")] },
    ];
    let mut live = snapshot_with(vec![TableSpec { name: "risk".to_string(), columns: vec![col("risk_uuid", "varchar(36)")] }]);
    let first = reconcile(&manifest, &mut live);
    assert_eq!(first.len(), 3);
    let second = reconcile(&manifest, &mut live);
    assert!(second.is_empty());
}

#[test]
fn superset_store_issues_nothing() {
    let manifest = vec![risk_table()];
    let mut wider = risk_table();
    wider.columns.push(col("extra", "int"));
    let mut live = snapshot_with(vec![
        wider,
        TableSpec { name: "other".to_string(), columns: vec![col("x", "int")] },
    ]);
    let ddl = reconcile(&manifest, &mut live);
    assert!(ddl.is_empty());
    assert!(live.has_column("risk", "extra"));
    assert!(live.has_table("other"));
}

#[test]
fn empty_manifest_issues_nothing() {
    let mut live = SchemaSnapshot::new();
    assert!(reconcile(&Vec::new(), &mut live).is_empty());
    assert!(!live.has_table("risk"));
}

#[test]
fn plan_for_table_follows_the_answers() {
    let t = risk_table();
    let absent = plan_for_table(&t, false, &Vec::new());
    assert_eq!(absent.len(), 1);
    assert!(matches!(absent[0], Ddl::CreateTable { .. }));
    let some_missing = plan_for_table(&t, true, &vec![false, true, false]);
    let added: Vec<String> = some_missing
        .iter()
        .map(|d| match d {
            Ddl::AddColumn { column, .. } => column.clone(),
            other => panic!("unexpected statement {:?}", other),
        })
        .collect();
    assert_eq!(added, vec!["risk_uuid".to_string(), "risk_description".to_string()]);
    assert!(plan_for_table(&t, true, &vec![true, true, true]).is_empty());
}

#[test]
fn ddl_text_shapes() {
    assert_eq!(create_table("t", &vec![col("a", "int")]), "CREATE TABLE t (a int)");
    assert_eq!(create_table("t", &Vec::new()), "CREATE TABLE t ()");
    assert_eq!(
        create_table("t", &vec![col("a", "int"), col("b", "varchar(\"x\")")]),
        "CREATE TABLE t (a int, b varchar(\"x\"))"
    );
    assert_eq!(add_column("t", "c", "text"), "ALTER TABLE t ADD COLUMN c text");
}

#[test]
fn snapshot_lookups() {
    let live = snapshot_with(vec![risk_table()]);
    assert!(live.has_table("risk"));
    assert!(!live.has_table("scenario"));
    assert!(live.has_column("risk", "risk_name"));
    assert!(!live.has_column("risk", "risk_note"));
    assert!(!live.has_column("scenario", "risk_name"));
}
