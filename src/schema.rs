use vstd::prelude::*;
use vstd::string::*;

verus! {

/// One column that the manifest asks for: its name and its store-native type,
/// which is passed verbatim into DDL.
#[derive(Debug)]
pub struct ColumnSpec {
    pub name: String,
    pub col_type: String,
}

/// One table of the manifest: its name and its columns in declared order.
#[derive(Debug)]
pub struct TableSpec {
    pub name: String,
    pub columns: Vec<ColumnSpec>,
}

/// A schema statement issued by reconciliation.
#[derive(Debug)]
pub enum Ddl {
    CreateTable { table: String, columns: Vec<ColumnSpec> },
    AddColumn { table: String, column: String, col_type: String },
}

pub struct ColumnView {
    pub name: Seq<char>,
    pub col_type: Seq<char>,
}

pub struct TableView {
    pub name: Seq<char>,
    pub columns: Seq<ColumnView>,
}

pub enum DdlView {
    CreateTable { table: Seq<char>, columns: Seq<ColumnView> },
    AddColumn { table: Seq<char>, column: Seq<char>, col_type: Seq<char> },
}

impl View for ColumnSpec {
    type V = ColumnView;

    open spec fn view(&self) -> ColumnView {
        ColumnView { name: self.name@, col_type: self.col_type@ }
    }
}

pub open spec fn columns_view(cols: Seq<ColumnSpec>) -> Seq<ColumnView> {
    cols.map_values(|c: ColumnSpec| c@)
}

impl View for TableSpec {
    type V = TableView;

    open spec fn view(&self) -> TableView {
        TableView { name: self.name@, columns: columns_view(self.columns@) }
    }
}

impl View for Ddl {
    type V = DdlView;

    open spec fn view(&self) -> DdlView {
        match self {
            Ddl::CreateTable { table, columns } => DdlView::CreateTable {
                table: table@,
                columns: columns_view(columns@),
            },
            Ddl::AddColumn { table, column, col_type } => DdlView::AddColumn {
                table: table@,
                column: column@,
                col_type: col_type@,
            },
        }
    }
}

pub open spec fn manifest_view(m: Seq<TableSpec>) -> Seq<TableView> {
    m.map_values(|t: TableSpec| t@)
}

pub open spec fn ddls_view(d: Seq<Ddl>) -> Seq<DdlView> {
    d.map_values(|x: Ddl| x@)
}

impl Clone for ColumnSpec {
    fn clone(&self) -> (r: Self)
        ensures
            r@ == self@,
    {
        ColumnSpec { name: self.name.clone(), col_type: self.col_type.clone() }
    }
}

/// Copies a column list, keeping every name and type.
pub fn copy_columns(cols: &Vec<ColumnSpec>) -> (r: Vec<ColumnSpec>)
    ensures
        columns_view(r@) == columns_view(cols@),
{
    let mut r: Vec<ColumnSpec> = Vec::new();
    let mut i: usize = 0;
    while i < cols.len()
        invariant
            i <= cols.len(),
            r.len() == i,
            forall|k: int| 0 <= k < i ==> r@[k]@ == cols@[k]@,
        decreases cols.len() - i,
    {
        r.push(cols[i].clone());
        i = i + 1;
    }
    assert(columns_view(r@) =~= columns_view(cols@));
    r
}

// ---- DDL text ----

/// `name type` for one column.
pub open spec fn column_def(c: ColumnView) -> Seq<char> {
    c.name + " "@ + c.col_type
}

/// The column definitions in declared order, separated by ", ", with no
/// trailing separator.
pub open spec fn column_list(cols: Seq<ColumnView>) -> Seq<char>
    decreases cols.len(),
{
    if cols.len() == 0 {
        Seq::empty()
    } else if cols.len() == 1 {
        column_def(cols[0])
    } else {
        column_list(cols.drop_last()) + ", "@ + column_def(cols.last())
    }
}

pub open spec fn create_table_sql(table: Seq<char>, cols: Seq<ColumnView>) -> Seq<char> {
    "CREATE TABLE "@ + table + " ("@ + column_list(cols) + ")"@
}

pub open spec fn add_column_sql(table: Seq<char>, column: Seq<char>, col_type: Seq<char>) -> Seq<char> {
    "ALTER TABLE "@ + table + " ADD COLUMN "@ + column + " "@ + col_type
}

pub open spec fn ddl_sql(d: DdlView) -> Seq<char> {
    match d {
        DdlView::CreateTable { table, columns } => create_table_sql(table, columns),
        DdlView::AddColumn { table, column, col_type } => add_column_sql(table, column, col_type),
    }
}

/// The statement that creates a table with the given columns in declared order.
pub fn create_table(table_name: &str, columns: &Vec<ColumnSpec>) -> (r: String)
    ensures
        r@ == create_table_sql(table_name@, columns_view(columns@)),
{
    let mut s = String::from_str("CREATE TABLE ");
    s.append(table_name);
    s.append(" (");
    let mut list = String::new();
    let mut i: usize = 0;
    while i < columns.len()
        invariant
            i <= columns.len(),
            list@ == column_list(columns_view(columns@.take(i as int))),
        decreases columns.len() - i,
    {
        let ghost before = columns_view(columns@.take(i as int));
        if i > 0 {
            list.append(", ");
        }
        list.append(columns[i].name.as_str());
        list.append(" ");
        list.append(columns[i].col_type.as_str());
        i = i + 1;
        proof {
            let now = columns_view(columns@.take(i as int));
            assert(now.drop_last() =~= before);
            assert(now.last() == columns@[i - 1]@);
            if i == 1 {
                assert(before.len() == 0);
            }
        }
    }
    assert(columns@.take(columns.len() as int) =~= columns@);
    s.append(list.as_str());
    s.append(")");
    s
}

/// The statement that adds one column with its declared type.
pub fn add_column(table_name: &str, column_name: &str, column_type: &str) -> (r: String)
    ensures
        r@ == add_column_sql(table_name@, column_name@, column_type@),
{
    let mut s = String::from_str("ALTER TABLE ");
    s.append(table_name);
    s.append(" ADD COLUMN ");
    s.append(column_name);
    s.append(" ");
    s.append(column_type);
    s
}

impl Ddl {
    /// The SQL text of this statement.
    pub fn sql(&self) -> (r: String)
        ensures
            r@ == ddl_sql(self@),
    {
        match self {
            Ddl::CreateTable { table, columns } => create_table(table.as_str(), columns),
            Ddl::AddColumn { table, column, col_type } => add_column(
                table.as_str(),
                column.as_str(),
                col_type.as_str(),
            ),
        }
    }
}


// ---- Live schema ----

/// What the store holds, as far as reconciliation can see: the table names and,
/// per table, the column names.
pub struct SchemaView {
    pub tables: Set<Seq<char>>,
    pub columns: Set<(Seq<char>, Seq<char>)>,
}

/// The (table, column) pairs that a created table brings.
pub open spec fn column_pairs(table: Seq<char>, cols: Seq<ColumnView>) -> Set<(Seq<char>, Seq<char>)> {
    Set::new(
        |p: (Seq<char>, Seq<char>)|
            p.0 == table && exists|j: int| 0 <= j < cols.len() && cols[j].name == p.1,
    )
}

/// The effect of one statement on the store when it succeeds. Creating a table
/// that exists, or adding a column to a table that does not, changes nothing.
pub open spec fn apply_ddl(s: SchemaView, d: DdlView) -> SchemaView {
    match d {
        DdlView::CreateTable { table, columns } => if s.tables.contains(table) {
            s
        } else {
            SchemaView {
                tables: s.tables.insert(table),
                columns: s.columns.union(column_pairs(table, columns)),
            }
        },
        DdlView::AddColumn { table, column, col_type } => if s.tables.contains(table) {
            SchemaView { tables: s.tables, columns: s.columns.insert((table, column)) }
        } else {
            s
        },
    }
}

/// The effect of a sequence of statements, applied in order.
pub open spec fn apply_all(s: SchemaView, ds: Seq<DdlView>) -> SchemaView
    decreases ds.len(),
{
    if ds.len() == 0 {
        s
    } else {
        apply_ddl(apply_all(s, ds.drop_last()), ds.last())
    }
}

/// The add-column statements for the columns whose answer says they are absent,
/// in declared order.
pub open spec fn missing_columns(table: Seq<char>, cols: Seq<ColumnView>, present: Seq<bool>) -> Seq<DdlView>
    decreases cols.len(),
{
    if cols.len() == 0 {
        Seq::empty()
    } else {
        let rest = missing_columns(table, cols.drop_last(), present);
        if present[cols.len() - 1] {
            rest
        } else {
            rest.push(DdlView::AddColumn { table, column: cols.last().name, col_type: cols.last().col_type })
        }
    }
}

/// The statements for one table, given whether the table exists and, when it
/// does, whether each of its columns exists.
pub open spec fn answers_plan(t: TableView, table_present: bool, column_present: Seq<bool>) -> Seq<DdlView> {
    if table_present {
        missing_columns(t.name, t.columns, column_present)
    } else {
        seq![DdlView::CreateTable { table: t.name, columns: t.columns }]
    }
}

/// Whether each column of a table exists in the store.
pub open spec fn column_answers(t: TableView, s: SchemaView) -> Seq<bool> {
    Seq::new(t.columns.len(), |j: int| s.columns.contains((t.name, t.columns[j].name)))
}

/// The statements that reconciliation issues for one table against a store.
pub open spec fn table_plan(t: TableView, s: SchemaView) -> Seq<DdlView> {
    answers_plan(t, s.tables.contains(t.name), column_answers(t, s))
}

/// A whole run over the manifest, table by table in manifest order: the
/// statements issued, and the store after all of them succeeded.
pub open spec fn reconcile_run(m: Seq<TableView>, s: SchemaView) -> (Seq<DdlView>, SchemaView)
    decreases m.len(),
{
    if m.len() == 0 {
        (Seq::empty(), s)
    } else {
        let prev = reconcile_run(m.drop_last(), s);
        let p = table_plan(m.last(), prev.1);
        (prev.0 + p, apply_all(prev.1, p))
    }
}

/// Every table of the manifest exists in the store, with every one of its columns.
pub open spec fn conforms(m: Seq<TableView>, s: SchemaView) -> bool {
    forall|i: int|
        0 <= i < m.len() ==> {
            &&& #[trigger] s.tables.contains(m[i].name)
            &&& forall|j: int|
                0 <= j < m[i].columns.len() ==> #[trigger] s.columns.contains((m[i].name, m[i].columns[j].name))
        }
}

/// Decides the statements for one table from the store's answers: a table that
/// does not exist is created whole; otherwise each column that does not exist
/// is added, in declared order.
pub fn plan_for_table(table: &TableSpec, table_present: bool, column_present: &Vec<bool>) -> (r: Vec<Ddl>)
    requires
        table_present ==> column_present.len() == table.columns.len(),
    ensures
        ddls_view(r@) == answers_plan(table@, table_present, column_present@),
{
    let mut r: Vec<Ddl> = Vec::new();
    if !table_present {
        r.push(Ddl::CreateTable { table: table.name.clone(), columns: copy_columns(&table.columns) });
        assert(ddls_view(r@) =~= answers_plan(table@, table_present, column_present@));
        return r;
    }
    let ghost cols = table@.columns;
    let mut j: usize = 0;
    while j < table.columns.len()
        invariant
            j <= table.columns.len(),
            column_present.len() == table.columns.len(),
            cols == table@.columns,
            ddls_view(r@) == missing_columns(table.name@, cols.take(j as int), column_present@),
        decreases table.columns.len() - j,
    {
        let ghost before = cols.take(j as int);
        if !column_present[j] {
            let c = &table.columns[j];
            r.push(Ddl::AddColumn { table: table.name.clone(), column: c.name.clone(), col_type: c.col_type.clone() });
        }
        j = j + 1;
        proof {
            let now = cols.take(j as int);
            assert(now.drop_last() =~= before);
            assert(ddls_view(r@) =~= missing_columns(table.name@, now, column_present@));
        }
    }
    assert(cols.take(j as int) =~= cols);
    r
}

/// An in-memory picture of a store's schema, on which reconciliation can be run
/// as if every statement succeeded.
pub struct SchemaSnapshot {
    tables: Vec<String>,
    columns: Vec<(String, String)>,
}

pub open spec fn name_set(v: Seq<String>) -> Set<Seq<char>> {
    Set::new(|n: Seq<char>| exists|i: int| 0 <= i < v.len() && #[trigger] v[i]@ == n)
}

pub open spec fn pair_set(v: Seq<(String, String)>) -> Set<(Seq<char>, Seq<char>)> {
    Set::new(
        |p: (Seq<char>, Seq<char>)|
            exists|i: int| 0 <= i < v.len() && (#[trigger] v[i]).0@ == p.0 && v[i].1@ == p.1,
    )
}

proof fn lemma_name_set_push(v: Seq<String>, x: String)
    ensures
        name_set(v.push(x)) == name_set(v).insert(x@),
{
    assert forall|n: Seq<char>| name_set(v.push(x)).contains(n) implies name_set(v).insert(x@).contains(n) by {
        let i = choose|i: int| 0 <= i < v.push(x).len() && #[trigger] v.push(x)[i]@ == n;
        if i < v.len() {
            assert(v[i]@ == n);
        }
    }
    assert forall|n: Seq<char>| name_set(v).insert(x@).contains(n) implies name_set(v.push(x)).contains(n) by {
        if n == x@ {
            assert(v.push(x)[v.len() as int]@ == n);
        } else {
            let i = choose|i: int| 0 <= i < v.len() && #[trigger] v[i]@ == n;
            assert(v.push(x)[i]@ == n);
        }
    }
    assert(name_set(v.push(x)) =~= name_set(v).insert(x@));
}

proof fn lemma_pair_set_push(v: Seq<(String, String)>, x: (String, String))
    ensures
        pair_set(v.push(x)) == pair_set(v).insert((x.0@, x.1@)),
{
    let w = v.push(x);
    assert forall|p: (Seq<char>, Seq<char>)| pair_set(w).contains(p) implies pair_set(v).insert((x.0@, x.1@)).contains(p) by {
        let i = choose|i: int| 0 <= i < w.len() && (#[trigger] w[i]).0@ == p.0 && w[i].1@ == p.1;
        if i < v.len() {
            assert(v[i] == w[i]);
        }
    }
    assert forall|p: (Seq<char>, Seq<char>)| pair_set(v).insert((x.0@, x.1@)).contains(p) implies pair_set(w).contains(p) by {
        if p == (x.0@, x.1@) {
            assert(w[v.len() as int] == x);
        } else {
            let i = choose|i: int| 0 <= i < v.len() && (#[trigger] v[i]).0@ == p.0 && v[i].1@ == p.1;
            assert(w[i] == v[i]);
        }
    }
    assert(pair_set(w) =~= pair_set(v).insert((x.0@, x.1@)));
}

impl View for SchemaSnapshot {
    type V = SchemaView;

    closed spec fn view(&self) -> SchemaView {
        SchemaView { tables: name_set(self.tables@), columns: pair_set(self.columns@) }
    }
}

impl SchemaSnapshot {
    /// A store with no tables.
    pub fn new() -> (r: SchemaSnapshot)
        ensures
            r@.tables == Set::<Seq<char>>::empty(),
            r@.columns == Set::<(Seq<char>, Seq<char>)>::empty(),
    {
        let r = SchemaSnapshot { tables: Vec::new(), columns: Vec::new() };
        assert(r@.tables =~= Set::<Seq<char>>::empty());
        assert(r@.columns =~= Set::<(Seq<char>, Seq<char>)>::empty());
        r
    }

    /// Whether the table exists.
    pub fn has_table(&self, table: &str) -> (r: bool)
        ensures
            r == self@.tables.contains(table@),
    {
        let key = String::from_str(table);
        let mut i: usize = 0;
        while i < self.tables.len()
            invariant
                i <= self.tables.len(),
                key@ == table@,
                forall|k: int| 0 <= k < i ==> self.tables@[k]@ != table@,
            decreases self.tables.len() - i,
        {
            if self.tables[i] == key {
                assert(self.tables@[i as int]@ == table@);
                return true;
            }
            i = i + 1;
        }
        false
    }

    /// Whether the table has the column.
    pub fn has_column(&self, table: &str, column: &str) -> (r: bool)
        ensures
            r == self@.columns.contains((table@, column@)),
    {
        let t = String::from_str(table);
        let c = String::from_str(column);
        let mut i: usize = 0;
        while i < self.columns.len()
            invariant
                i <= self.columns.len(),
                t@ == table@,
                c@ == column@,
                forall|k: int|
                    0 <= k < i ==> !((#[trigger] self.columns@[k]).0@ == table@ && self.columns@[k].1@ == column@),
            decreases self.columns.len() - i,
        {
            if self.columns[i].0 == t && self.columns[i].1 == c {
                assert(self.columns@[i as int].0@ == table@ && self.columns@[i as int].1@ == column@);
                return true;
            }
            i = i + 1;
        }
        false
    }

    /// Records the table and column pairs of a table being created.
    fn insert_table(&mut self, table: &String, cols: &Vec<ColumnSpec>)
        ensures
            final(self)@.tables == old(self)@.tables.insert(table@),
            final(self)@.columns == old(self)@.columns.union(column_pairs(table@, columns_view(cols@))),
    {
        proof { lemma_name_set_push(self.tables@, *table); }
        self.tables.push(table.clone());
        let ghost start = old(self)@.columns;
        let ghost cv = columns_view(cols@);
        let mut j: usize = 0;
        while j < cols.len()
            invariant
                j <= cols.len(),
                cv == columns_view(cols@),
                self@.tables == old(self)@.tables.insert(table@),
                self@.columns == start.union(column_pairs(table@, cv.take(j as int))),
            decreases cols.len() - j,
        {
            let ghost before = cv.take(j as int);
            proof { lemma_pair_set_push(self.columns@, (*table, cols@[j as int].name)); }
            self.columns.push((table.clone(), cols[j].name.clone()));
            j = j + 1;
            proof {
                let now = cv.take(j as int);
                assert forall|p: (Seq<char>, Seq<char>)| column_pairs(table@, now).contains(p)
                    <==> column_pairs(table@, before).insert((table@, cols@[j - 1].name@)).contains(p) by {
                    if column_pairs(table@, now).contains(p) && p != (table@, cols@[j - 1].name@) {
                        let k = choose|k: int| 0 <= k < now.len() && now[k].name == p.1;
                        assert(before[k] == now[k]);
                    }
                    if column_pairs(table@, before).contains(p) {
                        let k = choose|k: int| 0 <= k < before.len() && before[k].name == p.1;
                        assert(before[k] == now[k]);
                    }
                    if p == (table@, cols@[j - 1].name@) {
                        assert(now[j - 1].name == p.1);
                    }
                }
                assert(column_pairs(table@, now) =~= column_pairs(table@, before).insert((table@, cols@[j - 1].name@)));
                assert(self@.columns =~= start.union(column_pairs(table@, now)));
            }
        }
        assert(cv.take(j as int) =~= cv);
    }

    /// Applies one statement as the store would if it succeeded.
    pub fn apply(&mut self, d: &Ddl)
        ensures
            final(self)@ == apply_ddl(old(self)@, d@),
    {
        match d {
            Ddl::CreateTable { table, columns } => {
                if !self.has_table(table.as_str()) {
                    self.insert_table(table, columns);
                }
            },
            Ddl::AddColumn { table, column, col_type } => {
                if self.has_table(table.as_str()) {
                    proof { lemma_pair_set_push(self.columns@, (*table, *column)); }
                    self.columns.push((table.clone(), column.clone()));
                }
            },
        }
    }
}

/// Runs reconciliation over the manifest against the snapshot, table by table
/// in manifest order, applying each statement to the snapshot as it is issued;
/// returns the statements in the order issued.
pub fn reconcile(manifest: &Vec<TableSpec>, live: &mut SchemaSnapshot) -> (r: Vec<Ddl>)
    ensures
        ddls_view(r@) == reconcile_run(manifest_view(manifest@), old(live)@).0,
        final(live)@ == reconcile_run(manifest_view(manifest@), old(live)@).1,
{
    let ghost m = manifest_view(manifest@);
    let ghost s0 = live@;
    let mut r: Vec<Ddl> = Vec::new();
    let mut i: usize = 0;
    while i < manifest.len()
        invariant
            i <= manifest.len(),
            m == manifest_view(manifest@),
            ddls_view(r@) == reconcile_run(m.take(i as int), s0).0,
            live@ == reconcile_run(m.take(i as int), s0).1,
        decreases manifest.len() - i,
    {
        let t = &manifest[i];
        let ghost s1 = live@;
        let present = live.has_table(t.name.as_str());
        let mut answers: Vec<bool> = Vec::new();
        let mut j: usize = 0;
        while j < t.columns.len()
            invariant
                j <= t.columns.len(),
                live@ == s1,
                answers.len() == j,
                forall|k: int| 0 <= k < j ==> answers@[k] == column_answers(t@, s1)[k],
            decreases t.columns.len() - j,
        {
            let a = live.has_column(t.name.as_str(), t.columns[j].name.as_str());
            answers.push(a);
            j = j + 1;
        }
        assert(answers@ =~= column_answers(t@, s1));
        let mut plan = plan_for_table(t, present, &answers);
        let ghost p = ddls_view(plan@);
        let mut k: usize = 0;
        while k < plan.len()
            invariant
                k <= plan.len(),
                p == ddls_view(plan@),
                live@ == apply_all(s1, p.take(k as int)),
            decreases plan.len() - k,
        {
            live.apply(&plan[k]);
            k = k + 1;
            assert(p.take(k as int).drop_last() =~= p.take((k - 1) as int));
        }
        assert(p.take(k as int) =~= p);
        let ghost r_before = ddls_view(r@);
        r.append(&mut plan);
        i = i + 1;
        proof {
            assert(m.take(i as int).drop_last() =~= m.take((i - 1) as int));
            assert(m.take(i as int).last() == t@);
            assert(ddls_view(r@) =~= r_before + p);
        }
    }
    assert(m.take(i as int) =~= m);
    r
}


// ---- Laws of reconciliation ----

proof fn lemma_apply_all_grows(s: SchemaView, ds: Seq<DdlView>)
    ensures
        s.tables.subset_of(apply_all(s, ds).tables),
        s.columns.subset_of(apply_all(s, ds).columns),
    decreases ds.len(),
{
    if ds.len() > 0 {
        lemma_apply_all_grows(s, ds.drop_last());
    }
}

proof fn lemma_apply_all_push(s: SchemaView, ds: Seq<DdlView>, d: DdlView)
    ensures
        apply_all(s, ds.push(d)) == apply_ddl(apply_all(s, ds), d),
{
    assert(ds.push(d).drop_last() =~= ds);
}

proof fn lemma_missing_applied(s: SchemaView, table: Seq<char>, cols: Seq<ColumnView>, present: Seq<bool>)
    requires
        s.tables.contains(table),
    ensures
        apply_all(s, missing_columns(table, cols, present)).tables.contains(table),
        forall|j: int|
            0 <= j < cols.len() && !present[j] ==> apply_all(s, missing_columns(table, cols, present)).columns.contains(
                (table, #[trigger] cols[j].name),
            ),
    decreases cols.len(),
{
    if cols.len() > 0 {
        let rest = missing_columns(table, cols.drop_last(), present);
        lemma_missing_applied(s, table, cols.drop_last(), present);
        lemma_apply_all_grows(s, rest);
        let mid = apply_all(s, rest);
        assert forall|j: int| 0 <= j < cols.len() - 1 && !present[j] implies mid.columns.contains(
            (table, #[trigger] cols[j].name),
        ) by {
            assert(cols.drop_last()[j] == cols[j]);
        }
        if !present[cols.len() - 1] {
            let add = DdlView::AddColumn { table, column: cols.last().name, col_type: cols.last().col_type };
            lemma_apply_all_push(s, rest, add);
        }
    }
}

proof fn lemma_missing_none(table: Seq<char>, cols: Seq<ColumnView>, present: Seq<bool>)
    requires
        forall|j: int| 0 <= j < cols.len() ==> #[trigger] present[j],
    ensures
        missing_columns(table, cols, present) == Seq::<DdlView>::empty(),
    decreases cols.len(),
{
    if cols.len() > 0 {
        lemma_missing_none(table, cols.drop_last(), present);
    }
}

proof fn lemma_table_plan_conforms(t: TableView, s: SchemaView)
    ensures
        apply_all(s, table_plan(t, s)).tables.contains(t.name),
        forall|j: int|
            0 <= j < t.columns.len() ==> apply_all(s, table_plan(t, s)).columns.contains(
                (t.name, #[trigger] t.columns[j].name),
            ),
{
    let p = table_plan(t, s);
    lemma_apply_all_grows(s, p);
    if s.tables.contains(t.name) {
        lemma_missing_applied(s, t.name, t.columns, column_answers(t, s));
    } else {
        let c = DdlView::CreateTable { table: t.name, columns: t.columns };
        lemma_apply_all_push(s, Seq::empty(), c);
        assert(seq![c] =~= Seq::<DdlView>::empty().push(c));
        assert forall|j: int| 0 <= j < t.columns.len() implies column_pairs(t.name, t.columns).contains(
            (t.name, #[trigger] t.columns[j].name),
        ) by {}
    }
}

proof fn lemma_conforms_mono(m: Seq<TableView>, s: SchemaView, s2: SchemaView)
    requires
        conforms(m, s),
        s.tables.subset_of(s2.tables),
        s.columns.subset_of(s2.columns),
    ensures
        conforms(m, s2),
{
    assert forall|i: int| 0 <= i < m.len() implies {
        &&& #[trigger] s2.tables.contains(m[i].name)
        &&& forall|j: int|
            0 <= j < m[i].columns.len() ==> #[trigger] s2.columns.contains((m[i].name, m[i].columns[j].name))
    } by {
        assert(s.tables.contains(m[i].name));
        assert forall|j: int| 0 <= j < m[i].columns.len() implies #[trigger] s2.columns.contains(
            (m[i].name, m[i].columns[j].name),
        ) by {
            assert(s.columns.contains((m[i].name, m[i].columns[j].name)));
        }
    }
}

proof fn lemma_run_conforms(m: Seq<TableView>, s: SchemaView)
    ensures
        conforms(m, reconcile_run(m, s).1),
    decreases m.len(),
{
    if m.len() > 0 {
        let init = m.drop_last();
        let prev = reconcile_run(init, s);
        let t = m.last();
        let p = table_plan(t, prev.1);
        let s2 = apply_all(prev.1, p);
        lemma_run_conforms(init, s);
        lemma_apply_all_grows(prev.1, p);
        lemma_conforms_mono(init, prev.1, s2);
        lemma_table_plan_conforms(t, prev.1);
        assert forall|i: int| 0 <= i < m.len() implies {
            &&& #[trigger] s2.tables.contains(m[i].name)
            &&& forall|j: int|
                0 <= j < m[i].columns.len() ==> #[trigger] s2.columns.contains((m[i].name, m[i].columns[j].name))
        } by {
            if i < m.len() - 1 {
                assert(init[i] == m[i]);
                assert(s2.tables.contains(init[i].name));
                assert forall|j: int| 0 <= j < m[i].columns.len() implies #[trigger] s2.columns.contains(
                    (m[i].name, m[i].columns[j].name),
                ) by {
                    assert(s2.columns.contains((init[i].name, init[i].columns[j].name)));
                }
            } else {
                assert(m[i] == t);
            }
        }
    }
}

/// A store whose schema already holds every table and column of the manifest
/// gets no statement from reconciliation, and stays as it is.
pub proof fn lemma_conforming_store_needs_no_ddl(m: Seq<TableView>, s: SchemaView)
    requires
        conforms(m, s),
    ensures
        reconcile_run(m, s).0 == Seq::<DdlView>::empty(),
        reconcile_run(m, s).1 == s,
    decreases m.len(),
{
    if m.len() > 0 {
        let init = m.drop_last();
        assert forall|i: int| 0 <= i < init.len() implies {
            &&& #[trigger] s.tables.contains(init[i].name)
            &&& forall|j: int|
                0 <= j < init[i].columns.len() ==> #[trigger] s.columns.contains((init[i].name, init[i].columns[j].name))
        } by {
            assert(init[i] == m[i]);
        }
        lemma_conforming_store_needs_no_ddl(init, s);
        let t = m.last();
        assert(t == m[m.len() - 1]);
        assert forall|j: int| 0 <= j < t.columns.len() implies #[trigger] column_answers(t, s)[j] by {
            assert(s.tables.contains(m[m.len() - 1].name));
            assert(s.columns.contains((m[m.len() - 1].name, m[m.len() - 1].columns[j].name)));
        }
        lemma_missing_none(t.name, t.columns, column_answers(t, s));
        assert(Seq::<DdlView>::empty() + Seq::<DdlView>::empty() =~= Seq::<DdlView>::empty());
    }
}

/// Running reconciliation a second time against the store that the first run
/// left (every statement of it having succeeded) issues no statement.
pub proof fn lemma_reconcile_idempotent(m: Seq<TableView>, s: SchemaView)
    ensures
        reconcile_run(m, reconcile_run(m, s).1).0 == Seq::<DdlView>::empty(),
        reconcile_run(m, reconcile_run(m, s).1).1 == reconcile_run(m, s).1,
{
    lemma_run_conforms(m, s);
    lemma_conforming_store_needs_no_ddl(m, reconcile_run(m, s).1);
}

} // verus!
