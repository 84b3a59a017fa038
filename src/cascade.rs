use vstd::prelude::*;
use crate::ids::{uuid_text, Token};
use crate::repository::{
    c1_delete_asset_by_id, c1_delete_mission_by_id, c1_delete_vm_by_id, delete_countermeasure_from_sc, delete_risk,
    delete_scenario, delete_scenario_risk, ParamView, Statement, StatementView, C1_DELETE_ASSET_BY_ID,
    C1_DELETE_MISSION_BY_ID, C1_DELETE_VM_BY_ID, DELETE_COUNTERMEASURE_FROM_SC, DELETE_RISK, DELETE_SCENARIO,
    DELETE_SCENARIO_RISK,
};

verus! {

/// One delete statement of a cascade. Each runs on its own, without a
/// transaction; its outcome is not waited on by the next.
#[derive(Debug, Clone, Copy, PartialEq, Eq, Structural)]
pub enum CascadeStep {
    /// Deletes the risk row.
    DeleteRisk(Token),
    /// Deletes the scenario row.
    DeleteScenario(Token),
    /// Deletes the rating row of the scenario.
    DeleteScenarioRisk(Token),
    /// Deletes every countermeasure that refers to the scenario.
    DeleteCountermeasuresOf(Token),
    /// Deletes the asset row.
    DeleteAsset(i32),
    /// Deletes the business-value row.
    DeleteBusinessValue(i32),
    /// Deletes the mission row.
    DeleteMission(i32),
}

/// The statement that carries out a step.
pub open spec fn step_statement(step: CascadeStep) -> StatementView {
    match step {
        CascadeStep::DeleteRisk(t) => StatementView {
            sql: DELETE_RISK@,
            params: seq![ParamView::Text(uuid_text(t.value))],
        },
        CascadeStep::DeleteScenario(t) => StatementView {
            sql: DELETE_SCENARIO@,
            params: seq![ParamView::Text(uuid_text(t.value))],
        },
        CascadeStep::DeleteScenarioRisk(t) => StatementView {
            sql: DELETE_SCENARIO_RISK@,
            params: seq![ParamView::Text(uuid_text(t.value))],
        },
        CascadeStep::DeleteCountermeasuresOf(t) => StatementView {
            sql: DELETE_COUNTERMEASURE_FROM_SC@,
            params: seq![ParamView::Text(uuid_text(t.value))],
        },
        CascadeStep::DeleteAsset(a) => StatementView { sql: C1_DELETE_ASSET_BY_ID@, params: seq![ParamView::Int(a)] },
        CascadeStep::DeleteBusinessValue(b) => StatementView {
            sql: C1_DELETE_VM_BY_ID@,
            params: seq![ParamView::Int(b)],
        },
        CascadeStep::DeleteMission(m) => StatementView {
            sql: C1_DELETE_MISSION_BY_ID@,
            params: seq![ParamView::Int(m)],
        },
    }
}

impl CascadeStep {
    /// The delete statement of this step.
    pub fn statement(&self) -> (r: Statement)
        ensures
            r@ == step_statement(*self),
    {
        match *self {
            CascadeStep::DeleteRisk(t) => delete_risk(t.text()),
            CascadeStep::DeleteScenario(t) => delete_scenario(t.text()),
            CascadeStep::DeleteScenarioRisk(t) => delete_scenario_risk(t.text()),
            CascadeStep::DeleteCountermeasuresOf(t) => delete_countermeasure_from_sc(t.text()),
            CascadeStep::DeleteAsset(a) => c1_delete_asset_by_id(a),
            CascadeStep::DeleteBusinessValue(b) => c1_delete_vm_by_id(b),
            CascadeStep::DeleteMission(m) => c1_delete_mission_by_id(m),
        }
    }
}

/// The rows that cascades touch, with their references by convention.
pub struct RecordsView {
    pub risks: Set<Token>,
    /// scenario -> the risk it refers to
    pub scenarios: Map<Token, Token>,
    /// scenarios that have a rating row
    pub scenario_risks: Set<Token>,
    /// countermeasure -> the scenario it refers to
    pub countermeasures: Map<Token, Token>,
    pub missions: Set<i32>,
    /// business value -> the mission it refers to
    pub business_values: Map<i32, i32>,
    /// asset -> the business value it refers to
    pub assets: Map<i32, i32>,
}

/// The effect of one delete statement on the store when it succeeds.
pub open spec fn apply_step(s: RecordsView, step: CascadeStep) -> RecordsView {
    match step {
        CascadeStep::DeleteRisk(r) => RecordsView { risks: s.risks.remove(r), ..s },
        CascadeStep::DeleteScenario(sc) => RecordsView { scenarios: s.scenarios.remove(sc), ..s },
        CascadeStep::DeleteScenarioRisk(sc) => RecordsView { scenario_risks: s.scenario_risks.remove(sc), ..s },
        CascadeStep::DeleteCountermeasuresOf(sc) => RecordsView {
            countermeasures: Map::new(
                |c: Token| s.countermeasures.contains_key(c) && s.countermeasures[c] != sc,
                |c: Token| s.countermeasures[c],
            ),
            ..s
        },
        CascadeStep::DeleteAsset(a) => RecordsView { assets: s.assets.remove(a), ..s },
        CascadeStep::DeleteBusinessValue(b) => RecordsView { business_values: s.business_values.remove(b), ..s },
        CascadeStep::DeleteMission(m) => RecordsView { missions: s.missions.remove(m), ..s },
    }
}

/// The effect of a sequence of steps, run in order, each succeeding.
pub open spec fn apply_steps(s: RecordsView, steps: Seq<CascadeStep>) -> RecordsView
    decreases steps.len(),
{
    if steps.len() == 0 {
        s
    } else {
        apply_step(apply_steps(s, steps.drop_last()), steps.last())
    }
}

/// The steps for one scenario of a deleted risk: the scenario, its rating row,
/// then its countermeasures.
pub open spec fn scenario_steps(sc: Token) -> Seq<CascadeStep> {
    seq![
        CascadeStep::DeleteScenario(sc),
        CascadeStep::DeleteScenarioRisk(sc),
        CascadeStep::DeleteCountermeasuresOf(sc),
    ]
}

pub open spec fn scenarios_steps(scs: Seq<Token>) -> Seq<CascadeStep>
    decreases scs.len(),
{
    if scs.len() == 0 {
        Seq::empty()
    } else {
        scenarios_steps(scs.drop_last()) + scenario_steps(scs.last())
    }
}

/// The risk cascade: the risk row first, then, for each scenario of the risk in
/// the order read, its scenario steps.
pub open spec fn risk_cascade(risk: Token, scs: Seq<Token>) -> Seq<CascadeStep> {
    seq![CascadeStep::DeleteRisk(risk)] + scenarios_steps(scs)
}

/// A business value of a mission with the assets read for it.
#[derive(Debug)]
pub struct BusinessValueAssets {
    pub business_value: i32,
    pub assets: Vec<i32>,
}

impl View for BusinessValueAssets {
    type V = (i32, Seq<i32>);

    open spec fn view(&self) -> (i32, Seq<i32>) {
        (self.business_value, self.assets@)
    }
}

pub open spec fn asset_steps(assets: Seq<i32>) -> Seq<CascadeStep> {
    assets.map_values(|a: i32| CascadeStep::DeleteAsset(a))
}

/// The steps for one business value: each of its assets, then the value itself.
pub open spec fn business_value_steps(bv: (i32, Seq<i32>)) -> Seq<CascadeStep> {
    asset_steps(bv.1).push(CascadeStep::DeleteBusinessValue(bv.0))
}

pub open spec fn business_values_steps(bvs: Seq<(i32, Seq<i32>)>) -> Seq<CascadeStep>
    decreases bvs.len(),
{
    if bvs.len() == 0 {
        Seq::empty()
    } else {
        business_values_steps(bvs.drop_last()) + business_value_steps(bvs.last())
    }
}

/// The mission cascade: each business value with its assets, in the order read,
/// and the mission row last.
pub open spec fn mission_cascade(mission: i32, bvs: Seq<(i32, Seq<i32>)>) -> Seq<CascadeStep> {
    business_values_steps(bvs).push(CascadeStep::DeleteMission(mission))
}

pub open spec fn bvs_view(v: Seq<BusinessValueAssets>) -> Seq<(i32, Seq<i32>)> {
    v.map_values(|b: BusinessValueAssets| b@)
}

/// The delete steps of a risk cascade, given the scenarios that refer to the
/// risk. The risk row goes first (the scenarios are read apart from it, and
/// deleting it does not change them).
pub fn risk_cascade_plan(risk: Token, scenarios: &Vec<Token>) -> (r: Vec<CascadeStep>)
    ensures
        r@ == risk_cascade(risk, scenarios@),
{
    let mut r: Vec<CascadeStep> = Vec::new();
    r.push(CascadeStep::DeleteRisk(risk));
    let mut i: usize = 0;
    while i < scenarios.len()
        invariant
            i <= scenarios.len(),
            r@ == seq![CascadeStep::DeleteRisk(risk)] + scenarios_steps(scenarios@.take(i as int)),
        decreases scenarios.len() - i,
    {
        let ghost before = r@;
        let sc = scenarios[i];
        r.push(CascadeStep::DeleteScenario(sc));
        r.push(CascadeStep::DeleteScenarioRisk(sc));
        r.push(CascadeStep::DeleteCountermeasuresOf(sc));
        i = i + 1;
        proof {
            let now = scenarios@.take(i as int);
            assert(now.drop_last() =~= scenarios@.take(i - 1));
            assert(r@ =~= seq![CascadeStep::DeleteRisk(risk)] + scenarios_steps(now));
        }
    }
    assert(scenarios@.take(i as int) =~= scenarios@);
    r
}

/// The delete steps for one business value alone: each of its assets, then
/// the value itself.
pub fn business_value_cascade_plan(business_value: &BusinessValueAssets) -> (r: Vec<CascadeStep>)
    ensures
        r@ == business_value_steps(business_value@),
{
    let mut r: Vec<CascadeStep> = Vec::new();
    let mut j: usize = 0;
    while j < business_value.assets.len()
        invariant
            j <= business_value.assets.len(),
            r@ == asset_steps(business_value.assets@.take(j as int)),
        decreases business_value.assets.len() - j,
    {
        r.push(CascadeStep::DeleteAsset(business_value.assets[j]));
        j = j + 1;
        assert(r@ =~= asset_steps(business_value.assets@.take(j as int)));
    }
    assert(business_value.assets@.take(j as int) =~= business_value.assets@);
    r.push(CascadeStep::DeleteBusinessValue(business_value.business_value));
    r
}

/// The delete steps of a mission cascade, given the mission's business values
/// and the assets of each. The mission row goes last.
pub fn mission_cascade_plan(mission: i32, business_values: &Vec<BusinessValueAssets>) -> (r: Vec<CascadeStep>)
    ensures
        r@ == mission_cascade(mission, bvs_view(business_values@)),
{
    let ghost all = bvs_view(business_values@);
    let mut r: Vec<CascadeStep> = Vec::new();
    let mut i: usize = 0;
    while i < business_values.len()
        invariant
            i <= business_values.len(),
            all == bvs_view(business_values@),
            r@ == business_values_steps(all.take(i as int)),
        decreases business_values.len() - i,
    {
        let bv = &business_values[i];
        let mut steps = business_value_cascade_plan(bv);
        r.append(&mut steps);
        i = i + 1;
        proof {
            let now = all.take(i as int);
            assert(now.drop_last() =~= all.take(i - 1));
            assert(now.last() == bv@);
            assert(r@ =~= business_values_steps(now));
        }
    }
    assert(all.take(i as int) =~= all);
    r.push(CascadeStep::DeleteMission(mission));
    r
}


// ---- Laws of the cascades ----

pub open spec fn listed<T>(v: Seq<T>) -> Set<T> {
    Set::new(|x: T| v.contains(x))
}

/// The store with the given scenarios gone, with their rating rows and their
/// countermeasures.
pub open spec fn without_scenarios(s: RecordsView, gone: Set<Token>) -> RecordsView {
    RecordsView {
        scenarios: s.scenarios.remove_keys(gone),
        scenario_risks: s.scenario_risks.difference(gone),
        countermeasures: Map::new(
            |c: Token| s.countermeasures.contains_key(c) && !gone.contains(s.countermeasures[c]),
            |c: Token| s.countermeasures[c],
        ),
        ..s
    }
}

pub open spec fn bv_ids(bvs: Seq<(i32, Seq<i32>)>) -> Set<i32> {
    Set::new(|b: i32| exists|i: int| 0 <= i < bvs.len() && #[trigger] bvs[i].0 == b)
}

pub open spec fn asset_ids(bvs: Seq<(i32, Seq<i32>)>) -> Set<i32> {
    Set::new(|a: i32| exists|i: int| 0 <= i < bvs.len() && #[trigger] bvs[i].1.contains(a))
}

proof fn lemma_apply_concat(s: RecordsView, a: Seq<CascadeStep>, b: Seq<CascadeStep>)
    ensures
        apply_steps(s, a + b) == apply_steps(apply_steps(s, a), b),
    decreases b.len(),
{
    if b.len() == 0 {
        assert(a + b =~= a);
    } else {
        assert((a + b).drop_last() =~= a + b.drop_last());
        lemma_apply_concat(s, a, b.drop_last());
    }
}

proof fn lemma_scenarios_steps(s: RecordsView, scs: Seq<Token>)
    ensures
        apply_steps(s, scenarios_steps(scs)) == without_scenarios(s, listed(scs)),
    decreases scs.len(),
{
    if scs.len() == 0 {
        assert(listed(scs) =~= Set::<Token>::empty());
        assert(without_scenarios(s, listed(scs)).scenarios =~= s.scenarios);
        assert(without_scenarios(s, listed(scs)).scenario_risks =~= s.scenario_risks);
        assert(without_scenarios(s, listed(scs)).countermeasures =~= s.countermeasures);
    } else {
        let init = scs.drop_last();
        let x = scs.last();
        lemma_scenarios_steps(s, init);
        lemma_apply_concat(s, scenarios_steps(init), scenario_steps(x));
        let t = without_scenarios(s, listed(init));
        let three = scenario_steps(x);
        assert(three.drop_last() =~= seq![CascadeStep::DeleteScenario(x), CascadeStep::DeleteScenarioRisk(x)]);
        assert(three.drop_last().drop_last() =~= seq![CascadeStep::DeleteScenario(x)]);
        assert(three.drop_last().drop_last().drop_last() =~= Seq::<CascadeStep>::empty());
        let g = listed(init).insert(x);
        assert(listed(scs) =~= g) by {
            assert forall|y: Token| listed(scs).contains(y) <==> g.contains(y) by {
                if scs.contains(y) && y != x {
                    let k = choose|k: int| 0 <= k < scs.len() && scs[k] == y;
                    assert(init[k] == y);
                }
                if init.contains(y) {
                    let k = choose|k: int| 0 <= k < init.len() && init[k] == y;
                    assert(scs[k] == y);
                }
                if y == x {
                    assert(scs[scs.len() - 1] == y);
                }
            }
        }
        let t1 = apply_step(t, CascadeStep::DeleteScenario(x));
        let t2 = apply_step(t1, CascadeStep::DeleteScenarioRisk(x));
        let t3 = apply_step(t2, CascadeStep::DeleteCountermeasuresOf(x));
        assert(apply_steps(t, three.drop_last().drop_last().drop_last()) == t);
        assert(apply_steps(t, three.drop_last().drop_last()) == t1);
        assert(apply_steps(t, three.drop_last()) == t2);
        assert(apply_steps(t, three) == t3);
        let f = t3;
        let w = without_scenarios(s, g);
        assert(f.scenarios =~= w.scenarios);
        assert(f.scenario_risks =~= w.scenario_risks);
        assert(f.countermeasures =~= w.countermeasures);
    }
}

proof fn lemma_asset_steps(s: RecordsView, assets: Seq<i32>)
    ensures
        apply_steps(s, asset_steps(assets)) == (RecordsView { assets: s.assets.remove_keys(listed(assets)), ..s }),
    decreases assets.len(),
{
    if assets.len() == 0 {
        assert(s.assets.remove_keys(listed(assets)) =~= s.assets);
    } else {
        let init = assets.drop_last();
        lemma_asset_steps(s, init);
        assert(asset_steps(assets).drop_last() =~= asset_steps(init));
        assert(listed(assets) =~= listed(init).insert(assets.last())) by {
            assert forall|y: i32| listed(assets).contains(y) <==> listed(init).insert(assets.last()).contains(y) by {
                if assets.contains(y) && y != assets.last() {
                    let k = choose|k: int| 0 <= k < assets.len() && assets[k] == y;
                    assert(init[k] == y);
                }
                if init.contains(y) {
                    let k = choose|k: int| 0 <= k < init.len() && init[k] == y;
                    assert(assets[k] == y);
                }
                if y == assets.last() {
                    assert(assets[assets.len() - 1] == y);
                }
            }
        }
        assert(apply_steps(s, asset_steps(assets)).assets =~= s.assets.remove_keys(listed(assets)));
    }
}

proof fn lemma_business_values_steps(s: RecordsView, bvs: Seq<(i32, Seq<i32>)>)
    ensures
        apply_steps(s, business_values_steps(bvs)) == (RecordsView {
            business_values: s.business_values.remove_keys(bv_ids(bvs)),
            assets: s.assets.remove_keys(asset_ids(bvs)),
            ..s
        }),
    decreases bvs.len(),
{
    if bvs.len() == 0 {
        assert(s.business_values.remove_keys(bv_ids(bvs)) =~= s.business_values);
        assert(s.assets.remove_keys(asset_ids(bvs)) =~= s.assets);
    } else {
        let init = bvs.drop_last();
        let x = bvs.last();
        lemma_business_values_steps(s, init);
        lemma_apply_concat(s, business_values_steps(init), business_value_steps(x));
        let t = apply_steps(s, business_values_steps(init));
        let steps = business_value_steps(x);
        assert(steps.drop_last() =~= asset_steps(x.1));
        lemma_asset_steps(t, x.1);
        assert(bv_ids(bvs) =~= bv_ids(init).insert(x.0)) by {
            assert forall|b: i32| bv_ids(bvs).contains(b) <==> bv_ids(init).insert(x.0).contains(b) by {
                if bv_ids(bvs).contains(b) && b != x.0 {
                    let k = choose|k: int| 0 <= k < bvs.len() && #[trigger] bvs[k].0 == b;
                    assert(init[k].0 == b);
                }
                if bv_ids(init).contains(b) {
                    let k = choose|k: int| 0 <= k < init.len() && #[trigger] init[k].0 == b;
                    assert(bvs[k].0 == b);
                }
                if b == x.0 {
                    assert(bvs[bvs.len() - 1].0 == b);
                }
            }
        }
        assert(asset_ids(bvs) =~= asset_ids(init).union(listed(x.1))) by {
            assert forall|a: i32| asset_ids(bvs).contains(a) <==> asset_ids(init).union(listed(x.1)).contains(a) by {
                if asset_ids(bvs).contains(a) && !x.1.contains(a) {
                    let k = choose|k: int| 0 <= k < bvs.len() && #[trigger] bvs[k].1.contains(a);
                    assert(init[k].1.contains(a));
                }
                if asset_ids(init).contains(a) {
                    let k = choose|k: int| 0 <= k < init.len() && #[trigger] init[k].1.contains(a);
                    assert(bvs[k].1.contains(a));
                }
                if x.1.contains(a) {
                    assert(bvs[bvs.len() - 1].1.contains(a));
                }
            }
        }
        let f = apply_steps(s, business_values_steps(bvs));
        assert(f.business_values =~= s.business_values.remove_keys(bv_ids(bvs)));
        assert(f.assets =~= s.assets.remove_keys(asset_ids(bvs)));
    }
}

/// The risk cascade, run against a store whose scenarios referring to the risk
/// are exactly those read, leaves no scenario of the risk, no rating row and no
/// countermeasure of those scenarios, and no risk row; every other risk,
/// scenario, rating row and countermeasure, and the mission tables, stay as
/// they were.
pub proof fn lemma_risk_cascade_complete(s: RecordsView, risk: Token, scs: Seq<Token>)
    requires
        forall|sc: Token|
            (s.scenarios.contains_key(sc) && s.scenarios[sc] == risk) <==> #[trigger] scs.contains(sc),
    ensures
        ({
            let f = apply_steps(s, risk_cascade(risk, scs));
            &&& f.risks == s.risks.remove(risk)
            &&& forall|sc: Token| #[trigger] f.scenarios.contains_key(sc) ==> f.scenarios[sc] != risk
            &&& forall|sc: Token| #[trigger] scs.contains(sc) ==> !f.scenario_risks.contains(sc)
            &&& forall|c: Token|
                #[trigger] f.countermeasures.contains_key(c) ==> !scs.contains(f.countermeasures[c])
            &&& forall|sc: Token|
                #[trigger] s.scenarios.contains_key(sc) && s.scenarios[sc] != risk ==> f.scenarios.contains_key(sc)
                    && f.scenarios[sc] == s.scenarios[sc]
            &&& forall|sc: Token|
                #[trigger] s.scenario_risks.contains(sc) && !scs.contains(sc) ==> f.scenario_risks.contains(sc)
            &&& forall|c: Token|
                #[trigger] s.countermeasures.contains_key(c) && !scs.contains(s.countermeasures[c])
                    ==> f.countermeasures.contains_key(c) && f.countermeasures[c] == s.countermeasures[c]
            &&& f.missions == s.missions
            &&& f.business_values == s.business_values
            &&& f.assets == s.assets
        }),
{
    let first = seq![CascadeStep::DeleteRisk(risk)];
    lemma_apply_concat(s, first, scenarios_steps(scs));
    assert(first.drop_last() =~= Seq::<CascadeStep>::empty());
    let s1 = apply_steps(s, first);
    assert(apply_steps(s, first.drop_last()) == s);
    assert(first.last() == CascadeStep::DeleteRisk(risk));
    assert(s1 == apply_step(s, CascadeStep::DeleteRisk(risk)));
    lemma_scenarios_steps(s1, scs);
    let f = apply_steps(s, risk_cascade(risk, scs));
    assert(f == without_scenarios(s1, listed(scs)));
    assert(s1.scenarios == s.scenarios);
    assert(s1.countermeasures == s.countermeasures);
    assert forall|sc: Token| #[trigger] f.scenarios.contains_key(sc) implies f.scenarios[sc] != risk by {
        assert(s.scenarios.contains_key(sc) && !listed(scs).contains(sc));
        assert(!scs.contains(sc));
        assert(f.scenarios[sc] == s.scenarios[sc]);
    }
    assert forall|c: Token| #[trigger] f.countermeasures.contains_key(c) implies !scs.contains(f.countermeasures[c]) by {
        assert(s.countermeasures.contains_key(c));
        assert(f.countermeasures[c] == s.countermeasures[c]);
        assert(!listed(scs).contains(s.countermeasures[c]));
    }
    assert forall|sc: Token| #[trigger] scs.contains(sc) implies !f.scenario_risks.contains(sc) by {
        assert(listed(scs).contains(sc));
    }
}

/// The mission cascade, run against a store whose business values of the
/// mission are exactly those read, each with exactly the assets read for it,
/// leaves no business value of the mission, no asset of those business values,
/// and no mission row, which is deleted by the last step and by no other; every
/// other row stays as it was.
pub proof fn lemma_mission_cascade_complete(s: RecordsView, mission: i32, bvs: Seq<(i32, Seq<i32>)>)
    requires
        forall|b: i32|
            (s.business_values.contains_key(b) && s.business_values[b] == mission) <==> #[trigger] bv_ids(bvs).contains(b),
        forall|i: int, a: i32|
            0 <= i < bvs.len() ==> (#[trigger] bvs[i].1.contains(a) <==> (s.assets.contains_key(a) && s.assets[a]
                == bvs[i].0)),
    ensures
        ({
            let steps = mission_cascade(mission, bvs);
            let f = apply_steps(s, steps);
            &&& f.missions == s.missions.remove(mission)
            &&& forall|b: i32| #[trigger] f.business_values.contains_key(b) ==> f.business_values[b] != mission
            &&& forall|a: i32|
                #[trigger] f.assets.contains_key(a) ==> !(s.business_values.contains_key(f.assets[a])
                    && s.business_values[f.assets[a]] == mission)
            &&& steps.last() == CascadeStep::DeleteMission(mission)
            &&& forall|i: int| 0 <= i < steps.len() - 1 ==> #[trigger] steps[i] != CascadeStep::DeleteMission(mission)
            &&& forall|b: i32|
                #[trigger] s.business_values.contains_key(b) && s.business_values[b] != mission
                    ==> f.business_values.contains_key(b) && f.business_values[b] == s.business_values[b]
            &&& forall|a: i32|
                #[trigger] s.assets.contains_key(a) && !(s.business_values.contains_key(s.assets[a])
                    && s.business_values[s.assets[a]] == mission) ==> f.assets.contains_key(a) && f.assets[a]
                    == s.assets[a]
            &&& f.risks == s.risks
            &&& f.scenarios == s.scenarios
            &&& f.scenario_risks == s.scenario_risks
            &&& f.countermeasures == s.countermeasures
        }),
{
    let steps = mission_cascade(mission, bvs);
    let body = business_values_steps(bvs);
    lemma_business_values_steps(s, bvs);
    assert(steps.drop_last() =~= body);
    let f = apply_steps(s, steps);
    // An asset is deleted exactly when its business value is one of the mission's.
    assert forall|a: i32| s.assets.contains_key(a) implies (asset_ids(bvs).contains(a) <==> (
    s.business_values.contains_key(s.assets[a]) && s.business_values[s.assets[a]] == mission)) by {
        if asset_ids(bvs).contains(a) {
            let k = choose|k: int| 0 <= k < bvs.len() && #[trigger] bvs[k].1.contains(a);
            assert(bv_ids(bvs).contains(bvs[k].0));
        }
        if s.business_values.contains_key(s.assets[a]) && s.business_values[s.assets[a]] == mission {
            assert(bv_ids(bvs).contains(s.assets[a]));
            let k = choose|k: int| 0 <= k < bvs.len() && #[trigger] bvs[k].0 == s.assets[a];
            assert(bvs[k].1.contains(a));
        }
    }
    assert forall|i: int| 0 <= i < steps.len() - 1 implies #[trigger] steps[i] != CascadeStep::DeleteMission(mission) by {
        lemma_no_mission_step(bvs, i);
    }
}

proof fn lemma_no_mission_step(bvs: Seq<(i32, Seq<i32>)>, i: int)
    requires
        0 <= i < business_values_steps(bvs).len(),
    ensures
        !(business_values_steps(bvs)[i] is DeleteMission),
    decreases bvs.len(),
{
    let init = bvs.drop_last();
    let prev = business_values_steps(init);
    if i < prev.len() {
        lemma_no_mission_step(init, i);
    } else {
        let x = bvs.last();
        let k = i - prev.len();
        if k < x.1.len() {
            assert(business_value_steps(x)[k] == CascadeStep::DeleteAsset(x.1[k]));
        }
    }
}

} // verus!
