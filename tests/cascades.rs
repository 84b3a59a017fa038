use matryriska::cascade::{mission_cascade_plan, risk_cascade_plan, BusinessValueAssets, CascadeStep};
use matryriska::ids::Token;
use matryriska::repository::{SqlValue, C1_DELETE_ASSET_BY_ID, C1_DELETE_MISSION_BY_ID, DELETE_RISK};
use std::collections::{HashMap, HashSet};

fn t(v: u128) -> Token {
    Token { value: v }
}

// A small in-memory store on which the steps are carried out.
#[derive(Default)]
struct Store {
    risks: HashSet<u128>,
    scenarios: HashMap<u128, u128>,
    scenario_risks: HashSet<u128>,
    countermeasures: HashMap<u128, u128>,
    missions: HashSet<i32>,
    business_values: HashMap<i32, i32>,
    assets: HashMap<i32, i32>,
}

impl Store {
    fn run(&mut self, step: &CascadeStep) {
        match *step {
            CascadeStep::DeleteRisk(r) => {
                self.risks.remove(&r.value);
            }
            CascadeStep::DeleteScenario(s) => {
                self.scenarios.remove(&s.value);
            }
            CascadeStep::DeleteScenarioRisk(s) => {
                self.scenario_risks.remove(&s.value);
            }
            CascadeStep::DeleteCountermeasuresOf(s) => self.countermeasures.retain(|_, sc| *sc != s.value),
            CascadeStep::DeleteAsset(a) => {
                self.assets.remove(&a);
            }
            CascadeStep::DeleteBusinessValue(b) => {
                self.business_values.remove(&b);
            }
            CascadeStep::DeleteMission(m) => {
                self.missions.remove(&m);
            }
        }
    }
}

#[test]
fn risk_cascade_removes_every_dependent() {
    let n = 3u128;
    let m = 4u128;
    let mut store = Store::default();
    for risk in [1u128, 2u128] {
        store.risks.insert(risk);
        for s in 0..n {
            let sc = risk * 100 + s;
            store.scenarios.insert(sc, risk);
            store.scenario_risks.insert(sc);
            for c in 0..m {
                store.countermeasures.insert(sc * 100 + c, sc);
            }
        }
    }
    let scenarios: Vec<Token> = store.scenarios.iter().filter(|(_, r)| **r == 1).map(|(s, _)| t(*s)).collect();
    let plan = risk_cascade_plan(t(1), &scenarios);
    assert_eq!(plan.len(), 1 + 3 * n as usize);
    assert_eq!(plan[0], CascadeStep::DeleteRisk(t(1)));
    for step in &plan {
        store.run(step);
    }
    assert!(!store.risks.contains(&1));
    assert!(store.scenarios.values().all(|r| *r != 1));
    assert!(store.scenario_risks.iter().all(|s| *s / 100 != 1));
    assert!(store.countermeasures.values().all(|s| *s / 100 != 1));
    assert!(store.risks.contains(&2));
    assert_eq!(store.scenarios.len(), n as usize);
    assert_eq!(store.scenario_risks.len(), n as usize);
    assert_eq!(store.countermeasures.len(), (n * m) as usize);
}

#[test]
fn risk_cascade_order_per_scenario() {
    let plan = risk_cascade_plan(t(9), &vec![t(10), t(11)]);
    assert_eq!(
        plan,
        vec![
            CascadeStep::DeleteRisk(t(9)),
            CascadeStep::DeleteScenario(t(10)),
            CascadeStep::DeleteScenarioRisk(t(10)),
            CascadeStep::DeleteCountermeasuresOf(t(10)),
            CascadeStep::DeleteScenario(t(11)),
            CascadeStep::DeleteScenarioRisk(t(11)),
            CascadeStep::DeleteCountermeasuresOf(t(11)),
        ]
    );
    assert_eq!(risk_cascade_plan(t(9), &Vec::new()), vec![CascadeStep::DeleteRisk(t(9))]);
}

#[test]
fn mission_cascade_removes_every_dependent_and_mission_last() {
    let mut store = Store::default();
    for mission in [1i32, 2] {
        store.missions.insert(mission);
        for b in 0..3 {
            let bv = mission * 10 + b;
            store.business_values.insert(bv, mission);
            for a in 0..2 {
                store.assets.insert(bv * 10 + a, bv);
            }
        }
    }
    let mut read: Vec<BusinessValueAssets> = Vec::new();
    let mut bvs: Vec<i32> = store.business_values.iter().filter(|(_, m)| **m == 1).map(|(b, _)| *b).collect();
    bvs.sort();
    for bv in bvs {
        let mut assets: Vec<i32> = store.assets.iter().filter(|(_, b)| **b == bv).map(|(a, _)| *a).collect();
        assets.sort();
        read.push(BusinessValueAssets { business_value: bv, assets });
    }
    let plan = mission_cascade_plan(1, &read);
    assert_eq!(plan.len(), 3 * 2 + 3 + 1);
    assert_eq!(*plan.last().unwrap(), CascadeStep::DeleteMission(1));
    assert_eq!(plan.iter().filter(|s| matches!(s, CascadeStep::DeleteMission(_))).count(), 1);
    for step in &plan {
        store.run(step);
    }
    assert!(!store.missions.contains(&1));
    assert!(store.business_values.values().all(|m| *m != 1));
    assert!(store.assets.values().all(|b| *b / 10 != 1));
    assert!(store.missions.contains(&2));
    assert_eq!(store.business_values.len(), 3);
    assert_eq!(store.assets.len(), 6);
}

#[test]
fn mission_cascade_order() {
    let read = vec![
        BusinessValueAssets { business_value: 5, assets: vec![50, 51] },
        BusinessValueAssets { business_value: 6, assets: vec![] },
    ];
    assert_eq!(
        mission_cascade_plan(4, &read),
        vec![
            CascadeStep::DeleteAsset(50),
            CascadeStep::DeleteAsset(51),
            CascadeStep::DeleteBusinessValue(5),
            CascadeStep::DeleteBusinessValue(6),
            CascadeStep::DeleteMission(4),
        ]
    );
    assert_eq!(mission_cascade_plan(4, &Vec::new()), vec![CascadeStep::DeleteMission(4)]);
}

#[test]
fn step_statements() {
    let s = CascadeStep::DeleteRisk(t(0x1234)).statement();
    assert_eq!(s.sql, DELETE_RISK);
    match &s.params[..] {
        [SqlValue::Text(id)] => assert_eq!(id, "00000000-0000-0000-0000-000000001234"),
        other => panic!("unexpected parameters {:?}", other),
    }
    let a = CascadeStep::DeleteAsset(42).statement();
    assert_eq!(a.sql, C1_DELETE_ASSET_BY_ID);
    assert!(matches!(a.params[..], [SqlValue::Int(42)]));
    let m = CascadeStep::DeleteMission(3).statement();
    assert_eq!(m.sql, C1_DELETE_MISSION_BY_ID);
    assert!(matches!(m.params[..], [SqlValue::Int(3)]));
}
