use satbridge::solvers::cadical::dispatch::{
    rustsat_cadical_cb_add_external_clause_lit, rustsat_cadical_cb_add_reason_clause_lit,
    rustsat_cadical_cb_check_found_model, rustsat_cadical_cb_decide,
    rustsat_cadical_cb_has_external_clause, rustsat_cadical_cb_propagate,
    rustsat_cadical_collect_lits, rustsat_cadical_notify_assignment,
    rustsat_cadical_notify_backtrack, rustsat_cadical_notify_new_decision_level,
    model_assignment, rustsat_ccadical_learn_cb, rustsat_ccadical_terminate_cb,
    verdict_to_ipasir, wish_to_ipasir, Data,
};
use satbridge::solvers::cadical::ipasirup::ExternalPropagate;
use satbridge::solvers::cadical::{decision_from_answer, laziness_to_ipasir, CCaDiCaL, CaDiCaL};
use satbridge::solvers::ControlSignal;
use satbridge::types::{Assignment, Clause, Lit, TernaryVal, Var};
use std::any::Any;
use std::cell::RefCell;
use std::rc::Rc;

/// A propagator that notes what it is told and answers from lists.
#[derive(Default)]
struct Scripted {
    told: Vec<String>,
    decisions: Vec<Option<Lit>>,
    propagations: Vec<Option<Lit>>,
    reasons: Vec<Clause>,
    externals: Vec<Option<Clause>>,
    accepts: bool,
}

impl ExternalPropagate for Scripted {
    fn assignment(&mut self, lit: Lit, is_fixed: bool) {
        self.told.push(format!("assigned {} fixed {}", lit.to_ipasir(), is_fixed));
    }

    fn new_decision_level(&mut self) {
        self.told.push(String::from("new level"));
    }

    fn backtrack(&mut self, new_level: usize) {
        self.told.push(format!("backtrack {}", new_level));
    }

    fn check_found_solution(&mut self, solution: &Assignment) -> bool {
        let values: Vec<TernaryVal> = (0..solution.len() as u32)
            .map(|idx| solution.var_value(Var::new(idx)))
            .collect();
        self.told.push(format!("model {:?}", values));
        self.accepts
    }

    fn decide(&mut self) -> Option<Lit> {
        self.decisions.remove(0)
    }

    fn propagate(&mut self) -> Option<Lit> {
        self.propagations.remove(0)
    }

    fn add_reason_clause(&mut self, propagated_lit: Lit) -> Clause {
        self.told.push(format!("reason for {}", propagated_lit.to_ipasir()));
        self.reasons.remove(0)
    }

    fn add_external_clause(&mut self) -> Option<Clause> {
        self.told.push(String::from("external clause"));
        self.externals.remove(0)
    }
}

/// A propagator that keeps to the defaults and only checks complete
/// assignments.
struct Lazy;

impl ExternalPropagate for Lazy {
    fn is_lazy() -> bool {
        true
    }

    fn assignment(&mut self, _lit: Lit, _is_fixed: bool) {}

    fn new_decision_level(&mut self) {}

    fn backtrack(&mut self, _new_level: usize) {}

    fn check_found_solution(&mut self, _solution: &Assignment) -> bool {
        true
    }

    fn add_external_clause(&mut self) -> Option<Clause> {
        None
    }
}

/// An engine that keeps the session it is given and notes what it is asked.
#[derive(Default)]
struct Engine {
    session: Option<Box<dyn Any>>,
    asked: Rc<RefCell<Vec<String>>>,
}

impl CCaDiCaL for Engine {
    fn ccadical_connect_external_propagator<Prop: ExternalPropagate + 'static>(
        &mut self,
        data: Data<Prop>,
        is_lazy: i32,
    ) {
        self.asked.borrow_mut().push(format!("connect lazy {}", is_lazy));
        self.session = Some(Box::new(data));
    }

    fn ccadical_disconnect_external_propagator<Prop: ExternalPropagate + 'static>(
        &mut self,
    ) -> Option<Data<Prop>> {
        match self.session.take() {
            Some(session) => match session.downcast::<Data<Prop>>() {
                Ok(data) => {
                    self.asked.borrow_mut().push(String::from("disconnect"));
                    Some(*data)
                }
                Err(session) => {
                    self.session = Some(session);
                    None
                }
            },
            None => None,
        }
    }

    fn ccadical_add_observed_var(&mut self, var: i32) {
        self.asked.borrow_mut().push(format!("observe {}", var));
    }

    fn ccadical_remove_observed_var(&mut self, var: i32) {
        self.asked.borrow_mut().push(format!("unobserve {}", var));
    }

    fn ccadical_reset_observed_vars(&mut self) {
        self.asked.borrow_mut().push(String::from("reset"));
    }

    fn ccadical_is_decision(&self, lit: i32) -> i32 {
        self.asked.borrow_mut().push(format!("is decision {}", lit));
        if lit > 0 {
            lit
        } else {
            0
        }
    }
}

fn lit(idx: u32) -> Lit {
    Lit::positive(idx)
}

#[test]
fn session_starts_at_level_zero_with_nothing_pending() {
    let data = Data::new(Scripted::default());
    assert_eq!(data.decision_level(), 0);
    assert!(!data.has_pending_reason());
    assert!(!data.has_pending_external());
    assert!(data.into_prop().told.is_empty());
}

#[test]
fn assignments_reach_the_propagator_as_literals() {
    let mut data = Data::new(Scripted::default());
    rustsat_cadical_notify_assignment(&mut data, 3, 0);
    rustsat_cadical_notify_assignment(&mut data, -8, 1);
    rustsat_cadical_notify_assignment(&mut data, 1, -5);
    assert_eq!(
        data.prop.told,
        vec![
            "assigned 3 fixed false",
            "assigned -8 fixed true",
            "assigned 1 fixed true"
        ]
    );
    assert_eq!(data.decision_level(), 0);
}

#[test]
fn level_follows_new_levels_and_backtracks() {
    let mut data = Data::new(Scripted::default());
    rustsat_cadical_notify_new_decision_level(&mut data);
    rustsat_cadical_notify_new_decision_level(&mut data);
    rustsat_cadical_notify_new_decision_level(&mut data);
    assert_eq!(data.decision_level(), 3);
    rustsat_cadical_notify_backtrack(&mut data, 1);
    assert_eq!(data.decision_level(), 1);
    rustsat_cadical_notify_backtrack(&mut data, 1);
    assert_eq!(data.decision_level(), 1);
    rustsat_cadical_notify_new_decision_level(&mut data);
    assert_eq!(data.decision_level(), 2);
    rustsat_cadical_notify_backtrack(&mut data, 0);
    assert_eq!(data.decision_level(), 0);
    assert_eq!(
        data.prop.told,
        vec![
            "new level",
            "new level",
            "new level",
            "backtrack 1",
            "backtrack 1",
            "new level",
            "backtrack 0"
        ]
    );
}

#[test]
fn model_reaches_the_propagator_as_an_assignment() {
    let mut data = Data::new(Scripted { accepts: true, ..Scripted::default() });
    assert_eq!(rustsat_cadical_cb_check_found_model(&mut data, &[1, -2, 4]), 1);
    data.prop.accepts = false;
    assert_eq!(rustsat_cadical_cb_check_found_model(&mut data, &[-1]), 0);
    assert_eq!(rustsat_cadical_cb_check_found_model(&mut data, &[]), 0);
    assert_eq!(
        data.prop.told,
        vec![
            "model [True, False, DontCare, True]",
            "model [False]",
            "model []"
        ]
    );
}

#[test]
fn wishes_become_wire_integers() {
    let mut data = Data::new(Scripted {
        decisions: vec![Some(lit(4)), None, Some(!lit(0))],
        propagations: vec![None, Some(!lit(9))],
        ..Scripted::default()
    });
    assert_eq!(rustsat_cadical_cb_decide(&mut data), 5);
    assert_eq!(rustsat_cadical_cb_decide(&mut data), 0);
    assert_eq!(rustsat_cadical_cb_decide(&mut data), -1);
    assert_eq!(rustsat_cadical_cb_propagate(&mut data), 0);
    assert_eq!(rustsat_cadical_cb_propagate(&mut data), -10);
    assert_eq!(wish_to_ipasir(None), 0);
    assert_eq!(wish_to_ipasir(Some(lit(2))), 3);
    assert_eq!(wish_to_ipasir(Some(!lit(2))), -3);
}

#[test]
fn default_propagator_has_no_wishes_and_an_empty_reason() {
    let mut data = Data::new(Lazy);
    assert_eq!(rustsat_cadical_cb_decide(&mut data), 0);
    assert_eq!(rustsat_cadical_cb_propagate(&mut data), 0);
    assert_eq!(rustsat_cadical_cb_add_reason_clause_lit(&mut data, 4), 0);
    assert!(!data.has_pending_reason());
    assert_eq!(rustsat_cadical_cb_has_external_clause(&mut data), 0);
}

#[test]
fn reason_clause_is_supplied_literal_by_literal() {
    let mut data = Data::new(Scripted {
        reasons: vec![
            Clause::from_lits(vec![lit(2), !lit(0), lit(5)]),
            Clause::unit(!lit(7)),
        ],
        ..Scripted::default()
    });
    assert_eq!(rustsat_cadical_cb_add_reason_clause_lit(&mut data, 3), 3);
    assert!(data.has_pending_reason());
    assert_eq!(rustsat_cadical_cb_add_reason_clause_lit(&mut data, 3), -1);
    assert_eq!(rustsat_cadical_cb_add_reason_clause_lit(&mut data, 3), 6);
    assert!(data.has_pending_reason());
    assert_eq!(rustsat_cadical_cb_add_reason_clause_lit(&mut data, 3), 0);
    assert!(!data.has_pending_reason());
    assert_eq!(rustsat_cadical_cb_add_reason_clause_lit(&mut data, -8), -8);
    assert_eq!(rustsat_cadical_cb_add_reason_clause_lit(&mut data, -8), 0);
    assert!(!data.has_pending_reason());
    assert_eq!(data.prop.told, vec!["reason for 3", "reason for -8"]);
}

#[test]
fn external_clause_is_supplied_literal_by_literal() {
    let mut data = Data::new(Scripted {
        externals: vec![
            None,
            Some(Clause::binary(!lit(1), lit(3))),
            Some(Clause::new()),
            None,
        ],
        ..Scripted::default()
    });
    assert_eq!(rustsat_cadical_cb_has_external_clause(&mut data), 0);
    assert!(!data.has_pending_external());
    assert_eq!(rustsat_cadical_cb_has_external_clause(&mut data), 1);
    assert!(data.has_pending_external());
    assert_eq!(rustsat_cadical_cb_has_external_clause(&mut data), 1);
    assert_eq!(rustsat_cadical_cb_add_external_clause_lit(&mut data), -2);
    assert_eq!(rustsat_cadical_cb_has_external_clause(&mut data), 1);
    assert_eq!(rustsat_cadical_cb_add_external_clause_lit(&mut data), 4);
    assert!(data.has_pending_external());
    assert_eq!(rustsat_cadical_cb_add_external_clause_lit(&mut data), 0);
    assert!(!data.has_pending_external());
    assert_eq!(rustsat_cadical_cb_has_external_clause(&mut data), 1);
    assert_eq!(rustsat_cadical_cb_add_external_clause_lit(&mut data), 0);
    assert!(!data.has_pending_external());
    assert_eq!(rustsat_cadical_cb_has_external_clause(&mut data), 0);
    assert_eq!(
        data.prop.told,
        vec![
            "external clause",
            "external clause",
            "external clause",
            "external clause"
        ]
    );
}

#[test]
fn literals_are_collected_one_by_one() {
    let mut lits = vec![lit(0)];
    rustsat_cadical_collect_lits(&mut lits, -4);
    rustsat_cadical_collect_lits(&mut lits, 2);
    assert_eq!(lits, vec![lit(0), !lit(3), lit(1)]);
}

#[test]
fn solver_callbacks_of_the_engine() {
    let mut stop = || ControlSignal::Terminate;
    assert_eq!(rustsat_ccadical_terminate_cb(&mut stop), 1);
    let mut go_on = || ControlSignal::Continue;
    assert_eq!(rustsat_ccadical_terminate_cb(&mut go_on), 0);

    let mut seen: Vec<Vec<Lit>> = Vec::new();
    {
        let mut learn = |clause: Vec<Lit>| seen.push(clause);
        rustsat_ccadical_learn_cb(&mut learn, &[-3, 2, 0]);
        rustsat_ccadical_learn_cb(&mut learn, &[0, 9]);
    }
    assert_eq!(seen, vec![vec![!lit(2), lit(1)], vec![]]);
}

#[test]
fn propagator_connects_and_comes_back() {
    let engine = Engine::default();
    let asked = engine.asked.clone();
    let mut solver = CaDiCaL::new(engine);
    assert!(!solver.has_propagator());
    let handle = solver.connect_propagator(Scripted { accepts: true, ..Scripted::default() });
    assert!(solver.has_propagator());
    solver.add_observed_var(Var::new(0));
    solver.add_observed_var(Var::new(6));
    solver.remove_observed_var(Var::new(0));
    solver.reset_observed_vars();
    assert!(solver.is_decision(lit(3)));
    assert!(!solver.is_decision(!lit(3)));
    let propagator = solver.disconnect_propagator(handle).unwrap();
    assert!(propagator.accepts);
    assert!(!solver.has_propagator());
    assert_eq!(
        *asked.borrow(),
        vec![
            "connect lazy 0",
            "observe 1",
            "observe 7",
            "unobserve 1",
            "reset",
            "is decision 4",
            "is decision -4",
            "disconnect"
        ]
    );
}

#[test]
fn lazy_propagator_is_connected_as_lazy() {
    let engine = Engine::default();
    let asked = engine.asked.clone();
    let mut solver = CaDiCaL::new(engine);
    let handle = solver.connect_propagator(Lazy);
    assert!(solver.disconnect_propagator(handle).is_some());
    assert_eq!(*asked.borrow(), vec!["connect lazy 1", "disconnect"]);
}

#[test]
fn nothing_comes_back_where_nothing_is_connected() {
    let engine = Engine::default();
    let asked = engine.asked.clone();
    let mut solver = CaDiCaL::new(engine);
    let handle = solver.connect_propagator(Lazy);
    assert!(solver.disconnect_propagator(handle).is_some());
    let mut other = CaDiCaL::new(Engine::default());
    let stale = other.connect_propagator(Lazy);
    assert!(solver.disconnect_propagator(stale).is_none());
    assert!(!solver.has_propagator());
    assert_eq!(*asked.borrow(), vec!["connect lazy 1", "disconnect"]);
}

#[test]
fn engine_is_not_asked_without_a_propagator() {
    let engine = Engine::default();
    let asked = engine.asked.clone();
    let mut solver = CaDiCaL::new(engine);
    solver.add_observed_var(Var::new(2));
    solver.remove_observed_var(Var::new(2));
    solver.reset_observed_vars();
    assert!(!solver.is_decision(lit(2)));
    assert!(asked.borrow().is_empty());
    let handle = solver.connect_propagator(Lazy);
    solver.add_observed_var(Var::new(2));
    assert!(solver.is_decision(lit(2)));
    assert!(solver.disconnect_propagator(handle).is_some());
    solver.add_observed_var(Var::new(3));
    assert!(!solver.is_decision(lit(2)));
    assert_eq!(
        *asked.borrow(),
        vec!["connect lazy 1", "observe 3", "is decision 3", "disconnect"]
    );
}

#[test]
fn answers_and_flags_become_wire_integers() {
    assert_eq!(verdict_to_ipasir(true), 1);
    assert_eq!(verdict_to_ipasir(false), 0);
    assert_eq!(laziness_to_ipasir(true), 1);
    assert_eq!(laziness_to_ipasir(false), 0);
    assert!(decision_from_answer(1));
    assert!(decision_from_answer(-7));
    assert!(!decision_from_answer(0));
}

#[test]
fn model_becomes_the_assignment_of_its_literals() {
    let solution = model_assignment(&[2, -1, 5]);
    assert_eq!(solution.len(), 5);
    assert_eq!(solution.var_value(Var::new(0)), TernaryVal::False);
    assert_eq!(solution.var_value(Var::new(1)), TernaryVal::True);
    assert_eq!(solution.var_value(Var::new(2)), TernaryVal::DontCare);
    assert_eq!(solution.var_value(Var::new(3)), TernaryVal::DontCare);
    assert_eq!(solution.var_value(Var::new(4)), TernaryVal::True);
    assert_eq!(model_assignment(&[]), Assignment::new());
    assert_eq!(
        model_assignment(&[3, -3]),
        Assignment::from_lits(&vec![lit(2), !lit(2)])
    );
}
