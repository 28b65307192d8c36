use satbridge::solvers::ipasir::{ipasir_learn_cb, ipasir_terminate_cb, Ipasir, IpasirSolver};
use satbridge::solvers::{ControlSignal, SolverError, SolverResult, SolverState};
use satbridge::types::{Clause, Lit, TernaryVal, Var};
use std::cell::Cell;
use std::rc::Rc;

/// What a test can see of its engine after the solver has taken it.
#[derive(Clone, Default)]
struct Probe {
    solve_calls: Rc<Cell<usize>>,
    wire: Rc<std::cell::RefCell<Vec<i32>>>,
    assumed: Rc<std::cell::RefCell<Vec<i32>>>,
}

/// A small engine that follows the protocol: it searches by trying every
/// assignment. Answers can be forced to see what a solver does with an
/// engine that breaks the protocol.
#[derive(Default)]
struct Engine<'a> {
    clauses: Vec<Vec<i32>>,
    open: Vec<i32>,
    assumptions: Vec<i32>,
    model: Vec<bool>,
    failed: Vec<i32>,
    terminate: Option<Box<dyn FnMut() -> ControlSignal + 'a>>,
    learn: Option<(i32, Box<dyn FnMut(Vec<Lit>) + 'a>)>,
    forced_solve: Option<i32>,
    forced_val: Option<i32>,
    forced_failed: Option<i32>,
    probe: Probe,
}

fn holds(model: &[bool], lit: i32) -> bool {
    let value = model[(lit.unsigned_abs() - 1) as usize];
    if lit > 0 {
        value
    } else {
        !value
    }
}

fn find_model(clauses: &[Vec<i32>], assumptions: &[i32]) -> Option<Vec<bool>> {
    let n_vars = clauses
        .iter()
        .flatten()
        .chain(assumptions.iter())
        .map(|lit| lit.unsigned_abs() as usize)
        .max()
        .unwrap_or(0);
    for bits in 0u32..(1u32 << n_vars) {
        let model: Vec<bool> = (0..n_vars).map(|var| bits >> var & 1 == 1).collect();
        if assumptions.iter().all(|lit| holds(&model, *lit))
            && clauses.iter().all(|clause| clause.iter().any(|lit| holds(&model, *lit)))
        {
            return Some(model);
        }
    }
    None
}

impl<'a> Engine<'a> {
    fn with_probe(probe: &Probe) -> Self {
        Engine { probe: probe.clone(), ..Engine::default() }
    }
}

impl<'a> Ipasir<'a> for Engine<'a> {
    fn ipasir_signature(&self) -> &'static str {
        "exhaustive 1.0"
    }

    fn ipasir_add(&mut self, lit_or_zero: i32) {
        self.probe.wire.borrow_mut().push(lit_or_zero);
        if lit_or_zero == 0 {
            let clause = std::mem::take(&mut self.open);
            self.clauses.push(clause);
        } else {
            self.open.push(lit_or_zero);
        }
    }

    fn ipasir_assume(&mut self, lit: i32) {
        self.probe.assumed.borrow_mut().push(lit);
        self.assumptions.push(lit);
    }

    fn ipasir_solve(&mut self) -> i32 {
        self.probe.solve_calls.set(self.probe.solve_calls.get() + 1);
        let assumptions = std::mem::take(&mut self.assumptions);
        if let Some(code) = self.forced_solve {
            self.failed = assumptions;
            return code;
        }
        if let Some(cb) = self.terminate.as_mut() {
            if ipasir_terminate_cb(cb) != 0 {
                return 0;
            }
        }
        if let Some((max_len, cb)) = self.learn.as_mut() {
            for clause in &self.clauses {
                if clause.len() == 1 && *max_len >= 1 {
                    ipasir_learn_cb(cb, &[clause[0], 0]);
                }
            }
        }
        match find_model(&self.clauses, &assumptions) {
            Some(model) => {
                self.model = model;
                10
            }
            None => {
                let mut core = assumptions.clone();
                for lit in &assumptions {
                    let without: Vec<i32> = core.iter().copied().filter(|l| l != lit).collect();
                    if find_model(&self.clauses, &without).is_none() {
                        core = without;
                    }
                }
                self.failed = core;
                20
            }
        }
    }

    fn ipasir_val(&self, lit: i32) -> i32 {
        if let Some(answer) = self.forced_val {
            return answer;
        }
        let var = (lit.unsigned_abs() - 1) as usize;
        if var >= self.model.len() {
            0
        } else if holds(&self.model, lit) {
            lit
        } else {
            -lit
        }
    }

    fn ipasir_failed(&self, lit: i32) -> i32 {
        if let Some(answer) = self.forced_failed {
            return answer;
        }
        i32::from(self.failed.contains(&lit))
    }

    fn ipasir_set_terminate<CB: FnMut() -> ControlSignal + 'a>(&mut self, cb: CB) {
        self.terminate = Some(Box::new(cb));
    }

    fn ipasir_set_learn<CB: FnMut(Vec<Lit>) + 'a>(&mut self, max_len: i32, cb: CB) {
        self.learn = Some((max_len, Box::new(cb)));
    }
}

fn lit(idx: u32) -> Lit {
    Lit::positive(idx)
}

fn state_error(actual: SolverState, required: SolverState) -> SolverError {
    SolverError::State(actual, required)
}

#[test]
fn ipasir_build_destroy() {
    let _solver = IpasirSolver::new(Engine::default());
}

#[test]
fn ipasir_build_two() {
    let _solver1 = IpasirSolver::new(Engine::default());
    let _solver2 = IpasirSolver::new(Engine::default());
}

#[test]
fn tiny_instance() {
    let mut solver = IpasirSolver::new(Engine::default());
    solver.add_binary(lit(0), !lit(1)).unwrap();
    solver.add_binary(lit(1), !lit(2)).unwrap();
    let ret = solver.solve();
    match ret {
        Err(e) => panic!("got error when solving: {}", e.message()),
        Ok(res) => assert_eq!(res, SolverResult::Sat),
    }
}

#[test]
fn termination_callback() {
    let mut solver = IpasirSolver::new(Engine::default());
    solver.add_binary(lit(0), !lit(1)).unwrap();
    solver.add_binary(lit(1), !lit(2)).unwrap();
    solver.add_binary(lit(2), !lit(3)).unwrap();
    solver.add_binary(lit(3), !lit(4)).unwrap();
    solver.add_binary(lit(4), !lit(5)).unwrap();
    solver.add_binary(lit(5), !lit(6)).unwrap();
    solver.add_binary(lit(6), !lit(7)).unwrap();
    solver.add_binary(lit(7), !lit(8)).unwrap();
    solver.add_binary(lit(8), !lit(9)).unwrap();

    solver.set_terminator(|| ControlSignal::Terminate);

    let ret = solver.solve();

    match ret {
        Err(e) => panic!("got error when solving: {}", e.message()),
        Ok(res) => assert_eq!(res, SolverResult::Interrupted),
    }
}

#[test]
fn learner_callback() {
    let mut solver = IpasirSolver::new(Engine::default());
    solver.add_binary(lit(0), !lit(1)).unwrap();
    solver.add_binary(lit(1), !lit(2)).unwrap();
    solver.add_binary(lit(2), !lit(3)).unwrap();
    solver.add_binary(lit(3), !lit(4)).unwrap();
    solver.add_binary(lit(4), !lit(5)).unwrap();
    solver.add_binary(lit(5), !lit(6)).unwrap();
    solver.add_binary(lit(6), !lit(7)).unwrap();
    solver.add_binary(lit(7), !lit(8)).unwrap();
    solver.add_binary(lit(8), !lit(9)).unwrap();
    solver.add_unit(lit(9)).unwrap();
    solver.add_unit(!lit(0)).unwrap();

    let mut cl_len = 0;
    let ret;

    solver.set_learner(
        |clause| {
            cl_len = clause.len();
        },
        10,
    );

    ret = solver.solve();

    drop(solver);

    match ret {
        Err(e) => panic!("got error when solving: {}", e.message()),
        Ok(res) => assert_eq!(res, SolverResult::Unsat),
    }
}

#[test]
fn learner_is_called_during_the_search() {
    let mut lengths: Vec<usize> = Vec::new();
    {
        let mut solver = IpasirSolver::new(Engine::default());
        solver.add_binary(lit(0), !lit(1)).unwrap();
        solver.add_unit(lit(9)).unwrap();
        solver.add_unit(!lit(0)).unwrap();
        solver.set_learner(|clause| lengths.push(clause.len()), 10);
        assert_eq!(solver.solve(), Ok(SolverResult::Sat));
    }
    assert_eq!(lengths, vec![1, 1]);
}

#[test]
fn learner_receives_the_literals_before_the_zero() {
    let mut seen: Vec<Vec<Lit>> = Vec::new();
    {
        let mut cb = |clause: Vec<Lit>| seen.push(clause);
        ipasir_learn_cb(&mut cb, &[3, -1, 7, 0, 5, 0]);
        ipasir_learn_cb(&mut cb, &[0]);
        ipasir_learn_cb(&mut cb, &[-2, 4]);
        ipasir_learn_cb(&mut cb, &[]);
    }
    assert_eq!(
        seen,
        vec![
            vec![lit(2), !lit(0), lit(6)],
            vec![],
            vec![!lit(1), lit(3)],
            vec![],
        ]
    );
}

#[test]
fn terminator_signals_become_wire_codes() {
    let mut polls = 0;
    let mut cb = || {
        polls += 1;
        if polls > 2 {
            ControlSignal::Terminate
        } else {
            ControlSignal::Continue
        }
    };
    assert_eq!(ipasir_terminate_cb(&mut cb), 0);
    assert_eq!(ipasir_terminate_cb(&mut cb), 0);
    assert_eq!(ipasir_terminate_cb(&mut cb), 1);
    assert_eq!(ControlSignal::Continue.to_ipasir(), 0);
    assert_eq!(ControlSignal::Terminate.to_ipasir(), 1);
}

#[test]
fn terminator_that_continues_lets_the_search_finish() {
    let mut solver = IpasirSolver::new(Engine::default());
    solver.add_binary(lit(0), !lit(1)).unwrap();
    solver.set_terminator(|| ControlSignal::Continue);
    assert_eq!(solver.solve(), Ok(SolverResult::Sat));
}

#[test]
fn signature_comes_from_the_engine() {
    let solver = IpasirSolver::<Engine>::default();
    assert_eq!(solver.signature(), "exhaustive 1.0");
}

#[test]
fn add_clause_hands_over_the_wire_form() {
    let probe = Probe::default();
    let mut solver = IpasirSolver::new(Engine::with_probe(&probe));
    let mut clause = Clause::new();
    clause.add(lit(0));
    clause.add(!lit(4));
    clause.add(lit(2));
    solver.add_clause(clause).unwrap();
    solver.add_clause(Clause::new()).unwrap();
    solver.add_unit(!lit(1)).unwrap();
    assert_eq!(*probe.wire.borrow(), vec![1, -5, 3, 0, 0, -2, 0]);
}

#[test]
fn solve_assumps_hands_over_the_assumptions_in_order() {
    let probe = Probe::default();
    let mut solver = IpasirSolver::new(Engine::with_probe(&probe));
    solver.add_binary(lit(0), lit(1)).unwrap();
    solver.solve_assumps(vec![!lit(1), lit(0), lit(3)]).unwrap();
    assert_eq!(*probe.assumed.borrow(), vec![-2, 1, 4]);
    assert_eq!(probe.solve_calls.get(), 1);
}

#[test]
fn state_is_input_after_each_add_clause() {
    let mut solver = IpasirSolver::new(Engine::default());
    solver.add_binary(lit(0), !lit(1)).unwrap();
    assert_eq!(
        solver.lit_val(&lit(0)),
        Err(state_error(SolverState::Input, SolverState::Sat))
    );
    assert_eq!(solver.solve(), Ok(SolverResult::Sat));
    solver.add_unit(lit(1)).unwrap();
    assert_eq!(
        solver.lit_val(&lit(0)),
        Err(state_error(SolverState::Input, SolverState::Sat))
    );
    solver.add_unit(!lit(0)).unwrap();
    assert_eq!(solver.solve(), Ok(SolverResult::Unsat));
    solver.add_unit(lit(5)).unwrap();
    assert_eq!(
        solver.unsat_core(),
        Err(state_error(SolverState::Input, SolverState::Unsat))
    );
}

#[test]
fn second_solve_returns_the_same_without_the_engine() {
    let probe = Probe::default();
    let mut solver = IpasirSolver::new(Engine::with_probe(&probe));
    solver.add_binary(lit(0), !lit(1)).unwrap();
    assert_eq!(solver.solve(), Ok(SolverResult::Sat));
    assert_eq!(probe.solve_calls.get(), 1);
    assert_eq!(solver.solve(), Ok(SolverResult::Sat));
    assert_eq!(probe.solve_calls.get(), 1);
    assert_eq!(solver.n_sat_solves(), 1);

    solver.add_unit(lit(1)).unwrap();
    solver.add_unit(!lit(0)).unwrap();
    assert_eq!(solver.solve(), Ok(SolverResult::Unsat));
    assert_eq!(probe.solve_calls.get(), 2);
    assert_eq!(solver.solve(), Ok(SolverResult::Unsat));
    assert_eq!(probe.solve_calls.get(), 2);
    assert_eq!(solver.n_unsat_solves(), 1);
}

#[test]
fn solve_asks_again_after_an_unsat_result_with_a_core() {
    let probe = Probe::default();
    let mut solver = IpasirSolver::new(Engine::with_probe(&probe));
    solver.add_binary(lit(0), lit(1)).unwrap();
    assert_eq!(
        solver.solve_assumps(vec![!lit(0), !lit(1)]),
        Ok(SolverResult::Unsat)
    );
    assert_eq!(probe.solve_calls.get(), 1);
    assert_eq!(solver.solve(), Ok(SolverResult::Sat));
    assert_eq!(probe.solve_calls.get(), 2);
}

#[test]
fn solve_asks_again_after_an_interrupted_search() {
    let probe = Probe::default();
    let mut solver = IpasirSolver::new(Engine::with_probe(&probe));
    solver.add_unit(lit(0)).unwrap();
    solver.set_terminator(|| ControlSignal::Terminate);
    assert_eq!(solver.solve(), Ok(SolverResult::Interrupted));
    assert_eq!(solver.solve(), Ok(SolverResult::Interrupted));
    assert_eq!(probe.solve_calls.get(), 2);
    assert_eq!(solver.n_terminated(), 2);
}

#[test]
fn core_holds_negated_assumptions_only() {
    let mut solver = IpasirSolver::new(Engine::default());
    solver.add_binary(!lit(0), lit(1)).unwrap();
    solver.add_binary(!lit(1), lit(2)).unwrap();
    let assumps = vec![lit(4), lit(0), !lit(2), lit(3)];
    assert_eq!(
        solver.solve_assumps(assumps.clone()),
        Ok(SolverResult::Unsat)
    );
    let core = solver.unsat_core().unwrap();
    assert_eq!(core, vec![!lit(0), lit(2)]);
    for l in &core {
        assert!(assumps.contains(&!*l));
    }
}

#[test]
fn core_and_value_are_refused_outside_their_states() {
    let mut solver = IpasirSolver::new(Engine::default());
    assert_eq!(
        solver.unsat_core(),
        Err(state_error(SolverState::Input, SolverState::Unsat))
    );
    assert_eq!(
        solver.lit_val(&lit(0)),
        Err(state_error(SolverState::Input, SolverState::Sat))
    );
    solver.add_unit(lit(0)).unwrap();
    assert_eq!(solver.solve(), Ok(SolverResult::Sat));
    assert_eq!(
        solver.unsat_core(),
        Err(state_error(SolverState::Sat, SolverState::Unsat))
    );
    assert_eq!(solver.lit_val(&lit(0)), Ok(TernaryVal::True));
    solver.add_unit(!lit(0)).unwrap();
    assert_eq!(solver.solve(), Ok(SolverResult::Unsat));
    assert_eq!(
        solver.lit_val(&lit(0)),
        Err(state_error(SolverState::Unsat, SolverState::Sat))
    );
    assert_eq!(solver.unsat_core(), Ok(vec![]));
}

#[test]
fn values_follow_the_answers_of_the_engine() {
    let mut solver = IpasirSolver::new(Engine::default());
    solver.add_unit(lit(0)).unwrap();
    solver.add_unit(!lit(1)).unwrap();
    assert_eq!(solver.solve(), Ok(SolverResult::Sat));
    assert_eq!(solver.lit_val(&lit(0)), Ok(TernaryVal::True));
    assert_eq!(solver.lit_val(&!lit(0)), Ok(TernaryVal::False));
    assert_eq!(solver.lit_val(&lit(1)), Ok(TernaryVal::False));
    assert_eq!(solver.lit_val(&!lit(1)), Ok(TernaryVal::True));
    assert_eq!(solver.lit_val(&lit(7)), Ok(TernaryVal::DontCare));
}

#[test]
fn error_state_is_sticky_and_keeps_its_description() {
    let probe = Probe::default();
    let mut engine = Engine::with_probe(&probe);
    engine.forced_solve = Some(7);
    let mut solver = IpasirSolver::new(engine);
    solver.add_unit(lit(0)).unwrap();
    let desc = String::from("ipasir_solve returned invalid value: 7");
    assert_eq!(solver.solve(), Err(SolverError::Api(desc.clone())));
    let sticky = |required: SolverState| state_error(SolverState::Error(desc.clone()), required);
    assert_eq!(solver.solve(), Err(sticky(SolverState::Input)));
    assert_eq!(solver.solve_assumps(vec![lit(0)]), Err(sticky(SolverState::Input)));
    assert_eq!(solver.add_unit(lit(1)), Err(sticky(SolverState::Input)));
    assert_eq!(solver.add_clause(Clause::new()), Err(sticky(SolverState::Input)));
    assert_eq!(solver.lit_val(&lit(0)), Err(sticky(SolverState::Sat)));
    assert_eq!(solver.unsat_core(), Err(sticky(SolverState::Unsat)));
    assert_eq!(solver.solve(), Err(sticky(SolverState::Input)));
    assert_eq!(probe.solve_calls.get(), 1);
    assert_eq!(*probe.wire.borrow(), vec![1, 0]);
    assert_eq!(solver.n_clauses(), 1);
}

#[test]
fn invalid_value_answer_forces_the_error_state() {
    let mut engine = Engine::default();
    engine.forced_val = Some(-9);
    let mut solver = IpasirSolver::new(engine);
    solver.add_unit(lit(0)).unwrap();
    assert_eq!(solver.solve(), Ok(SolverResult::Sat));
    let desc = String::from("ipasir_val returned invalid value: -9");
    assert_eq!(solver.lit_val(&lit(0)), Err(SolverError::Api(desc.clone())));
    assert_eq!(
        solver.lit_val(&lit(0)),
        Err(state_error(SolverState::Error(desc.clone()), SolverState::Sat))
    );
    assert_eq!(
        solver.solve(),
        Err(state_error(SolverState::Error(desc), SolverState::Input))
    );
}

#[test]
fn invalid_failed_answer_forces_the_error_state() {
    let mut engine = Engine::default();
    engine.forced_solve = Some(20);
    engine.forced_failed = Some(2);
    let mut solver = IpasirSolver::new(engine);
    let desc = String::from("ipasir_failed returned invalid value: 2");
    assert_eq!(
        solver.solve_assumps(vec![lit(0), lit(1)]),
        Err(SolverError::Api(desc.clone()))
    );
    assert_eq!(
        solver.unsat_core(),
        Err(state_error(SolverState::Error(desc), SolverState::Unsat))
    );
    assert_eq!(solver.n_unsat_solves(), 1);
}

#[test]
fn three_clauses_then_two_units() {
    let mut solver = IpasirSolver::new(Engine::default());
    solver.add_binary(lit(0), !lit(1)).unwrap();
    solver.add_binary(lit(1), !lit(2)).unwrap();
    assert_eq!(solver.solve(), Ok(SolverResult::Sat));
    solver.add_unit(!lit(0)).unwrap();
    solver.add_unit(lit(2)).unwrap();
    assert_eq!(solver.solve(), Ok(SolverResult::Unsat));
}

#[test]
fn assumptions_give_a_core_within_their_negations() {
    let mut solver = IpasirSolver::new(Engine::default());
    solver.add_binary(lit(1), lit(2)).unwrap();
    solver.add_binary(!lit(1), !lit(2)).unwrap();
    solver.add_binary(!lit(0), !lit(3)).unwrap();
    solver.add_binary(lit(0), !lit(2)).unwrap();
    assert_eq!(
        solver.solve_assumps(vec![!lit(0), !lit(1)]),
        Ok(SolverResult::Unsat)
    );
    let core = solver.unsat_core().unwrap();
    assert!(!core.is_empty());
    for l in &core {
        assert!(*l == lit(0) || *l == lit(1));
    }
}

#[test]
fn counters_follow_the_calls() {
    let mut solver = IpasirSolver::new(Engine::default());
    assert_eq!(solver.n_clauses(), 0);
    assert_eq!(solver.max_var(), None);
    assert_eq!(solver.n_lits(), 0);
    solver.add_binary(lit(3), !lit(1)).unwrap();
    solver.add_unit(lit(2)).unwrap();
    let mut clause = Clause::new();
    clause.add(!lit(8));
    clause.add(lit(0));
    clause.add(lit(5));
    solver.add_clause(clause).unwrap();
    assert_eq!(solver.n_clauses(), 3);
    assert_eq!(solver.max_var(), Some(Var::new(8)));
    assert_eq!(solver.n_lits(), 6);
    assert_eq!(solver.n_lits() as f32 / solver.n_clauses() as f32, 2.0);
    assert_eq!(solver.solve(), Ok(SolverResult::Sat));
    assert_eq!(solver.solve_assumps(vec![!lit(2)]), Ok(SolverResult::Unsat));
    assert_eq!(solver.solve_assumps(vec![lit(2)]), Ok(SolverResult::Sat));
    assert_eq!(solver.n_sat_solves(), 2);
    assert_eq!(solver.n_unsat_solves(), 1);
    assert_eq!(solver.n_terminated(), 0);
}
