//! A front end for any engine that implements the IPASIR interface for
//! incremental SAT solvers.

use crate::solvers::{
    add_requests, answers_complete, assume_requests, bumped, core_found, core_from_answers,
    failed_questions, failed_requests,
    core_in, core_of, input_refused, lemma_core_negates_assumptions, lemma_core_of_prefix,
    lits_result_view, negates_one_of, result_view, settled, solved, solved_assuming, valued,
    value_refused, ControlSignal, InternalSolverState, InternalSolverStateView, Request,
    SolverError, SolverErrorView, SolverResult,
};
use crate::types::{holds_wire_lits, lits_before_zero, lits_from_wire, wire_lits};
use crate::types::{Clause, Lit, TernaryVal, Var};
use vstd::prelude::*;

verus! {

/// The entry points of an IPASIR engine. Nothing is assumed of what an
/// engine answers: a solver built on one is verified for every answer,
/// those outside the protocol included.
///
/// The callbacks handed over at a registration are invoked by the engine
/// from inside a search, on the calling thread, and from nowhere else. The engine owns them from their registration until it is dropped,
/// and releases its native instance when it is dropped.
pub trait Ipasir<'a> {
    /// The name and the version of the engine.
    fn ipasir_signature(&self) -> &'static str;

    /// Takes the next literal of the clause being submitted, or the zero
    /// that closes it.
    fn ipasir_add(&mut self, lit_or_zero: i32);

    /// Takes an assumption for the next search.
    fn ipasir_assume(&mut self, lit: i32);

    /// Searches, under the assumptions taken since the last search. The
    /// protocol has three answers: 0 for an interrupted
    /// search, 10 for satisfiable, 20 for unsatisfiable.
    fn ipasir_solve(&mut self) -> i32;

    /// The value of a literal under the model found. The protocol has
    /// three answers: the literal, its negation, or 0 where either will do.
    fn ipasir_val(&self, lit: i32) -> i32;

    /// Whether an assumption was used to prove the last result. The
    /// protocol has two answers: 1 if it was, 0 if not.
    fn ipasir_failed(&self, lit: i32) -> i32;

    /// Registers the callback that the engine polls during a search.
    fn ipasir_set_terminate<CB: FnMut() -> ControlSignal + 'a>(&mut self, cb: CB);

    /// Registers the callback that receives the clauses of at most
    /// `max_len` literals which the engine learns during a search.
    fn ipasir_set_learn<CB: FnMut(Vec<Lit>) + 'a>(&mut self, max_len: i32, cb: CB);
}

/// The owner of one engine, and the only way to it. It keeps the record of
/// what it has handed to the engine to change it and to ask about the last
/// search; the question for the engine's name is not on record.
pub struct IpasirHandle<'a, E: Ipasir<'a>> {
    engine: E,
    sent: Ghost<Seq<Request>>,
    scope: core::marker::PhantomData<&'a ()>,
}

impl<'a, E: Ipasir<'a>> IpasirHandle<'a, E> {
    /// The requests and questions handed to the engine so far, in order.
    pub closed spec fn sent(&self) -> Seq<Request> {
        self.sent@
    }

    /// Takes ownership of an engine to which nothing has been handed yet.
    pub fn new(engine: E) -> (handle: Self)
        ensures
            handle.sent() == Seq::<Request>::empty(),
    {
        IpasirHandle { engine, sent: Ghost(Seq::empty()), scope: core::marker::PhantomData }
    }

    /// The name and the version of the engine.
    pub fn signature(&self) -> &'static str {
        self.engine.ipasir_signature()
    }

    /// Hands the engine a literal of the clause being submitted, or the
    /// zero that closes it.
    pub fn add_lit(&mut self, lit_or_zero: i32)
        ensures
            final(self).sent() == old(self).sent().push(Request::Add(lit_or_zero)),
    {
        self.engine.ipasir_add(lit_or_zero);
        self.sent = Ghost(self.sent@.push(Request::Add(lit_or_zero)));
    }

    /// Hands the engine an assumption for the next solve call.
    pub fn assume_lit(&mut self, lit: i32)
        ensures
            final(self).sent() == old(self).sent().push(Request::Assume(lit)),
    {
        self.engine.ipasir_assume(lit);
        self.sent = Ghost(self.sent@.push(Request::Assume(lit)));
    }

    /// Lets the engine search, and returns its answer as it came.
    pub fn solve(&mut self) -> (code: i32)
        ensures
            final(self).sent() == old(self).sent().push(Request::Solve),
    {
        let code: i32 = self.engine.ipasir_solve();
        self.sent = Ghost(self.sent@.push(Request::Solve));
        code
    }

    /// Asks the engine for the value of a literal, and returns its answer
    /// as it came.
    pub fn val(&mut self, lit: i32) -> (answer: i32)
        ensures
            final(self).sent() == old(self).sent().push(Request::Val(lit)),
    {
        let answer: i32 = self.engine.ipasir_val(lit);
        self.sent = Ghost(self.sent@.push(Request::Val(lit)));
        answer
    }

    /// Asks the engine whether an assumption failed, and returns its answer
    /// as it came.
    pub fn failed(&mut self, lit: i32) -> (answer: i32)
        ensures
            final(self).sent() == old(self).sent().push(Request::Failed(lit)),
    {
        let answer: i32 = self.engine.ipasir_failed(lit);
        self.sent = Ghost(self.sent@.push(Request::Failed(lit)));
        answer
    }

    /// Hands the engine the callback to poll during a search.
    pub fn set_terminate<CB: FnMut() -> ControlSignal + 'a>(&mut self, cb: CB)
        ensures
            final(self).sent() == old(self).sent().push(Request::SetTerminate),
    {
        self.engine.ipasir_set_terminate(cb);
        self.sent = Ghost(self.sent@.push(Request::SetTerminate));
    }

    /// Hands the engine the callback for learned clauses of at most
    /// `max_len` literals.
    pub fn set_learn<CB: FnMut(Vec<Lit>) + 'a>(&mut self, max_len: i32, cb: CB)
        ensures
            final(self).sent() == old(self).sent().push(Request::SetLearn(max_len)),
    {
        self.engine.ipasir_set_learn(max_len, cb);
        self.sent = Ghost(self.sent@.push(Request::SetLearn(max_len)));
    }
}

/// The name of the engine's solve call in error descriptions.
pub open spec fn solve_call() -> Seq<char> {
    "ipasir_solve"@
}

/// The name of the engine's value query in error descriptions.
pub open spec fn val_call() -> Seq<char> {
    "ipasir_val"@
}

/// The name of the engine's query for failed assumptions in error
/// descriptions.
pub open spec fn failed_call() -> Seq<char> {
    "ipasir_failed"@
}

/// The highest variable among `highest` and the variables of the literals.
pub open spec fn highest_var(highest: Option<Var>, lits: Seq<Lit>) -> Option<Var>
    decreases lits.len(),
{
    if lits.len() == 0 {
        highest
    } else {
        match highest_var(highest, lits.drop_last()) {
            None => Some(lits.last().variable()),
            Some(var) => if lits.last().var_index() > var@ {
                Some(lits.last().variable())
            } else {
                Some(var)
            },
        }
    }
}

/// The model of an [`IpasirSolver`]: its state, what it has handed to its
/// engine, and its counters.
pub struct IpasirSolverView {
    /// The state of the solver.
    pub state: InternalSolverStateView,
    /// The requests and questions handed to the engine so far, in order.
    pub sent: Seq<Request>,
    /// The number of solve calls that ended satisfiable.
    pub n_sat: u32,
    /// The number of solve calls that ended unsatisfiable.
    pub n_unsat: u32,
    /// The number of solve calls that were interrupted.
    pub n_terminated: u32,
    /// The number of clauses added.
    pub n_clauses: u32,
    /// The highest variable in the clauses added.
    pub max_var: Option<Var>,
    /// The number of literals in the clauses added.
    pub n_lits: u64,
}

impl IpasirSolverView {
    /// The model after a solve call that the engine answered with `code`
    /// has been counted.
    pub open spec fn counted(self, code: i32) -> Self {
        IpasirSolverView {
            n_sat: if code == 10 {
                bumped(self.n_sat as int, u32::MAX as int) as u32
            } else {
                self.n_sat
            },
            n_unsat: if code == 20 {
                bumped(self.n_unsat as int, u32::MAX as int) as u32
            } else {
                self.n_unsat
            },
            n_terminated: if code == 0 {
                bumped(self.n_terminated as int, u32::MAX as int) as u32
            } else {
                self.n_terminated
            },
            ..self
        }
    }

    /// The model after the engine has answered a solve call with `code`;
    /// `state` is the state that follows from the answer.
    pub open spec fn after_solve(self, code: i32, state: InternalSolverStateView) -> Self {
        IpasirSolverView { state, sent: self.sent.push(Request::Solve), ..self.counted(code) }
    }

    /// The model and the result after a solve call without assumptions
    /// that the engine has answered with `code`.
    pub open spec fn solved(self, code: i32) -> (Self, Result<SolverResult, SolverErrorView>) {
        let (state, res) = solved(solve_call(), code as int, Seq::empty());
        (self.after_solve(code, state), res)
    }

    /// The model and the result after a solve call under `assumps` that the
    /// engine has answered with `code` and, where that is unsatisfiable,
    /// the questions for the failed assumptions with `answers`. The engine
    /// has got the assumptions, the solve call, and as many questions as
    /// there are answers.
    pub open spec fn solved_assuming(self, assumps: Seq<Lit>, code: i32, answers: Seq<i32>) -> (
        Self,
        Result<SolverResult, SolverErrorView>,
    ) {
        let (state, res) = solved_assuming(
            solve_call(),
            failed_call(),
            code as int,
            assumps,
            answers,
        );
        let solved = IpasirSolverView {
            sent: self.sent + assume_requests(assumps),
            ..self
        }.after_solve(code, state);
        (
            IpasirSolverView {
                sent: solved.sent + failed_questions(assumps, code as int, answers),
                ..solved
            },
            res,
        )
    }

    /// The model after `clause` has been added.
    pub open spec fn with_clause(self, clause: Seq<Lit>) -> Self {
        IpasirSolverView {
            state: InternalSolverStateView::Input,
            sent: self.sent + add_requests(clause),
            n_clauses: bumped(self.n_clauses as int, u32::MAX as int) as u32,
            max_var: highest_var(self.max_var, clause),
            n_lits: if self.n_lits + clause.len() <= u64::MAX {
                (self.n_lits + clause.len()) as u64
            } else {
                u64::MAX
            },
            ..self
        }
    }
}

/// A solver on an IPASIR engine.
pub struct IpasirSolver<'a, E: Ipasir<'a>> {
    handle: IpasirHandle<'a, E>,
    state: InternalSolverState,
    n_sat: u32,
    n_unsat: u32,
    n_terminated: u32,
    n_clauses: u32,
    max_var: Option<Var>,
    n_lits: u64,
}

impl<'a, E: Ipasir<'a>> View for IpasirSolver<'a, E> {
    type V = IpasirSolverView;

    closed spec fn view(&self) -> IpasirSolverView {
        IpasirSolverView {
            state: self.state@,
            sent: self.handle.sent(),
            n_sat: self.n_sat,
            n_unsat: self.n_unsat,
            n_terminated: self.n_terminated,
            n_clauses: self.n_clauses,
            max_var: self.max_var,
            n_lits: self.n_lits,
        }
    }
}

/// One more event on a counter that stays at its largest value.
fn bump(count: u32) -> (next: u32)
    ensures
        next == bumped(count as int, u32::MAX as int),
{
    if count < u32::MAX {
        count + 1
    } else {
        count
    }
}

impl<'a, E: Ipasir<'a> + Default> Default for IpasirSolver<'a, E> {
    /// A solver on a fresh engine, ready for input, with nothing handed to
    /// the engine and all counters at zero.
    fn default() -> (solver: Self)
        ensures
            solver@ == (IpasirSolverView {
                state: InternalSolverStateView::Input,
                sent: Seq::empty(),
                n_sat: 0,
                n_unsat: 0,
                n_terminated: 0,
                n_clauses: 0,
                max_var: None,
                n_lits: 0,
            }),
    {
        IpasirSolver::new(E::default())
    }
}

impl<'a, E: Ipasir<'a>> IpasirSolver<'a, E> {
    /// A solver on the given engine, ready for input, with nothing handed
    /// to the engine and all counters at zero.
    pub fn new(engine: E) -> (solver: Self)
        ensures
            solver@ == (IpasirSolverView {
                state: InternalSolverStateView::Input,
                sent: Seq::empty(),
                n_sat: 0,
                n_unsat: 0,
                n_terminated: 0,
                n_clauses: 0,
                max_var: None,
                n_lits: 0,
            }),
    {
        IpasirSolver {
            handle: IpasirHandle::new(engine),
            state: InternalSolverState::Input,
            n_sat: 0,
            n_unsat: 0,
            n_terminated: 0,
            n_clauses: 0,
            max_var: None,
            n_lits: 0,
        }
    }

    /// The name and the version of the engine.
    pub fn signature(&self) -> &'static str {
        self.handle.signature()
    }

    /// Counts the result of a solve call that the engine answered with
    /// `code`.
    fn count(&mut self, code: i32)
        ensures
            final(self)@ == old(self)@.counted(code),
    {
        if code == 0 {
            self.n_terminated = bump(self.n_terminated);
        } else if code == 10 {
            self.n_sat = bump(self.n_sat);
        } else if code == 20 {
            self.n_unsat = bump(self.n_unsat);
        }
    }

    /// Asks the engine, for each assumption in turn, whether it failed, and
    /// stops at the first answer outside the protocol. Returns the answers.
    fn failed_answers(&mut self, assumps: &Vec<Lit>) -> (answers: Vec<i32>)
        ensures
            answers_complete(assumps@, answers@),
            final(self)@ == (IpasirSolverView {
                sent: old(self)@.sent + failed_requests(assumps@.take(answers@.len() as int)),
                ..old(self)@
            }),
    {
        let mut answers: Vec<i32> = Vec::new();
        let mut i: usize = 0;
        while i < assumps.len()
            invariant
                i <= assumps.len(),
                answers.len() == i,
                core_of(assumps@, answers@) is Ok,
                self.handle.sent() == old(self).handle.sent() + failed_requests(
                    assumps@.take(i as int),
                ),
                self.state == old(self).state,
                self.n_sat == old(self).n_sat,
                self.n_unsat == old(self).n_unsat,
                self.n_terminated == old(self).n_terminated,
                self.n_clauses == old(self).n_clauses,
                self.max_var == old(self).max_var,
                self.n_lits == old(self).n_lits,
            decreases assumps.len() - i,
        {
            let answer: i32 = self.handle.failed(assumps[i].to_ipasir());
            proof {
                assert(answers@.push(answer).drop_last() == answers@);
                assert(failed_requests(assumps@.take(i + 1)) == failed_requests(
                    assumps@.take(i as int),
                ).push(Request::Failed(assumps@[i as int]@ as i32)));
            }
            answers.push(answer);
            if answer != 0 && answer != 1 {
                return answers;
            }
            i += 1;
        }
        proof {
            if answers.len() > 0 {
                lemma_core_of_prefix(assumps@, answers@);
            }
        }
        answers
    }

    /// The core of the last solve call under `assumps`, which the engine
    /// found unsatisfiable: the negations of the assumptions that, by the
    /// answers of the engine, failed. An answer outside the protocol puts
    /// the solver in the error state.
    fn get_core_assumps(&mut self, assumps: &Vec<Lit>) -> (res: Result<Vec<Lit>, SolverError>)
        ensures
            exists|answers: Seq<i32>|
                {
                    &&& answers_complete(assumps@, answers)
                    &&& (final(self)@.state, #[trigger] lits_result_view(res)) == core_found(
                        old(self)@.state,
                        failed_call(),
                        assumps@,
                        answers,
                    )
                    &&& final(self)@ == (IpasirSolverView {
                        state: final(self)@.state,
                        sent: old(self)@.sent + failed_requests(
                            assumps@.take(answers.len() as int),
                        ),
                        ..old(self)@
                    })
                },
    {
        let answers = self.failed_answers(assumps);
        let res = match core_from_answers(assumps, &answers) {
            Ok(core) => Ok(core),
            Err(invalid) => Err(self.state.fail("ipasir_failed", invalid)),
        };
        proof {
            assert((self@.state, lits_result_view(res)) == core_found(
                old(self)@.state,
                failed_call(),
                assumps@,
                answers@,
            ));
        }
        res
    }

    /// Solves without assumptions. Where the state settles the result, the
    /// engine is not asked and nothing changes. Otherwise the engine
    /// searches, and its answer decides the new state and the result; an
    /// unsatisfiable result has an empty core.
    pub fn solve(&mut self) -> (res: Result<SolverResult, SolverError>)
        ensures
            settled(old(self)@.state) matches Some(r) ==> result_view(res) == r && *final(self)
                == *old(self),
            settled(old(self)@.state) is None ==> exists|code: i32|
                (final(self)@, result_view(res)) == #[trigger] old(self)@.solved(code),
    {
        if let Some(res) = self.state.settled() {
            return res;
        }
        let code: i32 = self.handle.solve();
        self.count(code);
        let res = self.state.record_solve("ipasir_solve", code, Vec::new());
        proof {
            assert((self@, result_view(res)) == old(self)@.solved(code));
        }
        res
    }

    /// The value of a literal under the model found. Outside the
    /// satisfiable state this is an error and nothing changes. In it the
    /// engine is asked, and its answer decides the value; an answer outside
    /// the protocol puts the solver in the error state.
    pub fn lit_val(&mut self, lit: &Lit) -> (res: Result<TernaryVal, SolverError>)
        ensures
            value_refused(old(self)@.state) matches Some(err) ==> result_view(res) == Err::<
                TernaryVal,
                SolverErrorView,
            >(err) && *final(self) == *old(self),
            value_refused(old(self)@.state) is None ==> exists|answer: i32|
                {
                    &&& (final(self)@.state, result_view(res)) == #[trigger] valued(
                        val_call(),
                        lit@,
                        answer as int,
                    )
                    &&& final(self)@ == (IpasirSolverView {
                        state: final(self)@.state,
                        sent: old(self)@.sent.push(Request::Val(lit@ as i32)),
                        ..old(self)@
                    })
                },
    {
        if let Some(err) = self.state.value_refused() {
            return Err(err);
        }
        let answer: i32 = self.handle.val(lit.to_ipasir());
        let res = self.state.record_value("ipasir_val", *lit, answer);
        proof {
            assert((self@.state, result_view(res)) == valued(val_call(), lit@, answer as int));
        }
        res
    }

    /// Adds a clause. In the error state this is an error and nothing
    /// changes. Otherwise the engine gets the literals of the clause in
    /// order and the closing zero, and the solver is ready for input again,
    /// whatever result it had.
    pub fn add_clause(&mut self, clause: Clause) -> (res: Result<(), SolverError>)
        ensures
            input_refused(old(self)@.state) matches Some(err) ==> result_view(res) == Err::<
                (),
                SolverErrorView,
            >(err) && *final(self) == *old(self),
            input_refused(old(self)@.state) is None ==> res is Ok && final(self)@ == old(
                self,
            )@.with_clause(clause@),
    {
        if let Some(err) = self.state.input_refused() {
            return Err(err);
        }
        self.n_clauses = bump(self.n_clauses);
        let len: usize = clause.len();
        self.n_lits = if len as u64 <= u64::MAX - self.n_lits {
            self.n_lits + len as u64
        } else {
            u64::MAX
        };
        self.state = InternalSolverState::Input;
        let mut i: usize = 0;
        while i < len
            invariant
                i <= len == clause@.len(),
                self.max_var == highest_var(old(self).max_var, clause@.take(i as int)),
                self.handle.sent() == old(self).handle.sent() + Seq::new(
                    i as nat,
                    |j: int| Request::Add(clause@[j]@ as i32),
                ),
                self.state == InternalSolverState::Input,
                self.n_sat == old(self).n_sat,
                self.n_unsat == old(self).n_unsat,
                self.n_terminated == old(self).n_terminated,
                self.n_clauses == bumped(old(self).n_clauses as int, u32::MAX as int),
                self.n_lits == old(self)@.with_clause(clause@).n_lits,
            decreases len - i,
        {
            let lit = clause.get(i);
            let var = lit.var();
            proof {
                assert(clause@.take(i + 1).drop_last() == clause@.take(i as int));
            }
            match self.max_var {
                None => {
                    self.max_var = Some(var);
                },
                Some(highest) => {
                    if var.idx() > highest.idx() {
                        self.max_var = Some(var);
                    }
                },
            }
            self.handle.add_lit(lit.to_ipasir());
            i += 1;
        }
        self.handle.add_lit(0);
        proof {
            assert(clause@.take(i as int) == clause@);
            assert(self.handle.sent() == old(self).handle.sent() + add_requests(clause@));
        }
        Ok(())
    }

    /// Adds the clause of one literal.
    pub fn add_unit(&mut self, lit: Lit) -> (res: Result<(), SolverError>)
        ensures
            input_refused(old(self)@.state) matches Some(err) ==> result_view(res) == Err::<
                (),
                SolverErrorView,
            >(err) && *final(self) == *old(self),
            input_refused(old(self)@.state) is None ==> res is Ok && final(self)@ == old(
                self,
            )@.with_clause(seq![lit]),
    {
        self.add_clause(Clause::unit(lit))
    }

    /// Adds the clause of two literals.
    pub fn add_binary(&mut self, lit1: Lit, lit2: Lit) -> (res: Result<(), SolverError>)
        ensures
            input_refused(old(self)@.state) matches Some(err) ==> result_view(res) == Err::<
                (),
                SolverErrorView,
            >(err) && *final(self) == *old(self),
            input_refused(old(self)@.state) is None ==> res is Ok && final(self)@ == old(
                self,
            )@.with_clause(seq![lit1, lit2]),
    {
        self.add_clause(Clause::binary(lit1, lit2))
    }

    /// Solves under assumptions, which hold for this call only. In the
    /// error state this is an error and nothing changes. Otherwise the
    /// engine gets the assumptions in order and searches, whatever result
    /// the solver had, and its answer decides the new state and the result.
    /// For an unsatisfiable result the engine is then asked which
    /// assumptions failed; their negations are the core.
    pub fn solve_assumps(&mut self, assumps: Vec<Lit>) -> (res: Result<SolverResult, SolverError>)
        ensures
            input_refused(old(self)@.state) matches Some(err) ==> result_view(res) == Err::<
                SolverResult,
                SolverErrorView,
            >(err) && *final(self) == *old(self),
            input_refused(old(self)@.state) is None ==> exists|code: i32, answers: Seq<i32>|
                {
                    &&& code == 20 ==> answers_complete(assumps@, answers)
                    &&& (final(self)@, result_view(res)) == #[trigger] old(self)@.solved_assuming(
                        assumps@,
                        code,
                        answers,
                    )
                },
            final(self)@.state matches InternalSolverStateView::Unsat(core) ==> forall|i: int|
                0 <= i < core.len() ==> negates_one_of(#[trigger] core[i], assumps@),
    {
        if let Some(err) = self.state.input_refused() {
            return Err(err);
        }
        let mut i: usize = 0;
        while i < assumps.len()
            invariant
                i <= assumps.len(),
                self.handle.sent() == old(self).handle.sent() + assume_requests(
                    assumps@.take(i as int),
                ),
                self.state == old(self).state,
                self.n_sat == old(self).n_sat,
                self.n_unsat == old(self).n_unsat,
                self.n_terminated == old(self).n_terminated,
                self.n_clauses == old(self).n_clauses,
                self.max_var == old(self).max_var,
                self.n_lits == old(self).n_lits,
            decreases assumps.len() - i,
        {
            self.handle.assume_lit(assumps[i].to_ipasir());
            proof {
                assert(assume_requests(assumps@.take(i + 1)) == assume_requests(
                    assumps@.take(i as int),
                ).push(Request::Assume(assumps@[i as int]@ as i32)));
            }
            i += 1;
        }
        proof {
            assert(assumps@.take(i as int) == assumps@);
        }
        let code: i32 = self.handle.solve();
        self.count(code);
        if code == 20 {
            let ghost before = self@;
            let found = self.get_core_assumps(&assumps);
            let ghost asked = self@;
            match found {
                Ok(core) => {
                    self.state = InternalSolverState::Unsat(core);
                    proof {
                        let answers = choose|answers: Seq<i32>|
                            {
                                &&& answers_complete(assumps@, answers)
                                &&& (before.state, Ok::<Seq<Lit>, SolverErrorView>(core@))
                                    == core_found(before.state, failed_call(), assumps@, answers)
                                &&& asked.sent == before.sent + failed_requests(
                                    assumps@.take(answers.len() as int),
                                )
                            };
                        assert((self@, Ok::<SolverResult, SolverErrorView>(SolverResult::Unsat))
                            == old(self)@.solved_assuming(assumps@, code, answers));
                        lemma_core_negates_assumptions(assumps@, answers);
                    }
                    Ok(SolverResult::Unsat)
                },
                Err(err) => {
                    proof {
                        let answers = choose|answers: Seq<i32>|
                            {
                                &&& answers_complete(assumps@, answers)
                                &&& (self@.state, Err::<Seq<Lit>, SolverErrorView>(err@))
                                    == core_found(before.state, failed_call(), assumps@, answers)
                                &&& asked.sent == before.sent + failed_requests(
                                    assumps@.take(answers.len() as int),
                                )
                            };
                        assert((self@, Err::<SolverResult, SolverErrorView>(err@)) == old(
                            self,
                        )@.solved_assuming(assumps@, code, answers));
                    }
                    Err(err)
                },
            }
        } else {
            let res = self.state.record_solve("ipasir_solve", code, Vec::new());
            proof {
                assert((self@, result_view(res)) == old(self)@.solved_assuming(
                    assumps@,
                    code,
                    Seq::empty(),
                ));
            }
            res
        }
    }

    /// The core of the last solve call: negated assumptions of that call
    /// that suffice for its unsatisfiable result. Outside the unsatisfiable
    /// state this is an error. Nothing changes.
    pub fn unsat_core(&mut self) -> (res: Result<Vec<Lit>, SolverError>)
        ensures
            lits_result_view(res) == core_in(old(self)@.state),
            *final(self) == *old(self),
    {
        self.state.unsat_core()
    }

    /// Registers the callback that the engine polls during a search; when
    /// the callback signals to stop, the solve call ends as interrupted.
    pub fn set_terminator<CB: FnMut() -> ControlSignal + 'a>(&mut self, cb: CB)
        ensures
            final(self)@ == (IpasirSolverView {
                sent: old(self)@.sent.push(Request::SetTerminate),
                ..old(self)@
            }),
    {
        self.handle.set_terminate(cb);
    }

    /// Registers the callback that receives the clauses of at most
    /// `max_len` literals which the engine learns during a search.
    pub fn set_learner<CB: FnMut(Vec<Lit>) + 'a>(&mut self, cb: CB, max_len: usize)
        requires
            max_len <= i32::MAX,
        ensures
            final(self)@ == (IpasirSolverView {
                sent: old(self)@.sent.push(Request::SetLearn(max_len as i32)),
                ..old(self)@
            }),
    {
        self.handle.set_learn(max_len as i32, cb);
    }

    /// The number of solve calls that ended satisfiable.
    pub fn n_sat_solves(&self) -> (n: u32)
        ensures
            n == self@.n_sat,
    {
        self.n_sat
    }

    /// The number of solve calls that ended unsatisfiable.
    pub fn n_unsat_solves(&self) -> (n: u32)
        ensures
            n == self@.n_unsat,
    {
        self.n_unsat
    }

    /// The number of solve calls that were interrupted.
    pub fn n_terminated(&self) -> (n: u32)
        ensures
            n == self@.n_terminated,
    {
        self.n_terminated
    }

    /// The number of clauses added.
    pub fn n_clauses(&self) -> (n: u32)
        ensures
            n == self@.n_clauses,
    {
        self.n_clauses
    }

    /// The highest variable in the clauses added.
    pub fn max_var(&self) -> (var: Option<Var>)
        ensures
            var == self@.max_var,
    {
        self.max_var
    }

    /// The number of literals in the clauses added; divided by the number
    /// of clauses it is their mean length.
    pub fn n_lits(&self) -> (n: u64)
        ensures
            n == self@.n_lits,
    {
        self.n_lits
    }
}

/// Polls a termination callback for the engine: returns 1 if the callback
/// signals to stop, 0 if it signals to go on.
pub fn ipasir_terminate_cb<CB: FnMut() -> ControlSignal>(cb: &mut CB) -> (code: i32)
    requires
        call_requires(*old(cb), ()),
    ensures
        exists|signal: ControlSignal|
            call_ensures(*old(cb), (), signal) && code == #[trigger] signal.wire(),
{
    let signal = cb();
    signal.to_ipasir()
}

/// Hands a learned clause to a callback. The engine gives the clause as a
/// buffer of wire integers closed by a zero; the callback gets the literals
/// in front of that zero, in order, as a vector of its own.
pub fn ipasir_learn_cb<CB: FnMut(Vec<Lit>)>(cb: &mut CB, clause: &[i32])
    requires
        holds_wire_lits(clause@),
        forall|lits: Vec<Lit>| call_requires(*old(cb), (lits,)),
    ensures
        exists|lits: Vec<Lit>|
            {
                &&& #[trigger] wire_lits(lits@) == clause@.take(lits_before_zero(clause@))
                &&& call_ensures(*old(cb), (lits,), ())
            },
{
    cb(lits_from_wire(clause));
}

} // verus!
