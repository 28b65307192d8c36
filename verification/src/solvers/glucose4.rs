//! A front end for the Glucose 4 engine without preprocessing.

use crate::solvers::{
    add_requests, answers_complete, assume_requests, core_found, core_from_answers, core_in,
    failed_questions, failed_requests,
    core_of, input_refused, lemma_core_negates_assumptions, lemma_core_of_prefix,
    lits_result_view, negates_one_of, result_view, settled, solved,
    solved_assuming, valued, value_refused, InternalSolverState, InternalSolverStateView, Limit,
    Request, SolverError, SolverErrorView, SolverResult, SolverStats,
};
use crate::timing::{cpu_time_now, nanos_since};
use crate::types::{Clause, Lit, TernaryVal, Var};
use vstd::prelude::*;

verus! {

/// The entry points of a Glucose 4 engine. Nothing is assumed of what an
/// engine answers: a solver built on one is verified for every answer,
/// those outside the protocol included. An engine releases its native
/// instance when it is dropped.
pub trait Glucose4 {
    /// The name and the version of the engine.
    fn cglucose4_signature(&self) -> &'static str;

    /// Takes the next literal of the clause being submitted, or the zero
    /// that closes it.
    fn cglucose4_add(&mut self, lit_or_zero: i32);

    /// Takes an assumption for the next search.
    fn cglucose4_assume(&mut self, lit: i32);

    /// Searches, under the assumptions taken since the last search. The
    /// protocol has three answers: 0 for an interrupted search, 10 for
    /// satisfiable, 20 for unsatisfiable.
    fn cglucose4_solve(&mut self) -> i32;

    /// The value of a literal under the model found. The protocol has
    /// three answers: the literal, its negation, or 0 where either will do.
    fn cglucose4_val(&self, lit: i32) -> i32;

    /// Whether an assumption was used to prove the last result. The
    /// protocol has two answers: 1 if it was, 0 if not.
    fn cglucose4_failed(&self, lit: i32) -> i32;

    /// The number of literals that are assigned.
    fn cglucose4_n_assigns(&self) -> i32;

    /// The number of clauses that the engine holds.
    fn cglucose4_n_clauses(&self) -> i32;

    /// The number of clauses that the engine has learned.
    fn cglucose4_n_learnts(&self) -> i32;

    /// The number of variables that the engine knows.
    fn cglucose4_n_vars(&self) -> i32;

    /// Limits the conflicts of a search; a negative limit is none.
    fn cglucose4_set_conf_limit(&mut self, limit: i64);

    /// Limits the propagations of a search; a negative limit is none.
    fn cglucose4_set_prop_limit(&mut self, limit: i64);

    /// Lifts all limits.
    fn cglucose4_set_no_limit(&mut self);

    /// Asks the running search to stop.
    fn cglucose4_interrupt(&mut self);

    /// The number of propagations so far.
    fn cglucose4_propagations(&self) -> u64;

    /// The number of decisions so far.
    fn cglucose4_decisions(&self) -> u64;

    /// The number of conflicts so far.
    fn cglucose4_conflicts(&self) -> u64;
}

/// The owner of one engine, and the only way to it. It keeps the record of
/// what it has handed to the engine to change it and to ask about the last
/// search; what it asks of the engine's name and counters is not on record.
pub struct Glucose4Handle<E: Glucose4> {
    engine: E,
    sent: Ghost<Seq<Request>>,
}

impl<E: Glucose4> Glucose4Handle<E> {
    /// The requests and questions handed to the engine so far, in order.
    pub closed spec fn sent(&self) -> Seq<Request> {
        self.sent@
    }

    /// Takes ownership of an engine to which nothing has been handed yet.
    pub fn new(engine: E) -> (handle: Self)
        ensures
            handle.sent() == Seq::<Request>::empty(),
    {
        Glucose4Handle { engine, sent: Ghost(Seq::empty()) }
    }

    /// The name and the version of the engine.
    pub fn signature(&self) -> &'static str {
        self.engine.cglucose4_signature()
    }

    /// Hands the engine a literal of the clause being submitted, or the
    /// zero that closes it.
    pub fn add_lit(&mut self, lit_or_zero: i32)
        ensures
            final(self).sent() == old(self).sent().push(Request::Add(lit_or_zero)),
    {
        self.engine.cglucose4_add(lit_or_zero);
        self.sent = Ghost(self.sent@.push(Request::Add(lit_or_zero)));
    }

    /// Hands the engine an assumption for the next solve call.
    pub fn assume_lit(&mut self, lit: i32)
        ensures
            final(self).sent() == old(self).sent().push(Request::Assume(lit)),
    {
        self.engine.cglucose4_assume(lit);
        self.sent = Ghost(self.sent@.push(Request::Assume(lit)));
    }

    /// Lets the engine search, and returns its answer as it came.
    pub fn solve(&mut self) -> (code: i32)
        ensures
            final(self).sent() == old(self).sent().push(Request::Solve),
    {
        let code: i32 = self.engine.cglucose4_solve();
        self.sent = Ghost(self.sent@.push(Request::Solve));
        code
    }

    /// Asks the engine for the value of a literal, and returns its answer
    /// as it came.
    pub fn val(&mut self, lit: i32) -> (answer: i32)
        ensures
            final(self).sent() == old(self).sent().push(Request::Val(lit)),
    {
        let answer: i32 = self.engine.cglucose4_val(lit);
        self.sent = Ghost(self.sent@.push(Request::Val(lit)));
        answer
    }

    /// Asks the engine whether an assumption failed, and returns its answer
    /// as it came.
    pub fn failed(&mut self, lit: i32) -> (answer: i32)
        ensures
            final(self).sent() == old(self).sent().push(Request::Failed(lit)),
    {
        let answer: i32 = self.engine.cglucose4_failed(lit);
        self.sent = Ghost(self.sent@.push(Request::Failed(lit)));
        answer
    }

    /// Hands the engine a limit: the request that the limit stands for.
    pub fn set_limit(&mut self, limit: Limit)
        ensures
            final(self).sent() == old(self).sent().push(limit_request(limit)),
    {
        match limit {
            Limit::NoLimit => {
                self.engine.cglucose4_set_no_limit();
            },
            Limit::Conflicts(limit) => {
                self.engine.cglucose4_set_conf_limit(limit);
            },
            Limit::Propagations(limit) => {
                self.engine.cglucose4_set_prop_limit(limit);
            },
        }
        self.sent = Ghost(self.sent@.push(limit_request(limit)));
    }

    /// Asks the running search to stop.
    pub fn interrupt(&mut self)
        ensures
            final(self).sent() == old(self).sent().push(Request::Interrupt),
    {
        self.engine.cglucose4_interrupt();
        self.sent = Ghost(self.sent@.push(Request::Interrupt));
    }

    /// The engine's number of assigned literals, as it came.
    pub fn n_assigns(&self) -> i32 {
        self.engine.cglucose4_n_assigns()
    }

    /// The engine's number of clauses, as it came.
    pub fn n_clauses(&self) -> i32 {
        self.engine.cglucose4_n_clauses()
    }

    /// The engine's number of learned clauses, as it came.
    pub fn n_learnts(&self) -> i32 {
        self.engine.cglucose4_n_learnts()
    }

    /// The engine's number of variables, as it came.
    pub fn n_vars(&self) -> i32 {
        self.engine.cglucose4_n_vars()
    }

    /// The engine's number of propagations, as it came.
    pub fn propagations(&self) -> u64 {
        self.engine.cglucose4_propagations()
    }

    /// The engine's number of decisions, as it came.
    pub fn decisions(&self) -> u64 {
        self.engine.cglucose4_decisions()
    }

    /// The engine's number of conflicts, as it came.
    pub fn conflicts(&self) -> u64 {
        self.engine.cglucose4_conflicts()
    }
}

/// The request that sets a limit.
pub open spec fn limit_request(limit: Limit) -> Request {
    match limit {
        Limit::NoLimit => Request::SetNoLimit,
        Limit::Conflicts(limit) => Request::SetConfLimit(limit),
        Limit::Propagations(limit) => Request::SetPropLimit(limit),
    }
}

/// The name of the engine's solve call in error descriptions.
pub open spec fn solve_call() -> Seq<char> {
    "cglucose4_solve"@
}

/// The name of the engine's value query in error descriptions.
pub open spec fn val_call() -> Seq<char> {
    "cglucose4_val"@
}

/// The name of the engine's query for failed assumptions in error
/// descriptions.
pub open spec fn failed_call() -> Seq<char> {
    "cglucose4_failed"@
}

/// The count that a signed answer of the engine stands for; a negative
/// answer is none.
pub open spec fn count_of_signed(answer: i32) -> Option<usize> {
    if answer >= 0 {
        Some(answer as usize)
    } else {
        None
    }
}

/// The count that an unsigned answer of the engine stands for; an answer
/// beyond the machine's word is none.
pub open spec fn count_of_unsigned(answer: u64) -> Option<usize> {
    if answer <= usize::MAX {
        Some(answer as usize)
    } else {
        None
    }
}

/// The highest variable where the engine knows `n_vars` variables: the one
/// with index `n_vars - 1`, or none where it knows no variable.
pub open spec fn highest_of(n_vars: i32) -> Option<nat> {
    if n_vars > 0 {
        Some((n_vars - 1) as nat)
    } else {
        None
    }
}

/// The count that a signed answer of the engine stands for.
pub fn count_from_signed(answer: i32) -> (count: Option<usize>)
    ensures
        count == count_of_signed(answer),
{
    if answer >= 0 {
        Some(answer as usize)
    } else {
        None
    }
}

/// The count that an unsigned answer of the engine stands for.
pub fn count_from_unsigned(answer: u64) -> (count: Option<usize>)
    ensures
        count == count_of_unsigned(answer),
{
    if answer <= usize::MAX as u64 {
        Some(answer as usize)
    } else {
        None
    }
}

/// The highest variable where the engine knows `n_vars` variables.
pub fn highest_from_count(n_vars: i32) -> (var: Option<Var>)
    ensures
        var is Some == highest_of(n_vars) is Some,
        var matches Some(v) ==> highest_of(n_vars) == Some(v@),
{
    if n_vars > 0 {
        Some(Var::new((n_vars - 1) as u32))
    } else {
        None
    }
}

/// The limit that an optional bound stands for.
pub fn bound_of(limit: Option<u32>) -> (bound: i64)
    ensures
        bound == Limit::bound(limit),
{
    match limit {
        Some(limit) => limit as i64,
        None => -1,
    }
}

/// The model of a [`GlucoseCore4`]: its state, what it has handed to its
/// engine, and its counters.
pub struct GlucoseCore4View {
    /// The state of the solver.
    pub state: InternalSolverStateView,
    /// The requests and questions handed to the engine so far, in order.
    pub sent: Seq<Request>,
    /// The counters of the solver.
    pub stats: SolverStats,
}

impl GlucoseCore4View {
    /// The model and the result after a solve call without assumptions
    /// that took `nanos` nanoseconds of CPU time and that the engine has
    /// answered with `code`.
    pub open spec fn solved(self, code: i32, nanos: u128) -> (
        Self,
        Result<SolverResult, SolverErrorView>,
    ) {
        let (state, res) = solved(solve_call(), code as int, Seq::empty());
        (
            GlucoseCore4View {
                state,
                sent: self.sent.push(Request::Solve),
                stats: self.stats.after_solve(code, nanos),
            },
            res,
        )
    }

    /// The model and the result after a solve call under `assumps` that
    /// took `nanos` nanoseconds of CPU time and that the engine has
    /// answered with `code` and, where that is unsatisfiable, the questions
    /// for the failed assumptions with `answers`. The engine has got the
    /// assumptions, the solve call, and as many questions as there are
    /// answers.
    pub open spec fn solved_assuming(
        self,
        assumps: Seq<Lit>,
        code: i32,
        nanos: u128,
        answers: Seq<i32>,
    ) -> (Self, Result<SolverResult, SolverErrorView>) {
        let (state, res) = solved_assuming(
            solve_call(),
            failed_call(),
            code as int,
            assumps,
            answers,
        );
        (
            GlucoseCore4View {
                state,
                sent: (self.sent + assume_requests(assumps)).push(Request::Solve)
                    + failed_questions(assumps, code as int, answers),
                stats: self.stats.after_solve(code, nanos),
            },
            res,
        )
    }

    /// The model after `clause` has been added.
    pub open spec fn with_clause(self, clause: Seq<Lit>) -> Self {
        GlucoseCore4View {
            state: InternalSolverStateView::Input,
            sent: self.sent + add_requests(clause),
            stats: self.stats.with_clause(clause.len()),
        }
    }
}

/// A solver on a Glucose 4 engine without preprocessing.
pub struct GlucoseCore4<E: Glucose4> {
    handle: Glucose4Handle<E>,
    state: InternalSolverState,
    stats: SolverStats,
}

impl<E: Glucose4> View for GlucoseCore4<E> {
    type V = GlucoseCore4View;

    closed spec fn view(&self) -> GlucoseCore4View {
        GlucoseCore4View { state: self.state@, sent: self.handle.sent(), stats: self.stats }
    }
}

impl<E: Glucose4 + Default> Default for GlucoseCore4<E> {
    /// A solver on a fresh engine, ready for input, with nothing handed to
    /// the engine and all counters at zero.
    fn default() -> (solver: Self)
        ensures
            solver@ == (GlucoseCore4View {
                state: InternalSolverStateView::Input,
                sent: Seq::empty(),
                stats: SolverStats {
                    n_sat: 0,
                    n_unsat: 0,
                    n_terminated: 0,
                    n_clauses: 0,
                    max_var: None,
                    n_lits: 0,
                    cpu_solve_time: 0,
                },
            }),
    {
        GlucoseCore4::new(E::default())
    }
}

impl<E: Glucose4> GlucoseCore4<E> {
    /// A solver on the given engine, ready for input, with nothing handed
    /// to the engine and all counters at zero.
    pub fn new(engine: E) -> (solver: Self)
        ensures
            solver@ == (GlucoseCore4View {
                state: InternalSolverStateView::Input,
                sent: Seq::empty(),
                stats: SolverStats {
                    n_sat: 0,
                    n_unsat: 0,
                    n_terminated: 0,
                    n_clauses: 0,
                    max_var: None,
                    n_lits: 0,
                    cpu_solve_time: 0,
                },
            }),
    {
        GlucoseCore4 {
            handle: Glucose4Handle::new(engine),
            state: InternalSolverState::Input,
            stats: SolverStats::new(),
        }
    }

    /// Asks the engine, for each assumption in turn, whether it failed, and
    /// stops at the first answer outside the protocol. Returns the answers.
    fn failed_answers(&mut self, assumps: &Vec<Lit>) -> (answers: Vec<i32>)
        ensures
            answers_complete(assumps@, answers@),
            final(self)@ == (GlucoseCore4View {
                sent: old(self)@.sent + failed_requests(assumps@.take(answers@.len() as int)),
                ..old(self)@
            }),
    {
        let mut answers: Vec<i32> = Vec::new();
        let mut i: usize = 0;
        while i < assumps.len()
            invariant
                i <= assumps.len(),
                answers.len() == i,
                core_of(assumps@, answers@) is Ok,
                self.handle.sent() == old(self).handle.sent() + failed_requests(
                    assumps@.take(i as int),
                ),
                self.state == old(self).state,
                self.stats == old(self).stats,
            decreases assumps.len() - i,
        {
            let answer: i32 = self.handle.failed(assumps[i].to_ipasir());
            proof {
                assert(answers@.push(answer).drop_last() == answers@);
                assert(failed_requests(assumps@.take(i + 1)) == failed_requests(
                    assumps@.take(i as int),
                ).push(Request::Failed(assumps@[i as int]@ as i32)));
            }
            answers.push(answer);
            if answer != 0 && answer != 1 {
                return answers;
            }
            i += 1;
        }
        proof {
            if answers.len() > 0 {
                lemma_core_of_prefix(assumps@, answers@);
            }
        }
        answers
    }

    /// The core of the last solve call under `assumps`, which the engine
    /// found unsatisfiable: the negations of the assumptions that, by the
    /// answers of the engine, failed. An answer outside the protocol puts
    /// the solver in the error state.
    fn get_core_assumps(&mut self, assumps: &Vec<Lit>) -> (res: Result<Vec<Lit>, SolverError>)
        ensures
            exists|answers: Seq<i32>|
                {
                    &&& answers_complete(assumps@, answers)
                    &&& (final(self)@.state, #[trigger] lits_result_view(res)) == core_found(
                        old(self)@.state,
                        failed_call(),
                        assumps@,
                        answers,
                    )
                    &&& final(self)@ == (GlucoseCore4View {
                        state: final(self)@.state,
                        sent: old(self)@.sent + failed_requests(
                            assumps@.take(answers.len() as int),
                        ),
                        ..old(self)@
                    })
                },
    {
        let answers = self.failed_answers(assumps);
        let res = match core_from_answers(assumps, &answers) {
            Ok(core) => Ok(core),
            Err(invalid) => Err(self.state.fail("cglucose4_failed", invalid)),
        };
        proof {
            assert((self@.state, lits_result_view(res)) == core_found(
                old(self)@.state,
                failed_call(),
                assumps@,
                answers@,
            ));
        }
        res
    }

    /// Hands the engine a limit on the work of a solve call.
    pub fn set_limit(&mut self, limit: Limit)
        ensures
            final(self)@ == (GlucoseCore4View {
                sent: old(self)@.sent.push(limit_request(limit)),
                ..old(self)@
            }),
    {
        self.handle.set_limit(limit);
    }

    /// The engine's number of assigned literals, as it came.
    pub fn n_assigns(&self) -> i32 {
        self.handle.n_assigns()
    }

    /// The engine's number of learned clauses, as it came.
    pub fn n_learnts(&self) -> i32 {
        self.handle.n_learnts()
    }

    /// Asks the running search to stop.
    pub fn terminate(&mut self)
        ensures
            final(self)@ == (GlucoseCore4View {
                sent: old(self)@.sent.push(Request::Interrupt),
                ..old(self)@
            }),
    {
        self.handle.interrupt();
    }

    /// The name and the version of the engine.
    pub fn signature(&self) -> &'static str {
        self.handle.signature()
    }

    /// Solves without assumptions. Where the state settles the result, the
    /// engine is not asked and nothing changes. Otherwise the engine
    /// searches, and its answer decides the new state and the result; an
    /// unsatisfiable result has an empty core.
    pub fn solve(&mut self) -> (res: Result<SolverResult, SolverError>)
        ensures
            settled(old(self)@.state) matches Some(r) ==> result_view(res) == r && *final(self)
                == *old(self),
            settled(old(self)@.state) is None ==> exists|code: i32, nanos: u128|
                (final(self)@, result_view(res)) == #[trigger] old(self)@.solved(code, nanos),
    {
        if let Some(res) = self.state.settled() {
            return res;
        }
        let start = cpu_time_now();
        let code: i32 = self.handle.solve();
        let nanos: u128 = nanos_since(&start);
        self.stats.count_solve(code, nanos);
        let res = self.state.record_solve("cglucose4_solve", code, Vec::new());
        proof {
            assert((self@, result_view(res)) == old(self)@.solved(code, nanos));
        }
        res
    }

    /// The value of a literal under the model found. Outside the
    /// satisfiable state this is an error and nothing changes. In it the
    /// engine is asked, and its answer decides the value; an answer outside
    /// the protocol puts the solver in the error state.
    pub fn lit_val(&mut self, lit: Lit) -> (res: Result<TernaryVal, SolverError>)
        ensures
            value_refused(old(self)@.state) matches Some(err) ==> result_view(res) == Err::<
                TernaryVal,
                SolverErrorView,
            >(err) && *final(self) == *old(self),
            value_refused(old(self)@.state) is None ==> exists|answer: i32|
                {
                    &&& (final(self)@.state, result_view(res)) == #[trigger] valued(
                        val_call(),
                        lit@,
                        answer as int,
                    )
                    &&& final(self)@ == (GlucoseCore4View {
                        state: final(self)@.state,
                        sent: old(self)@.sent.push(Request::Val(lit@ as i32)),
                        ..old(self)@
                    })
                },
    {
        if let Some(err) = self.state.value_refused() {
            return Err(err);
        }
        let answer: i32 = self.handle.val(lit.to_ipasir());
        let res = self.state.record_value("cglucose4_val", lit, answer);
        proof {
            assert((self@.state, result_view(res)) == valued(val_call(), lit@, answer as int));
        }
        res
    }

    /// Adds a clause. In the error state this is an error and nothing
    /// changes. Otherwise the engine gets the literals of the clause in
    /// order and the closing zero, and the solver is ready for input again,
    /// whatever result it had.
    pub fn add_clause(&mut self, clause: Clause) -> (res: Result<(), SolverError>)
        ensures
            input_refused(old(self)@.state) matches Some(err) ==> result_view(res) == Err::<
                (),
                SolverErrorView,
            >(err) && *final(self) == *old(self),
            input_refused(old(self)@.state) is None ==> res is Ok && final(self)@ == old(
                self,
            )@.with_clause(clause@),
    {
        if let Some(err) = self.state.input_refused() {
            return Err(err);
        }
        let len: usize = clause.len();
        self.stats.count_clause(len);
        self.state = InternalSolverState::Input;
        let mut i: usize = 0;
        while i < len
            invariant
                i <= len == clause@.len(),
                self.handle.sent() == old(self).handle.sent() + Seq::new(
                    i as nat,
                    |j: int| Request::Add(clause@[j]@ as i32),
                ),
                self.state == InternalSolverState::Input,
                self.stats == old(self).stats.with_clause(len as nat),
            decreases len - i,
        {
            self.handle.add_lit(clause.get(i).to_ipasir());
            i += 1;
        }
        self.handle.add_lit(0);
        proof {
            assert(self.handle.sent() == old(self).handle.sent() + add_requests(clause@));
        }
        Ok(())
    }

    /// Adds the clause of one literal.
    pub fn add_unit(&mut self, lit: Lit) -> (res: Result<(), SolverError>)
        ensures
            input_refused(old(self)@.state) matches Some(err) ==> result_view(res) == Err::<
                (),
                SolverErrorView,
            >(err) && *final(self) == *old(self),
            input_refused(old(self)@.state) is None ==> res is Ok && final(self)@ == old(
                self,
            )@.with_clause(seq![lit]),
    {
        self.add_clause(Clause::unit(lit))
    }

    /// Adds the clause of two literals.
    pub fn add_binary(&mut self, lit1: Lit, lit2: Lit) -> (res: Result<(), SolverError>)
        ensures
            input_refused(old(self)@.state) matches Some(err) ==> result_view(res) == Err::<
                (),
                SolverErrorView,
            >(err) && *final(self) == *old(self),
            input_refused(old(self)@.state) is None ==> res is Ok && final(self)@ == old(
                self,
            )@.with_clause(seq![lit1, lit2]),
    {
        self.add_clause(Clause::binary(lit1, lit2))
    }

    /// Solves under assumptions, which hold for this call only. In the
    /// error state this is an error and nothing changes. Otherwise the
    /// engine gets the assumptions in order and searches, whatever result
    /// the solver had, and its answer decides the new state and the result.
    /// For an unsatisfiable result the engine is then asked which
    /// assumptions failed; their negations are the core.
    pub fn solve_assumps(&mut self, assumps: Vec<Lit>) -> (res: Result<SolverResult, SolverError>)
        ensures
            input_refused(old(self)@.state) matches Some(err) ==> result_view(res) == Err::<
                SolverResult,
                SolverErrorView,
            >(err) && *final(self) == *old(self),
            input_refused(old(self)@.state) is None ==> exists|
                code: i32,
                nanos: u128,
                answers: Seq<i32>,
            |
                {
                    &&& code == 20 ==> answers_complete(assumps@, answers)
                    &&& (final(self)@, result_view(res)) == #[trigger] old(self)@.solved_assuming(
                        assumps@,
                        code,
                        nanos,
                        answers,
                    )
                },
            final(self)@.state matches InternalSolverStateView::Unsat(core) ==> forall|i: int|
                0 <= i < core.len() ==> negates_one_of(#[trigger] core[i], assumps@),
    {
        if let Some(err) = self.state.input_refused() {
            return Err(err);
        }
        let start = cpu_time_now();
        let mut i: usize = 0;
        while i < assumps.len()
            invariant
                i <= assumps.len(),
                self.handle.sent() == old(self).handle.sent() + assume_requests(
                    assumps@.take(i as int),
                ),
                self.state == old(self).state,
                self.stats == old(self).stats,
            decreases assumps.len() - i,
        {
            self.handle.assume_lit(assumps[i].to_ipasir());
            proof {
                assert(assume_requests(assumps@.take(i + 1)) == assume_requests(
                    assumps@.take(i as int),
                ).push(Request::Assume(assumps@[i as int]@ as i32)));
            }
            i += 1;
        }
        proof {
            assert(assumps@.take(i as int) == assumps@);
        }
        let code: i32 = self.handle.solve();
        let nanos: u128 = nanos_since(&start);
        self.stats.count_solve(code, nanos);
        if code == 20 {
            let ghost before = self@;
            let found = self.get_core_assumps(&assumps);
            let ghost asked = self@;
            match found {
                Ok(core) => {
                    self.state = InternalSolverState::Unsat(core);
                    proof {
                        let answers = choose|answers: Seq<i32>|
                            {
                                &&& answers_complete(assumps@, answers)
                                &&& (before.state, Ok::<Seq<Lit>, SolverErrorView>(core@))
                                    == core_found(before.state, failed_call(), assumps@, answers)
                                &&& asked.sent == before.sent + failed_requests(
                                    assumps@.take(answers.len() as int),
                                )
                            };
                        assert((self@, Ok::<SolverResult, SolverErrorView>(SolverResult::Unsat))
                            == old(self)@.solved_assuming(assumps@, code, nanos, answers));
                        lemma_core_negates_assumptions(assumps@, answers);
                    }
                    Ok(SolverResult::Unsat)
                },
                Err(err) => {
                    proof {
                        let answers = choose|answers: Seq<i32>|
                            {
                                &&& answers_complete(assumps@, answers)
                                &&& (self@.state, Err::<Seq<Lit>, SolverErrorView>(err@))
                                    == core_found(before.state, failed_call(), assumps@, answers)
                                &&& asked.sent == before.sent + failed_requests(
                                    assumps@.take(answers.len() as int),
                                )
                            };
                        assert((self@, Err::<SolverResult, SolverErrorView>(err@)) == old(
                            self,
                        )@.solved_assuming(assumps@, code, nanos, answers));
                    }
                    Err(err)
                },
            }
        } else {
            let res = self.state.record_solve("cglucose4_solve", code, Vec::new());
            proof {
                assert((self@, result_view(res)) == old(self)@.solved_assuming(
                    assumps@,
                    code,
                    nanos,
                    Seq::empty(),
                ));
            }
            res
        }
    }

    /// The core of the last solve call: negated assumptions of that call
    /// that suffice for its unsatisfiable result. Outside the unsatisfiable
    /// state this is an error. Nothing changes.
    pub fn unsat_core(&mut self) -> (res: Result<Vec<Lit>, SolverError>)
        ensures
            lits_result_view(res) == core_in(old(self)@.state),
            *final(self) == *old(self),
    {
        self.state.unsat_core()
    }

    /// Limits the conflicts of a solve call, or lifts that limit. In the
    /// error state this is an error and nothing changes.
    pub fn limit_conflicts(&mut self, limit: Option<u32>) -> (res: Result<(), SolverError>)
        ensures
            input_refused(old(self)@.state) matches Some(err) ==> result_view(res) == Err::<
                (),
                SolverErrorView,
            >(err) && *final(self) == *old(self),
            input_refused(old(self)@.state) is None ==> res is Ok && final(self)@ == (
            GlucoseCore4View {
                sent: old(self)@.sent.push(Request::SetConfLimit(Limit::bound(limit))),
                ..old(self)@
            }),
    {
        if let Some(err) = self.state.input_refused() {
            return Err(err);
        }
        self.set_limit(Limit::Conflicts(bound_of(limit)));
        Ok(())
    }

    /// Limits the propagations of a solve call, or lifts that limit. In the
    /// error state this is an error and nothing changes.
    pub fn limit_propagations(&mut self, limit: Option<u32>) -> (res: Result<(), SolverError>)
        ensures
            input_refused(old(self)@.state) matches Some(err) ==> result_view(res) == Err::<
                (),
                SolverErrorView,
            >(err) && *final(self) == *old(self),
            input_refused(old(self)@.state) is None ==> res is Ok && final(self)@ == (
            GlucoseCore4View {
                sent: old(self)@.sent.push(Request::SetPropLimit(Limit::bound(limit))),
                ..old(self)@
            }),
    {
        if let Some(err) = self.state.input_refused() {
            return Err(err);
        }
        self.set_limit(Limit::Propagations(bound_of(limit)));
        Ok(())
    }

    /// The number of propagations so far, where the engine's answer fits
    /// the machine's word.
    pub fn propagations(&self) -> Option<usize> {
        count_from_unsigned(self.handle.propagations())
    }

    /// The number of decisions so far, where the engine's answer fits the
    /// machine's word.
    pub fn decisions(&self) -> Option<usize> {
        count_from_unsigned(self.handle.decisions())
    }

    /// The number of conflicts so far, where the engine's answer fits the
    /// machine's word.
    pub fn conflicts(&self) -> Option<usize> {
        count_from_unsigned(self.handle.conflicts())
    }

    /// The counters of the solver, with the highest variable and, where the
    /// engine gives one, the number of clauses as the engine has them.
    pub fn stats(&self) -> (stats: SolverStats)
        ensures
            stats == (SolverStats {
                max_var: stats.max_var,
                n_clauses: stats.n_clauses,
                ..self@.stats
            }),
    {
        let mut stats = self.stats;
        stats.max_var = self.max_var();
        match self.n_clauses() {
            Some(count) => {
                stats.n_clauses = count;
            },
            None => {},
        }
        stats
    }

    /// The highest variable that the engine knows, if it knows any.
    pub fn max_var(&self) -> Option<Var> {
        highest_from_count(self.handle.n_vars())
    }

    /// The number of clauses that the engine holds, where its answer is a
    /// count.
    pub fn n_clauses(&self) -> Option<usize> {
        count_from_signed(self.handle.n_clauses())
    }
}

} // verus!
