//! What every solver front end shares: results, states and errors, and the
//! rules by which the answers of an engine move a solver from state to
//! state.
//!
//! A front end tracks the state of its solver itself and lets that state
//! decide which operations may run. An answer outside the protocol is
//! fatal: it puts the solver in the error state, and from then on every
//! operation reports that state with the description of the first fault.

use crate::text::{invalid_value_message, invalid_value_text, joined};
use crate::types::{Lit, TernaryVal, Var};
use vstd::prelude::*;

pub mod cadical;
pub mod glucose4;
pub mod ipasir;

verus! {

/// What a termination callback tells the engine.
#[derive(Clone, Copy, Debug, PartialEq, Eq, Structural)]
pub enum ControlSignal {
    /// Go on searching.
    Continue,
    /// Stop the search; the solve call then ends as interrupted.
    Terminate,
}

impl ControlSignal {
    /// The integer that stands for the signal on the wire: 0 to go on, 1 to
    /// stop.
    pub open spec fn wire(self) -> int {
        match self {
            ControlSignal::Continue => 0,
            ControlSignal::Terminate => 1,
        }
    }

    /// The integer that stands for the signal on the wire.
    pub fn to_ipasir(self) -> (code: i32)
        ensures
            code == self.wire(),
    {
        match self {
            ControlSignal::Continue => 0,
            ControlSignal::Terminate => 1,
        }
    }
}

/// The result of a solve call.
#[derive(Clone, Copy, Debug, PartialEq, Eq, Structural)]
pub enum SolverResult {
    /// The clauses can be satisfied under the assumptions.
    Sat,
    /// The clauses cannot be satisfied under the assumptions.
    Unsat,
    /// The search was stopped before it had a result.
    Interrupted,
}

/// A limit on the work of one solve call.
#[derive(Clone, Copy, Debug, PartialEq, Eq, Structural)]
pub enum Limit {
    /// No limit.
    NoLimit,
    /// At most this many conflicts.
    Conflicts(i64),
    /// At most this many propagations.
    Propagations(i64),
}

impl Limit {
    /// The limit that an optional bound stands for where it counts
    /// conflicts or propagations: the bound itself, or -1 for none.
    pub open spec fn bound(limit: Option<u32>) -> i64 {
        match limit {
            Some(limit) => limit as i64,
            None => -1i64,
        }
    }
}

/// The counters of a solver.
#[derive(Clone, Copy, Debug, PartialEq, Eq, Structural)]
pub struct SolverStats {
    /// The number of solve calls that ended satisfiable.
    pub n_sat: usize,
    /// The number of solve calls that ended unsatisfiable.
    pub n_unsat: usize,
    /// The number of solve calls that were interrupted.
    pub n_terminated: usize,
    /// The number of clauses added.
    pub n_clauses: usize,
    /// The highest variable in the clauses added.
    pub max_var: Option<Var>,
    /// The number of literals in the clauses added; divided by the number
    /// of clauses it is their mean length.
    pub n_lits: u64,
    /// The CPU time spent in solve calls, in nanoseconds.
    pub cpu_solve_time: u128,
}

impl SolverStats {
    /// All counters at zero.
    pub fn new() -> (stats: SolverStats)
        ensures
            stats == (SolverStats {
                n_sat: 0,
                n_unsat: 0,
                n_terminated: 0,
                n_clauses: 0,
                max_var: None,
                n_lits: 0,
                cpu_solve_time: 0,
            }),
    {
        SolverStats {
            n_sat: 0,
            n_unsat: 0,
            n_terminated: 0,
            n_clauses: 0,
            max_var: None,
            n_lits: 0,
            cpu_solve_time: 0,
        }
    }

    /// The counters after a solve call that took `nanos` nanoseconds of CPU
    /// time and that the engine answered with `code`.
    pub open spec fn after_solve(self, code: i32, nanos: u128) -> SolverStats {
        SolverStats {
            n_sat: if code == 10 {
                bumped(self.n_sat as int, usize::MAX as int) as usize
            } else {
                self.n_sat
            },
            n_unsat: if code == 20 {
                bumped(self.n_unsat as int, usize::MAX as int) as usize
            } else {
                self.n_unsat
            },
            n_terminated: if code == 0 {
                bumped(self.n_terminated as int, usize::MAX as int) as usize
            } else {
                self.n_terminated
            },
            cpu_solve_time: if self.cpu_solve_time + nanos <= u128::MAX {
                (self.cpu_solve_time + nanos) as u128
            } else {
                u128::MAX
            },
            ..self
        }
    }

    /// The counters after a clause of `len` literals has been added.
    pub open spec fn with_clause(self, len: nat) -> SolverStats {
        SolverStats {
            n_clauses: bumped(self.n_clauses as int, usize::MAX as int) as usize,
            n_lits: if self.n_lits + len <= u64::MAX {
                (self.n_lits + len) as u64
            } else {
                u64::MAX
            },
            ..self
        }
    }

    /// Counts a solve call that took `nanos` nanoseconds of CPU time and
    /// that the engine answered with `code`.
    pub fn count_solve(&mut self, code: i32, nanos: u128)
        ensures
            *final(self) == old(self).after_solve(code, nanos),
    {
        if code == 0 {
            if self.n_terminated < usize::MAX {
                self.n_terminated = self.n_terminated + 1;
            }
        } else if code == 10 {
            if self.n_sat < usize::MAX {
                self.n_sat = self.n_sat + 1;
            }
        } else if code == 20 {
            if self.n_unsat < usize::MAX {
                self.n_unsat = self.n_unsat + 1;
            }
        }
        self.cpu_solve_time = if nanos <= u128::MAX - self.cpu_solve_time {
            self.cpu_solve_time + nanos
        } else {
            u128::MAX
        };
    }

    /// Counts a clause of `len` literals.
    pub fn count_clause(&mut self, len: usize)
        ensures
            *final(self) == old(self).with_clause(len as nat),
    {
        if self.n_clauses < usize::MAX {
            self.n_clauses = self.n_clauses + 1;
        }
        self.n_lits = if len as u64 <= u64::MAX - self.n_lits {
            self.n_lits + len as u64
        } else {
            u64::MAX
        };
    }
}

/// One thing that is handed to an engine: a request that changes it, or a
/// question about the last search, with the integer that goes with it.
#[derive(Clone, Copy, Debug, PartialEq, Eq, Structural)]
pub enum Request {
    /// A literal of the clause being submitted, or the zero that closes it.
    Add(i32),
    /// A literal assumed for the next solve call.
    Assume(i32),
    /// A solve call.
    Solve,
    /// The question for the value of a literal.
    Val(i32),
    /// The question whether an assumption failed.
    Failed(i32),
    /// The registration of a termination callback.
    SetTerminate,
    /// The registration of a callback for learned clauses up to the given
    /// length.
    SetLearn(i32),
    /// A limit on the conflicts of a solve call.
    SetConfLimit(i64),
    /// A limit on the propagations of a solve call.
    SetPropLimit(i64),
    /// The removal of all limits.
    SetNoLimit,
    /// A request to stop the running search.
    Interrupt,
    /// The connection of an external propagator; the integer is 1 for a
    /// propagator that only checks complete assignments, else 0.
    ConnectPropagator(i32),
    /// The disconnection of the external propagator.
    DisconnectPropagator,
    /// The mark of a variable as observed.
    AddObservedVar(i32),
    /// The removal of the mark of a variable as observed.
    RemoveObservedVar(i32),
    /// The removal of all marks of variables as observed.
    ResetObservedVars,
}

/// The requests that assume the given literals, in order.
pub open spec fn assume_requests(lits: Seq<Lit>) -> Seq<Request> {
    Seq::new(lits.len(), |i: int| Request::Assume(lits[i]@ as i32))
}

/// The questions whether the given assumptions failed, in order.
pub open spec fn failed_requests(lits: Seq<Lit>) -> Seq<Request> {
    Seq::new(lits.len(), |i: int| Request::Failed(lits[i]@ as i32))
}

/// The questions that follow a solve call under `assumps` which the engine
/// has answered with `code`: after an unsatisfiable result one for each of
/// the assumptions in turn, as far as `answers` go; after any other result
/// none.
pub open spec fn failed_questions(assumps: Seq<Lit>, code: int, answers: Seq<i32>) -> Seq<
    Request,
> {
    if code == 20 {
        failed_requests(assumps.take(answers.len() as int))
    } else {
        Seq::empty()
    }
}

/// The requests that submit the given clause: one for each literal, in
/// order, and one for the closing zero.
pub open spec fn add_requests(lits: Seq<Lit>) -> Seq<Request> {
    Seq::new(lits.len(), |i: int| Request::Add(lits[i]@ as i32)).push(Request::Add(0i32))
}

/// The state of a solver as its users see it.
#[derive(Clone, Debug, PartialEq, Eq)]
pub enum SolverState {
    /// Clauses and assumptions are accepted, and a solve call may follow.
    Input,
    /// The last solve call found the clauses satisfiable.
    Sat,
    /// The last solve call found the clauses unsatisfiable.
    Unsat,
    /// The engine has broken the protocol; the description says how.
    Error(String),
}

/// The model of a [`SolverState`].
pub enum SolverStateView {
    Input,
    Sat,
    Unsat,
    Error(Seq<char>),
}

impl View for SolverState {
    type V = SolverStateView;

    open spec fn view(&self) -> SolverStateView {
        match self {
            SolverState::Input => SolverStateView::Input,
            SolverState::Sat => SolverStateView::Sat,
            SolverState::Unsat => SolverStateView::Unsat,
            SolverState::Error(desc) => SolverStateView::Error(desc@),
        }
    }
}

/// The name of a state in messages; the error state comes with its
/// description.
pub open spec fn state_text(state: SolverStateView) -> Seq<char> {
    match state {
        SolverStateView::Input => "INPUT"@,
        SolverStateView::Sat => "SAT"@,
        SolverStateView::Unsat => "UNSAT"@,
        SolverStateView::Error(desc) => "ERROR: "@ + desc,
    }
}

impl SolverState {
    /// The name of the state in messages.
    pub fn message(&self) -> (text: String)
        ensures
            text@ == state_text(self@),
    {
        match self {
            SolverState::Input => "INPUT".to_owned(),
            SolverState::Sat => "SAT".to_owned(),
            SolverState::Unsat => "UNSAT".to_owned(),
            SolverState::Error(desc) => joined("ERROR: ", desc.as_str()),
        }
    }
}

/// An error of a solver.
#[derive(Clone, Debug, PartialEq, Eq)]
pub enum SolverError {
    /// The engine gave an answer outside the protocol.
    Api(String),
    /// The operation is not allowed in the state of the solver. The first
    /// field is the state that the solver is in, the second the state that
    /// the operation asks for.
    State(SolverState, SolverState),
}

/// The model of a [`SolverError`].
pub enum SolverErrorView {
    Api(Seq<char>),
    State(SolverStateView, SolverStateView),
}

impl View for SolverError {
    type V = SolverErrorView;

    open spec fn view(&self) -> SolverErrorView {
        match self {
            SolverError::Api(desc) => SolverErrorView::Api(desc@),
            SolverError::State(actual, required) => SolverErrorView::State(actual@, required@),
        }
    }
}

/// The message of an error.
pub open spec fn error_text(err: SolverErrorView) -> Seq<char> {
    match err {
        SolverErrorView::Api(desc) => "API error: "@ + desc,
        SolverErrorView::State(actual, required) => "action requires state "@ + state_text(
            required,
        ) + ", but solver is in state "@ + state_text(actual),
    }
}

impl SolverError {
    /// The message of the error.
    pub fn message(&self) -> (text: String)
        ensures
            text@ == error_text(self@),
    {
        match self {
            SolverError::Api(desc) => joined("API error: ", desc.as_str()),
            SolverError::State(actual, required) => {
                let required = required.message();
                let actual = actual.message();
                let text = joined("action requires state ", required.as_str());
                let text = joined(text.as_str(), ", but solver is in state ");
                joined(text.as_str(), actual.as_str())
            },
        }
    }
}

/// The model of a result that carries a solver error.
pub open spec fn result_view<T>(res: Result<T, SolverError>) -> Result<T, SolverErrorView> {
    match res {
        Ok(value) => Ok(value),
        Err(err) => Err(err@),
    }
}

/// The model of a result that carries literals or a solver error.
pub open spec fn lits_result_view(res: Result<Vec<Lit>, SolverError>) -> Result<
    Seq<Lit>,
    SolverErrorView,
> {
    match res {
        Ok(lits) => Ok(lits@),
        Err(err) => Err(err@),
    }
}

/// The state of a solver as the front end tracks it; an unsatisfiable
/// result carries its core.
#[derive(Clone, Debug, PartialEq, Eq)]
pub enum InternalSolverState {
    /// Clauses and assumptions are accepted, and a solve call may follow.
    Input,
    /// The last solve call found the clauses satisfiable.
    Sat,
    /// The last solve call found the clauses unsatisfiable; the core holds
    /// negated assumptions of that call that suffice for it.
    Unsat(Vec<Lit>),
    /// The engine has broken the protocol; the description says how.
    Error(String),
}

/// The model of an [`InternalSolverState`].
pub enum InternalSolverStateView {
    Input,
    Sat,
    Unsat(Seq<Lit>),
    Error(Seq<char>),
}

impl View for InternalSolverState {
    type V = InternalSolverStateView;

    open spec fn view(&self) -> InternalSolverStateView {
        match self {
            InternalSolverState::Input => InternalSolverStateView::Input,
            InternalSolverState::Sat => InternalSolverStateView::Sat,
            InternalSolverState::Unsat(core) => InternalSolverStateView::Unsat(core@),
            InternalSolverState::Error(desc) => InternalSolverStateView::Error(desc@),
        }
    }
}

/// The state that users see for a tracked state: the same, less the core.
pub open spec fn external(state: InternalSolverStateView) -> SolverStateView {
    match state {
        InternalSolverStateView::Input => SolverStateView::Input,
        InternalSolverStateView::Sat => SolverStateView::Sat,
        InternalSolverStateView::Unsat(_) => SolverStateView::Unsat,
        InternalSolverStateView::Error(desc) => SolverStateView::Error(desc),
    }
}

/// The error of an operation that asks for the state `required` and finds
/// the solver in `state`.
pub open spec fn state_error(
    state: InternalSolverStateView,
    required: SolverStateView,
) -> SolverErrorView {
    SolverErrorView::State(external(state), required)
}

/// What a solve call without assumptions returns without asking the
/// engine: the error state reports itself; a satisfiable result stands; an
/// unsatisfiable result stands if its core is empty, for then it does not
/// depend on assumptions. `None` where the engine has to be asked.
pub open spec fn settled(state: InternalSolverStateView) -> Option<
    Result<SolverResult, SolverErrorView>,
> {
    match state {
        InternalSolverStateView::Input => None,
        InternalSolverStateView::Sat => Some(Ok(SolverResult::Sat)),
        InternalSolverStateView::Unsat(core) => if core.len() == 0 {
            Some(Ok(SolverResult::Unsat))
        } else {
            None
        },
        InternalSolverStateView::Error(_) => Some(
            Err(state_error(state, SolverStateView::Input)),
        ),
    }
}

/// What stops an operation that changes the input of the solver (a new
/// clause, a solve call under assumptions): only the error state does.
pub open spec fn input_refused(state: InternalSolverStateView) -> Option<SolverErrorView> {
    if state is Error {
        Some(state_error(state, SolverStateView::Input))
    } else {
        None
    }
}

/// What stops the query for the value of a literal: every state but the
/// satisfiable one.
pub open spec fn value_refused(state: InternalSolverStateView) -> Option<SolverErrorView> {
    if state is Sat {
        None
    } else {
        Some(state_error(state, SolverStateView::Sat))
    }
}

/// What the query for the core returns: the core in the unsatisfiable
/// state, an error in every other.
pub open spec fn core_in(state: InternalSolverStateView) -> Result<Seq<Lit>, SolverErrorView> {
    match state {
        InternalSolverStateView::Unsat(core) => Ok(core),
        _ => Err(state_error(state, SolverStateView::Unsat)),
    }
}

/// The state and the result after the engine has answered a solve call
/// with `code`: 0 is an interrupted search, 10 a satisfiable and 20 an
/// unsatisfiable result, which comes with `core`. Every other code breaks
/// the protocol. `call` names the call of the engine.
pub open spec fn solved(call: Seq<char>, code: int, core: Seq<Lit>) -> (
    InternalSolverStateView,
    Result<SolverResult, SolverErrorView>,
) {
    if code == 0 {
        (InternalSolverStateView::Input, Ok(SolverResult::Interrupted))
    } else if code == 10 {
        (InternalSolverStateView::Sat, Ok(SolverResult::Sat))
    } else if code == 20 {
        (InternalSolverStateView::Unsat(core), Ok(SolverResult::Unsat))
    } else {
        (
            InternalSolverStateView::Error(invalid_value_text(call, code)),
            Err(SolverErrorView::Api(invalid_value_text(call, code))),
        )
    }
}

/// The core that the answers of the engine select from the assumptions.
/// The answer at position `i` says whether the negation of assumption `i`
/// belongs to the core: 1 if it does, 0 if not. The first other answer
/// breaks the protocol and is the error; nothing after it counts.
pub open spec fn core_of(assumps: Seq<Lit>, answers: Seq<i32>) -> Result<Seq<Lit>, i32>
    decreases answers.len(),
{
    if answers.len() == 0 {
        Ok(Seq::empty())
    } else {
        match core_of(assumps, answers.drop_last()) {
            Err(invalid) => Err(invalid),
            Ok(core) => {
                let answer = answers.last();
                if answer == 0 {
                    Ok(core)
                } else if answer == 1 {
                    Ok(core.push(assumps[answers.len() - 1].negation()))
                } else {
                    Err(answer)
                }
            },
        }
    }
}

/// Whether the engine was asked about every assumption, or stopped at the
/// first answer that breaks the protocol.
pub open spec fn answers_complete(assumps: Seq<Lit>, answers: Seq<i32>) -> bool {
    &&& answers.len() <= assumps.len()
    &&& answers.len() == assumps.len() || core_of(assumps, answers) is Err
    &&& answers.len() > 0 ==> core_of(assumps, answers.drop_last()) is Ok
}

/// The state and the result of the search for the core: the given state
/// with the core, or the error state after an answer that breaks the
/// protocol.
pub open spec fn core_found(
    state: InternalSolverStateView,
    failed_call: Seq<char>,
    assumps: Seq<Lit>,
    answers: Seq<i32>,
) -> (InternalSolverStateView, Result<Seq<Lit>, SolverErrorView>) {
    match core_of(assumps, answers) {
        Ok(core) => (state, Ok(core)),
        Err(invalid) => (
            InternalSolverStateView::Error(invalid_value_text(failed_call, invalid as int)),
            Err(SolverErrorView::Api(invalid_value_text(failed_call, invalid as int))),
        ),
    }
}

/// The state and the result after the engine has answered a solve call
/// under assumptions with `code` and, where the result is unsatisfiable,
/// the questions for the failed assumptions with `answers`.
pub open spec fn solved_assuming(
    solve_call: Seq<char>,
    failed_call: Seq<char>,
    code: int,
    assumps: Seq<Lit>,
    answers: Seq<i32>,
) -> (InternalSolverStateView, Result<SolverResult, SolverErrorView>) {
    if code == 20 {
        match core_of(assumps, answers) {
            Ok(core) => (InternalSolverStateView::Unsat(core), Ok(SolverResult::Unsat)),
            Err(invalid) => (
                InternalSolverStateView::Error(invalid_value_text(failed_call, invalid as int)),
                Err(SolverErrorView::Api(invalid_value_text(failed_call, invalid as int))),
            ),
        }
    } else {
        solved(solve_call, code, Seq::empty())
    }
}

/// The value of the literal with wire integer `lit` that the answer of the
/// engine stands for: 0 leaves the literal open, the literal itself makes
/// it true, its negation makes it false. Every other answer breaks the
/// protocol and is the error.
pub open spec fn value_of(lit: int, answer: int) -> Result<TernaryVal, int> {
    if answer == 0 {
        Ok(TernaryVal::DontCare)
    } else if answer == lit {
        Ok(TernaryVal::True)
    } else if answer == -lit {
        Ok(TernaryVal::False)
    } else {
        Err(answer)
    }
}

/// The state and the result after the engine has answered the query for
/// the value of the literal with wire integer `lit`, asked in the
/// satisfiable state.
pub open spec fn valued(call: Seq<char>, lit: int, answer: int) -> (
    InternalSolverStateView,
    Result<TernaryVal, SolverErrorView>,
) {
    match value_of(lit, answer) {
        Ok(value) => (InternalSolverStateView::Sat, Ok(value)),
        Err(invalid) => (
            InternalSolverStateView::Error(invalid_value_text(call, invalid)),
            Err(SolverErrorView::Api(invalid_value_text(call, invalid))),
        ),
    }
}

/// A counter after one more event; it stays at its largest value once it
/// has reached it.
pub open spec fn bumped(count: int, max: int) -> int {
    if count < max {
        count + 1
    } else {
        count
    }
}

impl InternalSolverState {
    /// The state that users see.
    pub fn to_external(&self) -> (state: SolverState)
        ensures
            state@ == external(self@),
    {
        match self {
            InternalSolverState::Input => SolverState::Input,
            InternalSolverState::Sat => SolverState::Sat,
            InternalSolverState::Unsat(_) => SolverState::Unsat,
            InternalSolverState::Error(desc) => SolverState::Error(desc.clone()),
        }
    }

    /// The error of an operation that asks for the state `required` and
    /// finds the solver in this one.
    pub fn error_for(&self, required: SolverState) -> (err: SolverError)
        ensures
            err@ == state_error(self@, required@),
    {
        SolverError::State(self.to_external(), required)
    }

    /// What a solve call without assumptions returns without asking the
    /// engine, if the state settles it.
    pub fn settled(&self) -> (res: Option<Result<SolverResult, SolverError>>)
        ensures
            res is Some == settled(self@) is Some,
            res matches Some(r) ==> settled(self@) == Some(result_view(r)),
    {
        match self {
            InternalSolverState::Input => None,
            InternalSolverState::Sat => Some(Ok(SolverResult::Sat)),
            InternalSolverState::Unsat(core) => {
                if core.len() == 0 {
                    Some(Ok(SolverResult::Unsat))
                } else {
                    None
                }
            },
            InternalSolverState::Error(_) => Some(Err(self.error_for(SolverState::Input))),
        }
    }

    /// The error that stops an operation which changes the input, if the
    /// state refuses it.
    pub fn input_refused(&self) -> (res: Option<SolverError>)
        ensures
            res is Some == input_refused(self@) is Some,
            res matches Some(err) ==> input_refused(self@) == Some(err@),
    {
        match self {
            InternalSolverState::Error(_) => Some(self.error_for(SolverState::Input)),
            _ => None,
        }
    }

    /// The error that stops the query for a value, if the state refuses it.
    pub fn value_refused(&self) -> (res: Option<SolverError>)
        ensures
            res is Some == value_refused(self@) is Some,
            res matches Some(err) ==> value_refused(self@) == Some(err@),
    {
        match self {
            InternalSolverState::Sat => None,
            _ => Some(self.error_for(SolverState::Sat)),
        }
    }

    /// The core of the unsatisfiable state; an error in every other state.
    pub fn unsat_core(&self) -> (res: Result<Vec<Lit>, SolverError>)
        ensures
            lits_result_view(res) == core_in(self@),
    {
        match self {
            InternalSolverState::Unsat(core) => Ok(core.clone()),
            _ => Err(self.error_for(SolverState::Unsat)),
        }
    }

    /// Puts the solver in the error state because the call named `call`
    /// answered `value`, and returns the error to report.
    pub fn fail(&mut self, call: &str, value: i32) -> (err: SolverError)
        ensures
            final(self)@ == InternalSolverStateView::Error(
                invalid_value_text(call@, value as int),
            ),
            err@ == SolverErrorView::Api(invalid_value_text(call@, value as int)),
    {
        let desc = invalid_value_message(call, value);
        *self = InternalSolverState::Error(desc.clone());
        SolverError::Api(desc)
    }

    /// Moves the solver to the state that follows from the answer `code` of
    /// the engine to a solve call, and returns the result of that call. An
    /// unsatisfiable result gets the core `core`.
    pub fn record_solve(&mut self, call: &str, code: i32, core: Vec<Lit>) -> (res: Result<
        SolverResult,
        SolverError,
    >)
        ensures
            (final(self)@, result_view(res)) == solved(call@, code as int, core@),
    {
        if code == 0 {
            *self = InternalSolverState::Input;
            Ok(SolverResult::Interrupted)
        } else if code == 10 {
            *self = InternalSolverState::Sat;
            Ok(SolverResult::Sat)
        } else if code == 20 {
            *self = InternalSolverState::Unsat(core);
            Ok(SolverResult::Unsat)
        } else {
            Err(self.fail(call, code))
        }
    }

    /// Moves the solver, which is in the satisfiable state, to the state
    /// that follows from the answer of the engine to the query for the
    /// value of `lit`, and returns the value.
    pub fn record_value(&mut self, call: &str, lit: Lit, answer: i32) -> (res: Result<
        TernaryVal,
        SolverError,
    >)
        requires
            old(self)@ is Sat,
        ensures
            (final(self)@, result_view(res)) == valued(call@, lit@, answer as int),
    {
        let wire: i32 = lit.to_ipasir();
        if answer == 0 {
            Ok(TernaryVal::DontCare)
        } else if answer == wire {
            Ok(TernaryVal::True)
        } else if answer == -wire {
            Ok(TernaryVal::False)
        } else {
            Err(self.fail(call, answer))
        }
    }
}

/// The core that the answers of the engine select from the assumptions, or
/// the first answer that breaks the protocol.
pub fn core_from_answers(assumps: &Vec<Lit>, answers: &Vec<i32>) -> (res: Result<Vec<Lit>, i32>)
    requires
        answers.len() <= assumps.len(),
    ensures
        match res {
            Ok(core) => core_of(assumps@, answers@) == Ok::<Seq<Lit>, i32>(core@),
            Err(invalid) => core_of(assumps@, answers@) == Err::<Seq<Lit>, i32>(invalid),
        },
{
    let mut core: Vec<Lit> = Vec::new();
    let mut i: usize = 0;
    while i < answers.len()
        invariant
            i <= answers.len() <= assumps.len(),
            core_of(assumps@, answers@.take(i as int)) == Ok::<Seq<Lit>, i32>(core@),
        decreases answers.len() - i,
    {
        let answer: i32 = answers[i];
        proof {
            assert(answers@.take(i + 1).drop_last() == answers@.take(i as int));
        }
        if answer == 1 {
            core.push(assumps[i].negate());
        } else if answer != 0 {
            proof {
                lemma_core_of_error(assumps@, answers@, i as int + 1);
            }
            return Err(answer);
        }
        i += 1;
    }
    proof {
        assert(answers@.take(i as int) == answers@);
    }
    Ok(core)
}

/// Where all answers are within the protocol, so are all but the last.
pub proof fn lemma_core_of_prefix(assumps: Seq<Lit>, answers: Seq<i32>)
    requires
        answers.len() > 0,
        core_of(assumps, answers) is Ok,
    ensures
        core_of(assumps, answers.drop_last()) is Ok,
{
}

/// An answer that breaks the protocol stays the error, whatever answers
/// follow it.
pub proof fn lemma_core_of_error(assumps: Seq<Lit>, answers: Seq<i32>, n: int)
    requires
        0 <= n <= answers.len(),
        core_of(assumps, answers.take(n)) is Err,
    ensures
        core_of(assumps, answers) == core_of(assumps, answers.take(n)),
    decreases answers.len() - n,
{
    if n == answers.len() {
        assert(answers.take(n) == answers);
    } else {
        assert(answers.take(n + 1).drop_last() == answers.take(n));
        lemma_core_of_error(assumps, answers, n + 1);
    }
}

/// A solve call without assumptions that ends satisfiable or
/// unsatisfiable settles the next one: as long as nothing is added, the
/// next call returns the same result, and the state keeps the engine from
/// being asked.
pub proof fn lemma_result_settles_next_solve(call: Seq<char>, code: int)
    requires
        code == 10 || code == 20,
    ensures
        settled(solved(call, code, Seq::empty()).0) == Some(solved(call, code, Seq::empty()).1),
{
}

/// Whether `lit` is the negation of one of the assumptions.
pub open spec fn negates_one_of(lit: Lit, assumps: Seq<Lit>) -> bool {
    exists|j: int| 0 <= j < assumps.len() && lit == #[trigger] assumps[j].negation()
}

/// Every literal of a core is the negation of an assumption.
pub proof fn lemma_core_negates_assumptions(assumps: Seq<Lit>, answers: Seq<i32>)
    requires
        answers.len() <= assumps.len(),
        core_of(assumps, answers) is Ok,
    ensures
        forall|i: int|
            0 <= i < core_of(assumps, answers)->Ok_0.len() ==> negates_one_of(
                #[trigger] core_of(assumps, answers)->Ok_0[i],
                assumps,
            ),
    decreases answers.len(),
{
    if answers.len() > 0 {
        let shorter = answers.drop_last();
        lemma_core_negates_assumptions(assumps, shorter);
        let core = core_of(assumps, answers)->Ok_0;
        let before = core_of(assumps, shorter)->Ok_0;
        assert forall|i: int| 0 <= i < core.len() implies negates_one_of(
            #[trigger] core[i],
            assumps,
        ) by {
            if i < before.len() {
                assert(core[i] == before[i]);
            } else {
                assert(core[i] == assumps[answers.len() - 1].negation());
            }
        }
    }
}

/// In the error state every operation reports that state, with the
/// description that it was entered with.
pub proof fn lemma_error_state_reports_itself(desc: Seq<char>)
    ensures
        settled(InternalSolverStateView::Error(desc)) == Some(
            Err::<SolverResult, SolverErrorView>(
                SolverErrorView::State(SolverStateView::Error(desc), SolverStateView::Input),
            ),
        ),
        input_refused(InternalSolverStateView::Error(desc)) == Some(
            SolverErrorView::State(SolverStateView::Error(desc), SolverStateView::Input),
        ),
        value_refused(InternalSolverStateView::Error(desc)) == Some(
            SolverErrorView::State(SolverStateView::Error(desc), SolverStateView::Sat),
        ),
        core_in(InternalSolverStateView::Error(desc)) == Err::<Seq<Lit>, SolverErrorView>(
            SolverErrorView::State(SolverStateView::Error(desc), SolverStateView::Unsat),
        ),
{
}

/// The value of a literal is refused in every state but the satisfiable
/// one, and the core in every state but the unsatisfiable one; what is
/// refused is refused with a state error.
pub proof fn lemma_queries_need_their_state(state: InternalSolverStateView)
    ensures
        value_refused(state) is Some <==> !(state is Sat),
        value_refused(state) matches Some(err) ==> err is State,
        core_in(state) is Err <==> !(state is Unsat),
        core_in(state) matches Err(err) ==> err is State,
{
}

} // verus!
