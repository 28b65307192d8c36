//! What the engine calls during a search: the callbacks of a solver and
//! the session of an external propagator.
//!
//! The engine speaks in wire integers. Each function here takes what the
//! engine hands over, turns it into literals, asks the callback or the
//! propagator, and turns the answer back. The engine calls these functions
//! from inside a search, on the thread of the solve call, any number of
//! times.
//!
//! Nothing is assumed of what a propagator answers. A session keeps the
//! record of what it has handed to its propagator, so that the contracts
//! can say what the propagator was told and asked.

use crate::solvers::cadical::ipasirup::ExternalPropagate;
use crate::solvers::ControlSignal;
use crate::types::{
    assigned_all, holds_wire_lits, is_wire_lit, lemma_lits_before_zero, lemma_no_zero_before,
    lits_before_zero, lits_from_wire, lits_of_wire, wire_clause, wire_lits, Assignment, Lit,
    TernaryVal,
};
use vstd::prelude::*;

verus! {

/// Polls a termination callback for the engine: returns 1 if the callback
/// signals to stop, 0 if it signals to go on.
pub fn rustsat_ccadical_terminate_cb<CB: FnMut() -> ControlSignal>(cb: &mut CB) -> (code: i32)
    requires
        call_requires(*old(cb), ()),
    ensures
        exists|signal: ControlSignal|
            call_ensures(*old(cb), (), signal) && code == #[trigger] signal.wire(),
{
    let signal = cb();
    signal.to_ipasir()
}

/// Hands a learned clause to a callback. The engine gives the clause as a
/// buffer of wire integers closed by a zero; the callback gets the literals
/// in front of that zero, in order, as a vector of its own.
pub fn rustsat_ccadical_learn_cb<CB: FnMut(Vec<Lit>)>(cb: &mut CB, clause: &[i32])
    requires
        holds_wire_lits(clause@),
        forall|lits: Vec<Lit>| call_requires(*old(cb), (lits,)),
    ensures
        exists|lits: Vec<Lit>|
            {
                &&& #[trigger] wire_lits(lits@) == clause@.take(lits_before_zero(clause@))
                &&& call_ensures(*old(cb), (lits,), ())
            },
{
    cb(lits_from_wire(clause));
}

/// Appends the literal that the engine hands over to the literals
/// collected so far.
pub fn rustsat_cadical_collect_lits(vec: &mut Vec<Lit>, lit: i32)
    requires
        is_wire_lit(lit as int),
    ensures
        final(vec)@.len() == old(vec)@.len() + 1,
        final(vec)@.drop_last() == old(vec)@,
        final(vec)@.last()@ == lit,
{
    vec.push(Lit::from_wire(lit));
}

/// A clause that is being supplied to the engine literal by literal: the
/// literals before `next` have been supplied.
struct Pending {
    lits: Vec<Lit>,
    next: usize,
}

impl Pending {
    #[verifier::type_invariant]
    spec fn within(self) -> bool {
        self.next <= self.lits@.len()
    }

    /// The literals that have yet to be supplied, in order.
    spec fn rest(self) -> Seq<Lit> {
        self.lits@.skip(self.next as int)
    }

    /// A clause of which nothing has been supplied.
    fn new(lits: Vec<Lit>) -> (pending: Pending)
        ensures
            pending.rest() == lits@,
    {
        Pending { lits, next: 0 }
    }
}

/// The literals that a buffer still holds for the engine, if it holds a
/// clause.
spec fn rest_of(buffer: Option<Pending>) -> Option<Seq<Lit>> {
    match buffer {
        Some(pending) => Some(pending.rest()),
        None => None,
    }
}

/// What the engine gets next of a clause of which `rest` has yet to be
/// supplied, and what then remains: the first literal, or, where none is
/// left, the zero that closes the clause, after which nothing is pending.
pub open spec fn supplied(rest: Seq<Lit>) -> (int, Option<Seq<Lit>>) {
    if rest.len() > 0 {
        (rest[0]@, Some(rest.drop_first()))
    } else {
        (0, None)
    }
}

/// Everything that the engine gets of a pending clause, call after call,
/// until nothing is pending.
pub open spec fn supplied_all(pending: Option<Seq<Lit>>) -> Seq<int>
    decreases
        (if pending is Some {
            pending->Some_0.len() + 1
        } else {
            0
        }),
{
    match pending {
        None => Seq::empty(),
        Some(rest) => seq![supplied(rest).0] + supplied_all(supplied(rest).1),
    }
}

/// A pending clause reaches the engine in its wire form: its literals in
/// order, then the closing zero, one integer for each call, after which
/// nothing is pending.
pub proof fn lemma_supplied_in_wire_form(clause: Seq<Lit>)
    requires
        forall|i: int| 0 <= i < clause.len() ==> is_wire_lit(#[trigger] clause[i]@),
    ensures
        supplied_all(Some(clause)) == wire_clause(clause).map_values(|wire: i32| wire as int),
    decreases clause.len(),
{
    let wire = wire_clause(clause).map_values(|wire: i32| wire as int);
    if clause.len() == 0 {
        assert(supplied_all(None) == Seq::<int>::empty());
        assert(supplied_all(Some(clause)) == seq![0int] + Seq::<int>::empty());
        assert(supplied_all(Some(clause)) == wire);
    } else {
        let rest = clause.drop_first();
        lemma_supplied_in_wire_form(rest);
        let wire_rest = wire_clause(rest).map_values(|wire: i32| wire as int);
        assert(supplied_all(Some(clause)) == seq![clause[0]@] + supplied_all(Some(rest)));
        assert forall|i: int| 0 <= i < wire.len() implies wire[i] == (seq![clause[0]@]
            + wire_rest)[i] by {
            if i > 0 && i < clause.len() {
                assert(rest[i - 1] == clause[i]);
            }
        }
        assert(wire == seq![clause[0]@] + wire_rest);
    }
}

/// The integer that a wish of the propagator is on the wire: the wire
/// integer of the literal, or zero for no wish.
pub open spec fn wish(lit: Option<Lit>) -> int {
    match lit {
        Some(lit) => lit@,
        None => 0,
    }
}

/// The integer that a wish of the propagator is on the wire.
pub fn wish_to_ipasir(lit: Option<Lit>) -> (code: i32)
    ensures
        code == wish(lit),
        code == 0 || is_wire_lit(code as int),
{
    match lit {
        Some(lit) => lit.to_ipasir(),
        None => 0,
    }
}

/// What happens to the decision level of a session.
pub enum LevelEvent {
    /// A new decision level begins.
    NewLevel,
    /// The search goes back to the given level.
    Backtrack(nat),
}

/// The level after an event at `level`. The search can only go back to a
/// level that it is at or above; `None` for an event that breaks this.
pub open spec fn level_after(level: nat, event: LevelEvent) -> Option<nat> {
    match event {
        LevelEvent::NewLevel => Some(level + 1),
        LevelEvent::Backtrack(new_level) => if new_level <= level {
            Some(new_level)
        } else {
            None
        },
    }
}

/// The level after a sequence of events that starts at level zero; `None`
/// where one of the events breaks the protocol.
pub open spec fn level_after_all(events: Seq<LevelEvent>) -> Option<nat>
    decreases events.len(),
{
    if events.len() == 0 {
        Some(0)
    } else {
        match level_after_all(events.drop_last()) {
            Some(level) => level_after(level, events.last()),
            None => None,
        }
    }
}

/// The highest level that a sequence of events has entered.
pub open spec fn highest_level(events: Seq<LevelEvent>) -> nat
    decreases events.len(),
{
    if events.len() == 0 {
        0
    } else {
        let highest = highest_level(events.drop_last());
        match level_after_all(events) {
            Some(level) => if level > highest {
                level
            } else {
                highest
            },
            None => highest,
        }
    }
}

/// The level never exceeds the highest level entered.
pub proof fn lemma_level_below_highest(events: Seq<LevelEvent>)
    ensures
        level_after_all(events) matches Some(level) ==> level <= highest_level(events),
    decreases events.len(),
{
    if events.len() > 0 {
        lemma_level_below_highest(events.drop_last());
    }
}

/// Of every sequence of new decision levels and backtracks that keeps to
/// the protocol: after a backtrack to level `n` the level is `n`, and `n`
/// does not exceed the highest level entered before.
pub proof fn lemma_backtrack_level(events: Seq<LevelEvent>, n: nat)
    requires
        level_after_all(events.push(LevelEvent::Backtrack(n))) is Some,
    ensures
        level_after_all(events.push(LevelEvent::Backtrack(n))) == Some(n),
        n <= highest_level(events),
{
    assert(events.push(LevelEvent::Backtrack(n)).drop_last() == events);
    lemma_level_below_highest(events);
}

/// One thing that a session hands to its propagator: a notice of what the
/// engine has done, or a question of the engine.
pub enum Notice {
    /// The literal was assigned; the flag says whether it is fixed.
    Assignment(Lit, bool),
    /// A new decision level has begun.
    NewDecisionLevel,
    /// The search went back to the given level.
    Backtrack(nat),
    /// The question whether the model is accepted, with the values that
    /// the model gives to the variables.
    FoundModel(Seq<TernaryVal>),
    /// The question for the next decision.
    Decide,
    /// The question for a literal to propagate.
    Propagate,
    /// The question for the reason of the propagated literal.
    ReasonFor(Lit),
    /// The question for an external clause.
    ExternalClause,
}

/// The values that a model gives to the variables, where the model comes
/// as the wire integers of the literals that it makes true.
pub open spec fn model_values(model: Seq<i32>) -> Seq<TernaryVal> {
    assigned_all(lits_of_wire(model))
}

/// The integer that the verdict of the propagator on a model is on the
/// wire: 1 if the model is accepted, 0 if not.
pub open spec fn verdict(accepted: bool) -> int {
    if accepted {
        1
    } else {
        0
    }
}

/// The integer that the verdict of the propagator on a model is on the
/// wire.
pub fn verdict_to_ipasir(accepted: bool) -> (code: i32)
    ensures
        code == verdict(accepted),
{
    if accepted {
        1
    } else {
        0
    }
}

/// The assignment that a model stands for, where the model comes as the
/// wire integers of the literals that it makes true.
pub fn model_assignment(model: &[i32]) -> (solution: Assignment)
    requires
        forall|i: int| 0 <= i < model@.len() ==> is_wire_lit(#[trigger] model@[i] as int),
    ensures
        solution@ == model_values(model@),
{
    proof {
        lemma_lits_before_zero(model@);
        lemma_no_zero_before(model@, model@.len() as int);
        assert(model@.take(model@.len() as int) == model@);
    }
    Assignment::from_lits(&lits_from_wire(model))
}

/// The session of a connected propagator.
pub struct Data<Prop: ExternalPropagate> {
    /// The propagator.
    pub prop: Prop,
    level: usize,
    reason_buffer: Option<Pending>,
    external_buffer: Option<Pending>,
    told: Ghost<Seq<Notice>>,
}

/// The model of a session: the propagator, the decision level, what has
/// yet to be supplied of a reason clause and of an external clause, and
/// what the session has handed to the propagator.
pub struct DataView<Prop> {
    /// The propagator.
    pub prop: Prop,
    /// The decision level that the engine is at.
    pub level: nat,
    /// The literals of the reason clause that have yet to be supplied, if a
    /// reason clause is being supplied.
    pub reason: Option<Seq<Lit>>,
    /// The literals of the external clause that have yet to be supplied, if
    /// an external clause is pending.
    pub external: Option<Seq<Lit>>,
    /// The notices and questions handed to the propagator so far, in
    /// order.
    pub told: Seq<Notice>,
}

impl<Prop: ExternalPropagate> View for Data<Prop> {
    type V = DataView<Prop>;

    closed spec fn view(&self) -> DataView<Prop> {
        DataView {
            prop: self.prop,
            level: self.level as nat,
            reason: rest_of(self.reason_buffer),
            external: rest_of(self.external_buffer),
            told: self.told@,
        }
    }
}

/// Takes the next integer for the engine out of a buffer that holds a
/// clause.
fn supply(buffer: &mut Option<Pending>) -> (code: i32)
    requires
        *old(buffer) is Some,
    ensures
        (code as int, rest_of(*final(buffer))) == supplied(rest_of(*old(buffer))->Some_0),
{
    let pending = buffer.take().unwrap();
    proof {
        use_type_invariant(&pending);
    }
    if pending.next < pending.lits.len() {
        let lit = pending.lits[pending.next];
        let ghost rest = pending.rest();
        let advanced = Pending { lits: pending.lits, next: pending.next + 1 };
        proof {
            assert(advanced.rest() == rest.drop_first());
            assert(rest[0] == lit);
        }
        *buffer = Some(advanced);
        lit.to_ipasir()
    } else {
        proof {
            assert(pending.rest().len() == 0);
        }
        0
    }
}

impl<Prop: ExternalPropagate> Data<Prop> {
    /// The session of a propagator that has just been connected: at level
    /// zero, with no clause pending and nothing handed to the propagator.
    pub fn new(prop: Prop) -> (data: Self)
        ensures
            data@ == (DataView {
                prop,
                level: 0,
                reason: None,
                external: None,
                told: Seq::empty(),
            }),
    {
        Data {
            prop,
            level: 0,
            reason_buffer: None,
            external_buffer: None,
            told: Ghost(Seq::empty()),
        }
    }

    /// Ends the session and gives the propagator back.
    pub fn into_prop(self) -> (prop: Prop)
        ensures
            prop == self@.prop,
    {
        self.prop
    }

    /// The decision level that the engine is at.
    pub fn decision_level(&self) -> (level: usize)
        ensures
            level == self@.level,
    {
        self.level
    }

    /// Whether a reason clause is being supplied.
    pub fn has_pending_reason(&self) -> (pending: bool)
        ensures
            pending == self@.reason is Some,
    {
        self.reason_buffer.is_some()
    }

    /// Whether an external clause is pending.
    pub fn has_pending_external(&self) -> (pending: bool)
        ensures
            pending == self@.external is Some,
    {
        self.external_buffer.is_some()
    }
}

/// Tells the propagator that the literal with the given wire integer was
/// assigned; `is_fixed` is zero unless the assignment holds at the root.
pub fn rustsat_cadical_notify_assignment<Prop: ExternalPropagate>(
    data: &mut Data<Prop>,
    lit: i32,
    is_fixed: i32,
)
    requires
        is_wire_lit(lit as int),
    ensures
        final(data)@ == (DataView {
            prop: final(data)@.prop,
            told: old(data)@.told.push(
                Notice::Assignment(Lit::with_view(lit as int), is_fixed != 0),
            ),
            ..old(data)@
        }),
{
    data.told = Ghost(
        data.told@.push(Notice::Assignment(Lit::with_view(lit as int), is_fixed != 0)),
    );
    data.prop.assignment(Lit::from_wire(lit), is_fixed != 0);
}

/// Enters a new decision level, and tells the propagator so.
pub fn rustsat_cadical_notify_new_decision_level<Prop: ExternalPropagate>(data: &mut Data<Prop>)
    requires
        old(data)@.level < usize::MAX,
    ensures
        Some(final(data)@.level) == level_after(old(data)@.level, LevelEvent::NewLevel),
        final(data)@ == (DataView {
            prop: final(data)@.prop,
            level: final(data)@.level,
            told: old(data)@.told.push(Notice::NewDecisionLevel),
            ..old(data)@
        }),
{
    data.level = data.level + 1;
    data.told = Ghost(data.told@.push(Notice::NewDecisionLevel));
    data.prop.new_decision_level();
}

/// Goes back to the decision level `new_level`, and tells the propagator
/// so.
pub fn rustsat_cadical_notify_backtrack<Prop: ExternalPropagate>(
    data: &mut Data<Prop>,
    new_level: usize,
)
    requires
        new_level <= old(data)@.level,
    ensures
        Some(final(data)@.level) == level_after(
            old(data)@.level,
            LevelEvent::Backtrack(new_level as nat),
        ),
        final(data)@ == (DataView {
            prop: final(data)@.prop,
            level: final(data)@.level,
            told: old(data)@.told.push(Notice::Backtrack(new_level as nat)),
            ..old(data)@
        }),
{
    data.level = new_level;
    data.told = Ghost(data.told@.push(Notice::Backtrack(new_level as nat)));
    data.prop.backtrack(new_level);
}

/// Asks the propagator whether it accepts the model that the engine has
/// found: returns 1 if it does, 0 if not. The model comes as the wire
/// integers of the literals that it makes true, and reaches the propagator
/// as the assignment that these literals stand for.
pub fn rustsat_cadical_cb_check_found_model<Prop: ExternalPropagate>(
    data: &mut Data<Prop>,
    model: &[i32],
) -> (code: i32)
    requires
        forall|i: int| 0 <= i < model@.len() ==> is_wire_lit(#[trigger] model@[i] as int),
    ensures
        code == verdict(true) || code == verdict(false),
        final(data)@ == (DataView {
            prop: final(data)@.prop,
            told: old(data)@.told.push(Notice::FoundModel(model_values(model@))),
            ..old(data)@
        }),
{
    let solution = model_assignment(model);
    data.told = Ghost(data.told@.push(Notice::FoundModel(solution@)));
    verdict_to_ipasir(data.prop.check_found_solution(&solution))
}

/// Asks the propagator which literal it wants decided next: returns the
/// wire integer of that literal, or zero where the propagator leaves the
/// decision to the engine.
pub fn rustsat_cadical_cb_decide<Prop: ExternalPropagate>(data: &mut Data<Prop>) -> (code: i32)
    ensures
        code == 0 || is_wire_lit(code as int),
        final(data)@ == (DataView {
            prop: final(data)@.prop,
            told: old(data)@.told.push(Notice::Decide),
            ..old(data)@
        }),
{
    data.told = Ghost(data.told@.push(Notice::Decide));
    let decision = data.prop.decide();
    wish_to_ipasir(decision)
}

/// Asks the propagator for a literal that it can propagate: returns the
/// wire integer of that literal, or zero where the propagator has none.
pub fn rustsat_cadical_cb_propagate<Prop: ExternalPropagate>(data: &mut Data<Prop>) -> (code: i32)
    ensures
        code == 0 || is_wire_lit(code as int),
        final(data)@ == (DataView {
            prop: final(data)@.prop,
            told: old(data)@.told.push(Notice::Propagate),
            ..old(data)@
        }),
{
    data.told = Ghost(data.told@.push(Notice::Propagate));
    let propagated = data.prop.propagate();
    wish_to_ipasir(propagated)
}

/// Supplies the next integer of the reason clause for a literal that the
/// propagator has propagated. Where no reason clause is being supplied,
/// the propagator is asked for the reason first. The clause then reaches
/// the engine literal by literal, one for each call, and the call after the
/// last literal returns the closing zero.
pub fn rustsat_cadical_cb_add_reason_clause_lit<Prop: ExternalPropagate>(
    data: &mut Data<Prop>,
    propagated_lit: i32,
) -> (code: i32)
    requires
        old(data)@.reason is None ==> is_wire_lit(propagated_lit as int),
    ensures
        old(data)@.reason matches Some(rest) ==> (code as int, final(data)@.reason) == supplied(
            rest,
        ) && final(data)@ == (DataView { reason: final(data)@.reason, ..old(data)@ }),
        old(data)@.reason is None ==> exists|reason: Seq<Lit>|
            (code as int, final(data)@.reason) == #[trigger] supplied(reason),
        old(data)@.reason is None ==> final(data)@ == (DataView {
            prop: final(data)@.prop,
            reason: final(data)@.reason,
            told: old(data)@.told.push(Notice::ReasonFor(Lit::with_view(propagated_lit as int))),
            ..old(data)@
        }),
{
    if data.reason_buffer.is_none() {
        data.told = Ghost(
            data.told@.push(Notice::ReasonFor(Lit::with_view(propagated_lit as int))),
        );
        let reason = data.prop.add_reason_clause(Lit::from_wire(propagated_lit));
        data.reason_buffer = Some(Pending::new(reason.into_lits()));
        let ghost reason = rest_of(data.reason_buffer)->Some_0;
        let code: i32 = supply(&mut data.reason_buffer);
        proof {
            assert((code as int, data@.reason) == supplied(reason));
        }
        code
    } else {
        supply(&mut data.reason_buffer)
    }
}

/// Whether an external clause is pending: returns 1 if one is, 0 if not.
/// Where none is pending yet, the propagator is asked whether it has one.
pub fn rustsat_cadical_cb_has_external_clause<Prop: ExternalPropagate>(
    data: &mut Data<Prop>,
) -> (code: i32)
    ensures
        old(data)@.external is Some ==> code == 1 && final(data)@ == old(data)@,
        old(data)@.external is None ==> final(data)@ == (DataView {
            prop: final(data)@.prop,
            external: final(data)@.external,
            told: old(data)@.told.push(Notice::ExternalClause),
            ..old(data)@
        }),
        code == 1 <==> final(data)@.external is Some,
        code == 0 || code == 1,
{
    if data.external_buffer.is_some() {
        return 1;
    }
    data.told = Ghost(data.told@.push(Notice::ExternalClause));
    match data.prop.add_external_clause() {
        Some(clause) => {
            data.external_buffer = Some(Pending::new(clause.into_lits()));
            1
        },
        None => 0,
    }
}

/// Supplies the next integer of the pending external clause. The clause
/// reaches the engine literal by literal, one for each call, and the call
/// after the last literal returns the closing zero, after which no clause
/// is pending.
pub fn rustsat_cadical_cb_add_external_clause_lit<Prop: ExternalPropagate>(
    data: &mut Data<Prop>,
) -> (code: i32)
    requires
        old(data)@.external is Some,
    ensures
        (code as int, final(data)@.external) == supplied(old(data)@.external->Some_0),
        final(data)@ == (DataView { external: final(data)@.external, ..old(data)@ }),
{
    supply(&mut data.external_buffer)
}

} // verus!
