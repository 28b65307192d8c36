//! The IPASIR-UP interface: an external propagator that the engine informs
//! of its search and asks for decisions, propagations and clauses.

use crate::solvers::cadical::dispatch::Data;
use crate::solvers::cadical::{laziness, CCaDiCaL, CaDiCaL, CaDiCaLView};
use crate::solvers::Request;
use crate::types::{Assignment, Clause, Lit, Var};
use core::marker::PhantomData;
use vstd::prelude::*;

verus! {

/// An external propagator. The engine calls it during a search, on the
/// thread of the solve call, at points of its own choosing.
pub trait ExternalPropagate {
    /// Whether the propagator only checks complete assignments.
    #[must_use]
    fn is_lazy() -> bool where Self: Sized {
        false
    }

    /// Tells the propagator that an observed variable was assigned. The
    /// notice may come late: just before the next question to the
    /// propagator rather than with the assignment.
    fn assignment(&mut self, lit: Lit, is_fixed: bool);

    /// Tells the propagator that a new decision level has begun.
    fn new_decision_level(&mut self);

    /// Tells the propagator that the search went back to `new_level`; what
    /// the propagator knows of higher levels no longer holds.
    fn backtrack(&mut self, new_level: usize);

    /// Whether the propagator accepts the model found. A propagator that
    /// answers `false` has to give a clause when it is next asked for an
    /// external clause.
    #[must_use]
    fn check_found_solution(&mut self, solution: &Assignment) -> bool;

    /// The literal that the propagator wants decided next, if it has a
    /// wish.
    #[must_use]
    fn decide(&mut self) -> Option<Lit> {
        None
    }

    /// A literal that follows from the current assignment by what the
    /// propagator knows, if there is one.
    #[must_use]
    fn propagate(&mut self) -> Option<Lit> {
        None
    }

    /// The reason for a literal that the propagator has propagated: a
    /// clause that holds the literal.
    #[must_use]
    #[allow(unused_variables)]
    fn add_reason_clause(&mut self, propagated_lit: Lit) -> Clause {
        Clause::new()
    }

    /// A clause that the propagator wants added, if it has one. The engine
    /// drops a clause that is a tautology or satisfied at the root, and
    /// removes literals that are false at the root. A unit clause makes the
    /// search go back to the root. An empty clause, or one whose literals
    /// are all false at the root, ends the search as unsatisfiable.
    #[must_use]
    fn add_external_clause(&mut self) -> Option<Clause>;
}

/// The token of a connected propagator of type `Prop`, with which the
/// propagator is disconnected again.
#[must_use]
#[derive(Debug)]
pub struct PropagatorHandle<Prop>(PhantomData<Prop>);

impl<E: CCaDiCaL> CaDiCaL<E> {
    /// Connects a propagator, for which a session begins: at level zero,
    /// with no clause pending and no variable observed. At most one
    /// propagator is connected at a time. The token returned disconnects it
    /// again.
    pub fn connect_propagator<Prop: ExternalPropagate + 'static>(
        &mut self,
        propagator: Prop,
    ) -> (handle: PropagatorHandle<Prop>)
        requires
            !old(self)@.connected,
        ensures
            exists|lazy: bool|
                final(self)@ == (CaDiCaLView {
                    connected: true,
                    observed: Set::empty(),
                    sent: old(self)@.sent.push(
                        Request::ConnectPropagator(#[trigger] laziness(lazy)),
                    ),
                }),
    {
        let lazy = Prop::is_lazy();
        let data = Data::new(propagator);
        self.connect(data, lazy);
        PropagatorHandle(PhantomData)
    }

    /// Disconnects the propagator of type `Prop` and returns it. Where none
    /// is connected the engine is not asked, nothing changes and there is
    /// nothing to return. Where the engine holds no propagator of that type
    /// there is nothing to return either. A propagator that is returned is
    /// disconnected, and with it no variable is observed any more.
    pub fn disconnect_propagator<Prop: ExternalPropagate + 'static>(
        &mut self,
        handle: PropagatorHandle<Prop>,
    ) -> (propagator: Option<Prop>)
        ensures
            !old(self)@.connected ==> propagator is None && *final(self) == *old(self),
            old(self)@.connected ==> final(self)@.sent == old(self)@.sent.push(
                Request::DisconnectPropagator,
            ),
            propagator is Some ==> !final(self)@.connected && final(self)@.observed == Set::<
                nat,
            >::empty(),
            propagator is None ==> final(self)@.connected == old(self)@.connected,
            propagator is None ==> final(self)@.observed == old(self)@.observed,
    {
        match self.disconnect::<Prop>() {
            Some(data) => Some(data.into_prop()),
            None => None,
        }
    }

    /// Marks a variable as observed by the connected propagator. Without a
    /// propagator there is no session to observe it in: the engine is not
    /// asked and nothing changes.
    pub fn add_observed_var(&mut self, var: Var)
        ensures
            old(self)@.connected ==> final(self)@ == (CaDiCaLView {
                observed: old(self)@.observed.insert(var@),
                sent: old(self)@.sent.push(Request::AddObservedVar((var@ + 1) as i32)),
                ..old(self)@
            }),
            !old(self)@.connected ==> *final(self) == *old(self),
    {
        self.observe(var);
    }

    /// Marks a variable as no longer observed by the connected propagator.
    /// Without a propagator the engine is not asked and nothing changes.
    pub fn remove_observed_var(&mut self, var: Var)
        ensures
            old(self)@.connected ==> final(self)@ == (CaDiCaLView {
                observed: old(self)@.observed.remove(var@),
                sent: old(self)@.sent.push(Request::RemoveObservedVar((var@ + 1) as i32)),
                ..old(self)@
            }),
            !old(self)@.connected ==> *final(self) == *old(self),
    {
        self.unobserve(var);
    }

    /// Marks every variable as no longer observed by the connected
    /// propagator. Without a propagator the engine is not asked and nothing
    /// changes.
    pub fn reset_observed_vars(&mut self)
        ensures
            old(self)@.connected ==> final(self)@ == (CaDiCaLView {
                observed: Set::empty(),
                sent: old(self)@.sent.push(Request::ResetObservedVars),
                ..old(self)@
            }),
            !old(self)@.connected ==> *final(self) == *old(self),
    {
        self.unobserve_all();
    }

    /// Whether, by the answer of the engine, the literal's variable is
    /// observed and was assigned by a decision. Without a propagator no
    /// variable is observed: the engine is not asked and the answer is no.
    #[must_use]
    pub fn is_decision(&self, lit: Lit) -> (decided: bool)
        ensures
            !self@.connected ==> !decided,
    {
        self.decided(lit)
    }
}

} // verus!
