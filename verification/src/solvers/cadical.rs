//! A front end for the parts of the CaDiCaL engine that serve an external
//! propagator.

use crate::solvers::cadical::dispatch::Data;
use crate::solvers::cadical::ipasirup::ExternalPropagate;
use crate::solvers::Request;
use crate::types::{Lit, Var};
use vstd::prelude::*;

pub mod dispatch;
pub mod ipasirup;

verus! {

/// The entry points of a CaDiCaL engine that serve an external propagator.
/// Nothing is assumed of what an engine answers.
///
/// The engine owns the session of the connected propagator from its
/// connection to its disconnection, and calls the functions of
/// [`dispatch`] on it from inside a search, on the calling thread, and
/// from nowhere else. It must know the type of the propagator that it
/// holds: a session leaves it only under the type under which it came.
pub trait CCaDiCaL {
    /// Connects the propagator of a session; `is_lazy` is 1 for a
    /// propagator that only checks complete assignments, else 0.
    fn ccadical_connect_external_propagator<Prop: ExternalPropagate + 'static>(
        &mut self,
        data: Data<Prop>,
        is_lazy: i32,
    );

    /// Disconnects the propagator and returns its session, if a propagator
    /// of this type is connected; otherwise nothing changes.
    fn ccadical_disconnect_external_propagator<Prop: ExternalPropagate + 'static>(
        &mut self,
    ) -> Option<Data<Prop>>;

    /// Marks a variable as observed.
    fn ccadical_add_observed_var(&mut self, var: i32);

    /// Marks a variable as no longer observed.
    fn ccadical_remove_observed_var(&mut self, var: i32);

    /// Marks every variable as no longer observed.
    fn ccadical_reset_observed_vars(&mut self);

    /// Whether the literal's variable is observed and was assigned by a
    /// decision: zero if not.
    fn ccadical_is_decision(&self, lit: i32) -> i32;
}

/// The model of a [`CaDiCaL`]: whether a propagator is connected, the
/// indices of the variables that its session has marked as observed, and
/// what the solver has handed to its engine.
pub struct CaDiCaLView {
    /// Whether a propagator is connected.
    pub connected: bool,
    /// The indices of the variables marked as observed in the session of
    /// the connected propagator.
    pub observed: Set<nat>,
    /// The requests handed to the engine so far, in order.
    pub sent: Seq<Request>,
}

/// A solver on a CaDiCaL engine, as far as external propagators go.
pub struct CaDiCaL<E: CCaDiCaL> {
    handle: E,
    connected: bool,
    observed: Ghost<Set<nat>>,
    sent: Ghost<Seq<Request>>,
}

impl<E: CCaDiCaL> View for CaDiCaL<E> {
    type V = CaDiCaLView;

    closed spec fn view(&self) -> CaDiCaLView {
        CaDiCaLView { connected: self.connected, observed: self.observed@, sent: self.sent@ }
    }
}

impl<E: CCaDiCaL + Default> Default for CaDiCaL<E> {
    /// A solver on a fresh engine, with no propagator connected, no
    /// variable observed and nothing handed to the engine.
    fn default() -> (solver: Self)
        ensures
            solver@ == (CaDiCaLView {
                connected: false,
                observed: Set::empty(),
                sent: Seq::empty(),
            }),
    {
        CaDiCaL::new(E::default())
    }
}

/// The integer that stands for the laziness of a propagator on the wire: 1
/// for a propagator that only checks complete assignments, else 0.
pub open spec fn laziness(lazy: bool) -> i32 {
    if lazy {
        1i32
    } else {
        0i32
    }
}

/// The integer that stands for the laziness of a propagator on the wire.
pub fn laziness_to_ipasir(lazy: bool) -> (code: i32)
    ensures
        code == laziness(lazy),
{
    if lazy {
        1
    } else {
        0
    }
}

/// What an answer of the engine to the question for a decision says: that
/// the literal was decided, unless the answer is zero.
pub fn decision_from_answer(answer: i32) -> (decided: bool)
    ensures
        decided == (answer != 0),
{
    answer != 0
}

impl<E: CCaDiCaL> CaDiCaL<E> {
    /// A solver on the given engine, with no propagator connected, no
    /// variable observed and nothing handed to the engine.
    pub fn new(engine: E) -> (solver: Self)
        ensures
            solver@ == (CaDiCaLView {
                connected: false,
                observed: Set::empty(),
                sent: Seq::empty(),
            }),
    {
        CaDiCaL {
            handle: engine,
            connected: false,
            observed: Ghost(Set::empty()),
            sent: Ghost(Seq::empty()),
        }
    }

    /// Whether a propagator is connected.
    pub fn has_propagator(&self) -> (connected: bool)
        ensures
            connected == self@.connected,
    {
        self.connected
    }

    /// Hands the engine the session of a propagator. The session starts
    /// with no variable observed.
    pub(crate) fn connect<Prop: ExternalPropagate + 'static>(
        &mut self,
        data: Data<Prop>,
        lazy: bool,
    )
        ensures
            final(self)@ == (CaDiCaLView {
                connected: true,
                observed: Set::empty(),
                sent: old(self)@.sent.push(Request::ConnectPropagator(laziness(lazy))),
            }),
    {
        self.handle.ccadical_connect_external_propagator(data, laziness_to_ipasir(lazy));
        self.connected = true;
        self.observed = Ghost(Set::empty());
        self.sent = Ghost(self.sent@.push(Request::ConnectPropagator(laziness(lazy))));
    }

    /// Takes the session of the propagator back from the engine, if a
    /// propagator is connected and the engine gives its session. Without a
    /// propagator the engine is not asked.
    pub(crate) fn disconnect<Prop: ExternalPropagate + 'static>(&mut self) -> (data: Option<
        Data<Prop>,
    >)
        ensures
            !old(self)@.connected ==> data is None && *final(self) == *old(self),
            old(self)@.connected ==> final(self)@.sent == old(self)@.sent.push(
                Request::DisconnectPropagator,
            ),
            data is Some ==> !final(self)@.connected && final(self)@.observed == Set::<
                nat,
            >::empty(),
            data is None ==> final(self)@.connected == old(self)@.connected,
            data is None ==> final(self)@.observed == old(self)@.observed,
    {
        if !self.connected {
            return None;
        }
        let data = self.handle.ccadical_disconnect_external_propagator::<Prop>();
        self.sent = Ghost(self.sent@.push(Request::DisconnectPropagator));
        if data.is_some() {
            self.connected = false;
            self.observed = Ghost(Set::empty());
        }
        data
    }

    /// Hands the engine a variable to observe, if a propagator is
    /// connected.
    pub(crate) fn observe(&mut self, var: Var)
        ensures
            old(self)@.connected ==> final(self)@ == (CaDiCaLView {
                observed: old(self)@.observed.insert(var@),
                sent: old(self)@.sent.push(Request::AddObservedVar((var@ + 1) as i32)),
                ..old(self)@
            }),
            !old(self)@.connected ==> *final(self) == *old(self),
    {
        if self.connected {
            self.handle.ccadical_add_observed_var(var.to_ipasir());
            self.observed = Ghost(self.observed@.insert(var@));
            self.sent = Ghost(self.sent@.push(Request::AddObservedVar((var@ + 1) as i32)));
        }
    }

    /// Hands the engine a variable to observe no longer, if a propagator
    /// is connected.
    pub(crate) fn unobserve(&mut self, var: Var)
        ensures
            old(self)@.connected ==> final(self)@ == (CaDiCaLView {
                observed: old(self)@.observed.remove(var@),
                sent: old(self)@.sent.push(Request::RemoveObservedVar((var@ + 1) as i32)),
                ..old(self)@
            }),
            !old(self)@.connected ==> *final(self) == *old(self),
    {
        if self.connected {
            self.handle.ccadical_remove_observed_var(var.to_ipasir());
            self.observed = Ghost(self.observed@.remove(var@));
            self.sent = Ghost(self.sent@.push(Request::RemoveObservedVar((var@ + 1) as i32)));
        }
    }

    /// Tells the engine to observe no variable any more, if a propagator
    /// is connected.
    pub(crate) fn unobserve_all(&mut self)
        ensures
            old(self)@.connected ==> final(self)@ == (CaDiCaLView {
                observed: Set::empty(),
                sent: old(self)@.sent.push(Request::ResetObservedVars),
                ..old(self)@
            }),
            !old(self)@.connected ==> *final(self) == *old(self),
    {
        if self.connected {
            self.handle.ccadical_reset_observed_vars();
            self.observed = Ghost(Set::empty());
            self.sent = Ghost(self.sent@.push(Request::ResetObservedVars));
        }
    }

    /// Asks the engine whether a literal was decided, if a propagator is
    /// connected; without one no literal counts as decided.
    pub(crate) fn decided(&self, lit: Lit) -> (decided: bool)
        ensures
            !self@.connected ==> !decided,
    {
        if self.connected {
            decision_from_answer(self.handle.ccadical_is_decision(lit.to_ipasir()))
        } else {
            false
        }
    }
}

} // verus!
