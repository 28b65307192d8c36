//! Variables, literals, clauses and assignments, and the integer encoding in
//! which literals travel to and from a solving engine.
//!
//! A literal is modelled by a non-zero integer: its magnitude is the index of
//! its variable plus one, its sign is negative exactly if the literal is
//! negated. Zero is never a literal; on the wire it closes a clause.

use vstd::prelude::*;

verus! {

/// The largest index a variable can have. A literal of this variable still
/// has a wire integer that fits in 32 bits together with its negation.
pub const MAX_VAR_IDX: u32 = 2147483646;

/// Why a value could not be turned into a variable or a literal.
#[derive(Clone, Copy, Debug, PartialEq, Eq, Structural)]
pub enum TypeError {
    /// The variable index (first field) is above the largest one (second field).
    IdxTooHigh(u32, u32),
    /// Zero, which closes a clause on the wire, was given as a literal.
    IpasirZero,
}

/// Whether `value` is the wire integer of some literal: anything but zero and
/// the one negative number that has no positive counterpart.
pub open spec fn is_wire_lit(value: int) -> bool {
    value != 0 && -(MAX_VAR_IDX + 1) <= value <= MAX_VAR_IDX + 1
}

/// A propositional variable, modelled by its index.
#[derive(Clone, Copy, Debug, PartialEq, Eq, Structural, Hash)]
pub struct Var {
    idx: u32,
}

impl View for Var {
    type V = nat;

    closed spec fn view(&self) -> nat {
        self.idx as nat
    }
}

impl Var {
    #[verifier::type_invariant]
    spec fn in_range(self) -> bool {
        self.idx <= MAX_VAR_IDX
    }

    /// The variable with the given index.
    pub fn new(idx: u32) -> (var: Var)
        requires
            idx <= MAX_VAR_IDX,
        ensures
            var@ == idx,
    {
        Var { idx }
    }

    /// The variable with the given index, or the reason why there is none.
    pub fn new_with_error(idx: u32) -> (res: Result<Var, TypeError>)
        ensures
            idx <= MAX_VAR_IDX ==> res is Ok && res->Ok_0@ == idx,
            idx > MAX_VAR_IDX ==> res == Err::<Var, TypeError>(
                TypeError::IdxTooHigh(idx, MAX_VAR_IDX),
            ),
    {
        if idx > MAX_VAR_IDX {
            Err(TypeError::IdxTooHigh(idx, MAX_VAR_IDX))
        } else {
            Ok(Var { idx })
        }
    }

    /// The index of the variable.
    pub fn idx(self) -> (idx: u32)
        ensures
            idx == self@,
            idx <= MAX_VAR_IDX,
    {
        proof {
            use_type_invariant(&self);
        }
        self.idx
    }

    /// The positive literal of the variable.
    pub fn pos_lit(self) -> (lit: Lit)
        ensures
            lit@ == self@ + 1,
    {
        proof {
            use_type_invariant(&self);
        }
        Lit { idx: self.idx, negated: false }
    }

    /// The negative literal of the variable.
    pub fn neg_lit(self) -> (lit: Lit)
        ensures
            lit@ == -(self@ + 1),
    {
        proof {
            use_type_invariant(&self);
        }
        Lit { idx: self.idx, negated: true }
    }

    /// The number under which the variable is known on the wire: its index
    /// plus one.
    pub fn to_ipasir(self) -> (wire: i32)
        ensures
            wire == self@ + 1,
            0 < wire,
    {
        proof {
            use_type_invariant(&self);
        }
        let idx: u32 = self.idx;
        (idx + 1) as i32
    }
}

/// A literal: a variable or its negation, modelled by its wire integer.
#[derive(Clone, Copy, Debug, PartialEq, Eq, Structural, Hash)]
pub struct Lit {
    idx: u32,
    negated: bool,
}

impl View for Lit {
    type V = int;

    closed spec fn view(&self) -> int {
        if self.negated {
            -(self.idx + 1)
        } else {
            self.idx + 1
        }
    }
}

impl Lit {
    #[verifier::type_invariant]
    spec fn in_range(self) -> bool {
        self.idx <= MAX_VAR_IDX
    }

    /// The index of the literal's variable: the magnitude of the wire
    /// integer, less one.
    pub open spec fn var_index(self) -> int {
        if self@ < 0 {
            -self@ - 1
        } else {
            self@ - 1
        }
    }

    /// The literal's variable.
    pub closed spec fn variable(self) -> Var {
        Var { idx: self.idx }
    }

    /// The index of a literal's variable is the literal's variable index.
    pub proof fn lemma_variable_view(self)
        ensures
            self.variable()@ == self.var_index(),
    {
    }

    /// The literal of the same variable with the opposite sign.
    pub closed spec fn negation(self) -> Lit {
        Lit { idx: self.idx, negated: !self.negated }
    }

    /// The wire integer of the negation is the negated wire integer.
    pub proof fn lemma_negation_view(self)
        ensures
            self.negation()@ == -self@,
    {
    }

    /// The literal with the given wire integer.
    pub closed spec fn with_view(value: int) -> Lit {
        if value < 0 {
            Lit { idx: (-value - 1) as u32, negated: true }
        } else {
            Lit { idx: (value - 1) as u32, negated: false }
        }
    }

    /// The literal with a given wire integer has that wire integer.
    pub proof fn lemma_with_view(value: int)
        requires
            is_wire_lit(value),
        ensures
            Lit::with_view(value)@ == value,
    {
    }

    /// Two literals with the same wire integer are the same literal.
    pub proof fn lemma_view_injective(a: Lit, b: Lit)
        requires
            a@ == b@,
        ensures
            a == b,
    {
    }

    /// The literal of the variable with index `idx`, negated if `negated`.
    pub fn new(idx: u32, negated: bool) -> (lit: Lit)
        requires
            idx <= MAX_VAR_IDX,
        ensures
            lit@ == (if negated {
                -(idx + 1)
            } else {
                idx + 1
            }),
    {
        Lit { idx, negated }
    }

    /// The positive literal of the variable with index `idx`.
    pub fn positive(idx: u32) -> (lit: Lit)
        requires
            idx <= MAX_VAR_IDX,
        ensures
            lit@ == idx + 1,
    {
        Lit { idx, negated: false }
    }

    /// The negative literal of the variable with index `idx`.
    pub fn negative(idx: u32) -> (lit: Lit)
        requires
            idx <= MAX_VAR_IDX,
        ensures
            lit@ == -(idx + 1),
    {
        Lit { idx, negated: true }
    }

    /// The index of the literal's variable.
    pub fn vidx(self) -> (idx: u32)
        ensures
            idx == self.var_index(),
            idx <= MAX_VAR_IDX,
    {
        proof {
            use_type_invariant(&self);
        }
        self.idx
    }

    /// The literal's variable.
    pub fn var(self) -> (var: Var)
        ensures
            var == self.variable(),
            var@ == self.var_index(),
    {
        proof {
            use_type_invariant(&self);
        }
        Var { idx: self.idx }
    }

    /// Whether the literal is the positive one of its variable.
    pub fn is_pos(self) -> (pos: bool)
        ensures
            pos == (self@ > 0),
    {
        !self.negated
    }

    /// Whether the literal is the negative one of its variable.
    pub fn is_neg(self) -> (neg: bool)
        ensures
            neg == (self@ < 0),
    {
        self.negated
    }

    /// The literal of the same variable with the opposite sign.
    pub fn negate(self) -> (lit: Lit)
        ensures
            lit == self.negation(),
            lit@ == -self@,
    {
        proof {
            use_type_invariant(&self);
        }
        Lit { idx: self.idx, negated: !self.negated }
    }

    /// The wire integer of the literal. It is never zero, and its negation
    /// fits in 32 bits too.
    pub fn to_ipasir(self) -> (wire: i32)
        ensures
            wire == self@,
            is_wire_lit(wire as int),
    {
        proof {
            use_type_invariant(&self);
        }
        let idx: u32 = self.idx;
        let magnitude: i32 = (idx + 1) as i32;
        if self.negated {
            -magnitude
        } else {
            magnitude
        }
    }

    /// The literal with the given wire integer. Zero is no literal, and
    /// neither is the one negative number whose negation does not fit in 32
    /// bits; every other integer is the wire integer of exactly one literal.
    pub fn from_ipasir(value: i32) -> (res: Result<Lit, TypeError>)
        ensures
            is_wire_lit(value as int) ==> res is Ok && res->Ok_0@ == value && res->Ok_0
                == Lit::with_view(value as int),
            value == 0 ==> res == Err::<Lit, TypeError>(TypeError::IpasirZero),
            value != 0 && !is_wire_lit(value as int) ==> res == Err::<Lit, TypeError>(
                TypeError::IdxTooHigh(2147483647, MAX_VAR_IDX),
            ),
    {
        if value == 0 {
            Err(TypeError::IpasirZero)
        } else if value == i32::MIN {
            Err(TypeError::IdxTooHigh(2147483647, MAX_VAR_IDX))
        } else if value < 0 {
            let magnitude: i32 = -value;
            Ok(Lit { idx: (magnitude - 1) as u32, negated: true })
        } else {
            Ok(Lit { idx: (value - 1) as u32, negated: false })
        }
    }
}

impl Lit {
    /// The literal with the given wire integer, which must be one.
    pub fn from_wire(value: i32) -> (lit: Lit)
        requires
            is_wire_lit(value as int),
        ensures
            lit == Lit::with_view(value as int),
            lit@ == value,
    {
        if value < 0 {
            let magnitude: i32 = -value;
            Lit { idx: (magnitude - 1) as u32, negated: true }
        } else {
            Lit { idx: (value - 1) as u32, negated: false }
        }
    }
}

impl core::ops::Not for Lit {
    type Output = Lit;

    /// The literal of the same variable with the opposite sign.
    fn not(self) -> (lit: Lit) {
        self.negate()
    }
}

impl vstd::std_specs::ops::NotSpecImpl for Lit {
    open spec fn obeys_not_spec() -> bool {
        true
    }

    open spec fn not_req(self) -> bool {
        true
    }

    open spec fn not_spec(self) -> Lit {
        self.negation()
    }
}

/// The value of a variable or a literal under a (partial) assignment.
#[derive(Clone, Copy, Debug, PartialEq, Eq, Structural)]
pub enum TernaryVal {
    /// Assigned true.
    True,
    /// Assigned false.
    False,
    /// Not assigned: either value will do.
    DontCare,
}

impl TernaryVal {
    /// The value of the negated literal.
    pub open spec fn flipped(self) -> TernaryVal {
        match self {
            TernaryVal::True => TernaryVal::False,
            TernaryVal::False => TernaryVal::True,
            TernaryVal::DontCare => TernaryVal::DontCare,
        }
    }
}

/// The wire integers of a sequence of literals, in order.
pub open spec fn wire_lits(lits: Seq<Lit>) -> Seq<i32> {
    Seq::new(lits.len(), |i: int| lits[i]@ as i32)
}

/// The literals with the given wire integers, in order.
pub open spec fn lits_of_wire(wire: Seq<i32>) -> Seq<Lit> {
    Seq::new(wire.len(), |i: int| Lit::with_view(wire[i] as int))
}

/// The wire form of a clause: the wire integers of its literals, in order,
/// closed by a zero.
pub open spec fn wire_clause(lits: Seq<Lit>) -> Seq<i32> {
    wire_lits(lits).push(0i32)
}

/// A clause: a sequence of literals, read as their disjunction.
#[derive(Clone, Debug, PartialEq, Eq)]
pub struct Clause {
    lits: Vec<Lit>,
}

impl View for Clause {
    type V = Seq<Lit>;

    closed spec fn view(&self) -> Seq<Lit> {
        self.lits@
    }
}

impl Clause {
    /// The empty clause.
    pub fn new() -> (clause: Clause)
        ensures
            clause@ == Seq::<Lit>::empty(),
    {
        Clause { lits: Vec::new() }
    }

    /// The clause of the given literals, in their order.
    pub fn from_lits(lits: Vec<Lit>) -> (clause: Clause)
        ensures
            clause@ == lits@,
    {
        Clause { lits }
    }

    /// The clause of one literal.
    pub fn unit(lit: Lit) -> (clause: Clause)
        ensures
            clause@ == seq![lit],
    {
        let mut lits: Vec<Lit> = Vec::new();
        lits.push(lit);
        Clause { lits }
    }

    /// The clause of two literals.
    pub fn binary(lit1: Lit, lit2: Lit) -> (clause: Clause)
        ensures
            clause@ == seq![lit1, lit2],
    {
        let mut lits: Vec<Lit> = Vec::new();
        lits.push(lit1);
        lits.push(lit2);
        Clause { lits }
    }

    /// Appends a literal to the clause.
    pub fn add(&mut self, lit: Lit)
        ensures
            final(self)@ == old(self)@.push(lit),
    {
        self.lits.push(lit);
    }

    /// The number of literals in the clause.
    pub fn len(&self) -> (len: usize)
        ensures
            len == self@.len(),
    {
        self.lits.len()
    }

    /// Whether the clause has no literal.
    pub fn is_empty(&self) -> (empty: bool)
        ensures
            empty == (self@.len() == 0),
    {
        self.lits.len() == 0
    }

    /// The literal at position `i`.
    pub fn get(&self, i: usize) -> (lit: Lit)
        requires
            i < self@.len(),
        ensures
            lit == self@[i as int],
    {
        self.lits[i]
    }

    /// The literals of the clause, in order.
    pub fn lits(&self) -> (lits: &Vec<Lit>)
        ensures
            lits@ == self@,
    {
        &self.lits
    }

    /// The literals of the clause, in order, as an owned vector.
    pub fn into_lits(self) -> (lits: Vec<Lit>)
        ensures
            lits@ == self@,
    {
        self.lits
    }

    /// The wire form of the clause: the wire integers of its literals, in
    /// order, closed by a zero.
    pub fn to_ipasir(&self) -> (wire: Vec<i32>)
        ensures
            wire@ == wire_clause(self@),
    {
        let mut wire: Vec<i32> = Vec::new();
        let mut i: usize = 0;
        while i < self.lits.len()
            invariant
                i <= self.lits.len(),
                wire@ == wire_lits(self.lits@.take(i as int)),
            decreases self.lits.len() - i,
        {
            let lit = self.lits[i];
            wire.push(lit.to_ipasir());
            proof {
                assert(self.lits@.take(i + 1) == self.lits@.take(i as int).push(lit));
            }
            i += 1;
        }
        proof {
            assert(self.lits@.take(i as int) == self.lits@);
        }
        wire.push(0);
        wire
    }
}

/// The values of the variables after `var` has been given `value`: the
/// sequence is lengthened with unassigned variables where it is too short.
pub open spec fn assigned(values: Seq<TernaryVal>, var: int, value: TernaryVal) -> Seq<
    TernaryVal,
> {
    if var < values.len() {
        values.update(var, value)
    } else {
        (values + Seq::new((var - values.len()) as nat, |i: int| TernaryVal::DontCare)).push(
            value,
        )
    }
}

/// The value that a literal gives to its variable when the literal is made
/// true.
pub open spec fn value_made_true(lit: Lit) -> TernaryVal {
    if lit@ > 0 {
        TernaryVal::True
    } else {
        TernaryVal::False
    }
}

/// The values of the variables after the literals have been made true one
/// after the other; a later literal overrides an earlier one of the same
/// variable.
pub open spec fn assigned_all(lits: Seq<Lit>) -> Seq<TernaryVal>
    decreases lits.len(),
{
    if lits.len() == 0 {
        Seq::empty()
    } else {
        assigned(
            assigned_all(lits.drop_last()),
            lits.last().var_index(),
            value_made_true(lits.last()),
        )
    }
}

/// An assignment of values to variables, modelled by the sequence of the
/// values of the variables with the lowest indices; a variable beyond the
/// sequence is unassigned.
#[derive(Clone, Debug, PartialEq, Eq)]
pub struct Assignment {
    values: Vec<TernaryVal>,
}

impl View for Assignment {
    type V = Seq<TernaryVal>;

    closed spec fn view(&self) -> Seq<TernaryVal> {
        self.values@
    }
}

impl Assignment {
    /// The value that the assignment modelled by `values` gives to the
    /// variable with index `var`.
    pub open spec fn value_at(values: Seq<TernaryVal>, var: int) -> TernaryVal {
        if 0 <= var < values.len() {
            values[var]
        } else {
            TernaryVal::DontCare
        }
    }

    /// The assignment under which no variable is assigned.
    pub fn new() -> (assignment: Assignment)
        ensures
            assignment@ == Seq::<TernaryVal>::empty(),
    {
        Assignment { values: Vec::new() }
    }

    /// The number of variables that the assignment covers.
    pub fn len(&self) -> (len: usize)
        ensures
            len == self@.len(),
    {
        self.values.len()
    }

    /// Gives `value` to `var`.
    pub fn assign_var(&mut self, var: Var, value: TernaryVal)
        ensures
            final(self)@ == assigned(old(self)@, var@ as int, value),
    {
        let idx: usize = var.idx() as usize;
        if idx < self.values.len() {
            self.values[idx] = value;
        } else {
            while self.values.len() < idx
                invariant
                    old(self)@.len() <= self.values@.len() <= idx,
                    self.values@ == old(self)@ + Seq::new(
                        (self.values@.len() - old(self)@.len()) as nat,
                        |i: int| TernaryVal::DontCare,
                    ),
                decreases idx - self.values.len(),
            {
                self.values.push(TernaryVal::DontCare);
            }
            self.values.push(value);
        }
    }

    /// Makes `lit` true.
    pub fn assign_lit(&mut self, lit: Lit)
        ensures
            final(self)@ == assigned(old(self)@, lit.var_index(), value_made_true(lit)),
    {
        let value = if lit.is_pos() {
            TernaryVal::True
        } else {
            TernaryVal::False
        };
        self.assign_var(lit.var(), value);
    }

    /// The assignment that makes the given literals true, one after the
    /// other.
    pub fn from_lits(lits: &Vec<Lit>) -> (assignment: Assignment)
        ensures
            assignment@ == assigned_all(lits@),
    {
        let mut assignment = Assignment::new();
        let mut i: usize = 0;
        while i < lits.len()
            invariant
                i <= lits.len(),
                assignment@ == assigned_all(lits@.take(i as int)),
            decreases lits.len() - i,
        {
            let lit = lits[i];
            proof {
                assert(lits@.take(i + 1).drop_last() == lits@.take(i as int));
            }
            assignment.assign_lit(lit);
            i += 1;
        }
        proof {
            assert(lits@.take(i as int) == lits@);
        }
        assignment
    }

    /// The value of a variable.
    pub fn var_value(&self, var: Var) -> (value: TernaryVal)
        ensures
            value == Self::value_at(self@, var@ as int),
    {
        let idx: usize = var.idx() as usize;
        if idx < self.values.len() {
            self.values[idx]
        } else {
            TernaryVal::DontCare
        }
    }

    /// The value of a literal: that of its variable, flipped if the literal
    /// is negative.
    pub fn lit_value(&self, lit: Lit) -> (value: TernaryVal)
        ensures
            value == (if lit@ < 0 {
                Self::value_at(self@, lit.var_index()).flipped()
            } else {
                Self::value_at(self@, lit.var_index())
            }),
    {
        let value = self.var_value(lit.var());
        if lit.is_neg() {
            match value {
                TernaryVal::True => TernaryVal::False,
                TernaryVal::False => TernaryVal::True,
                TernaryVal::DontCare => TernaryVal::DontCare,
            }
        } else {
            value
        }
    }
}

/// The number of literals at the front of a buffer of wire integers: the
/// position of its first zero, or its length where it holds no zero.
pub open spec fn lits_before_zero(buf: Seq<i32>) -> int
    decreases buf.len(),
{
    if buf.len() == 0 || buf[0] == 0 {
        0
    } else {
        1 + lits_before_zero(buf.drop_first())
    }
}

/// Whether every integer in front of the first zero of a buffer is the wire
/// integer of a literal.
pub open spec fn holds_wire_lits(buf: Seq<i32>) -> bool {
    forall|i: int| 0 <= i < lits_before_zero(buf) ==> is_wire_lit(#[trigger] buf[i] as int)
}

/// The first zero of a buffer lies within it, no zero lies in front of it,
/// and it is a zero unless the buffer has none.
pub proof fn lemma_lits_before_zero(buf: Seq<i32>)
    ensures
        0 <= lits_before_zero(buf) <= buf.len(),
        forall|i: int| 0 <= i < lits_before_zero(buf) ==> #[trigger] buf[i] != 0,
        lits_before_zero(buf) < buf.len() ==> buf[lits_before_zero(buf)] == 0,
    decreases buf.len(),
{
    if buf.len() == 0 || buf[0] == 0 {
    } else {
        let rest = buf.drop_first();
        lemma_lits_before_zero(rest);
        assert forall|i: int| 0 <= i < lits_before_zero(buf) implies #[trigger] buf[i] != 0 by {
            if i > 0 {
                assert(buf[i] == rest[i - 1]);
            }
        }
        if lits_before_zero(buf) < buf.len() {
            assert(buf[lits_before_zero(buf)] == rest[lits_before_zero(rest)]);
        }
    }
}

/// A position with no zero up to and including it lies in front of the
/// first zero.
pub proof fn lemma_no_zero_before(buf: Seq<i32>, n: int)
    requires
        0 <= n <= buf.len(),
        forall|i: int| 0 <= i < n ==> #[trigger] buf[i] != 0,
    ensures
        n <= lits_before_zero(buf),
    decreases n,
{
    if n > 0 {
        let rest = buf.drop_first();
        assert(buf[0] != 0);
        assert forall|i: int| 0 <= i < n - 1 implies #[trigger] rest[i] != 0 by {
            assert(rest[i] == buf[i + 1]);
        }
        lemma_no_zero_before(rest, n - 1);
        assert(lits_before_zero(buf) == 1 + lits_before_zero(rest));
    } else {
        lemma_lits_before_zero(buf);
    }
}

/// The literals at the front of a buffer of wire integers, up to its first
/// zero or, where it holds no zero, its end. An integer in front of the
/// first zero that is no wire integer of a literal is an error.
pub fn lits_from_ipasir(buf: &[i32]) -> (res: Result<Vec<Lit>, TypeError>)
    ensures
        holds_wire_lits(buf@) ==> res is Ok && res->Ok_0@ == lits_of_wire(
            buf@.take(lits_before_zero(buf@)),
        ) && wire_lits(res->Ok_0@) == buf@.take(lits_before_zero(buf@)),
        !holds_wire_lits(buf@) ==> res == Err::<Vec<Lit>, TypeError>(
            TypeError::IdxTooHigh(2147483647, MAX_VAR_IDX),
        ),
{
    let mut lits: Vec<Lit> = Vec::new();
    let mut i: usize = 0;
    while i < buf.len()
        invariant
            i <= buf.len(),
            forall|j: int| 0 <= j < i ==> #[trigger] buf[j] != 0,
            forall|j: int| 0 <= j < i ==> is_wire_lit(#[trigger] buf[j] as int),
            lits.len() == i,
            wire_lits(lits@) == buf@.take(i as int),
            lits@ == lits_of_wire(buf@.take(i as int)),
        decreases buf.len() - i,
    {
        let value: i32 = buf[i];
        if value == 0 {
            proof {
                lemma_lits_before_zero(buf@);
                lemma_no_zero_before(buf@, i as int);
            }
            return Ok(lits);
        }
        match Lit::from_ipasir(value) {
            Ok(lit) => {
                proof {
                    let before = wire_lits(lits@);
                    let after = wire_lits(lits@.push(lit));
                    assert forall|j: int| 0 <= j < i + 1 implies after[j] == buf@[j] by {
                        if j < i {
                            assert(after[j] == before[j]);
                            assert(before[j] == buf@.take(i as int)[j]);
                        }
                    }
                    assert(after == buf@.take(i + 1));
                    assert(lits@.push(lit) == lits_of_wire(buf@.take(i + 1)));
                }
                lits.push(lit);
            },
            Err(err) => {
                proof {
                    lemma_no_zero_before(buf@, i as int + 1);
                }
                return Err(err);
            },
        }
        i += 1;
    }
    proof {
        lemma_lits_before_zero(buf@);
        lemma_no_zero_before(buf@, i as int);
    }
    Ok(lits)
}

/// The literals at the front of a buffer of wire integers, up to its first
/// zero or, where it holds no zero, its end. Every integer in front of the
/// first zero must be the wire integer of a literal.
pub fn lits_from_wire(buf: &[i32]) -> (lits: Vec<Lit>)
    requires
        holds_wire_lits(buf@),
    ensures
        wire_lits(lits@) == buf@.take(lits_before_zero(buf@)),
        lits@ == lits_of_wire(buf@.take(lits_before_zero(buf@))),
{
    match lits_from_ipasir(buf) {
        Ok(lits) => lits,
        Err(_) => unreached(),
    }
}

} // verus!
