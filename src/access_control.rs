//! Access control is provided by guard objects which are composed in a
//! tree structure, like an AST. A guard decides whether a subject may
//! carry out an operation on a target; it never acts on any of them.
use vstd::prelude::*;
use vstd::std_specs::vec::axiom_vec_index_decreases;

verus! {

/// Used as an error in a [`Guard`] result: the guard refused access.
#[derive(Clone, Copy, Debug, PartialEq, Eq)]
pub struct AccessDenied;

/// The result type for testing a `Guard`.
pub type GuardResult = Result<(), AccessDenied>;

/// The outcome of a guard whose decision is `allowed`.
pub open spec fn verdict(allowed: bool) -> GuardResult {
    if allowed {
        Ok(())
    } else {
        Err(AccessDenied)
    }
}

/// Base trait for nodes in an access-control tree.
///
/// Type Parameters:
///
/// * `S`: Subject. The object carrying out an operation.
/// * `O`: Operation: The operation that this guard is being tested for.
/// * `T`: Target. The target of the operation.
pub trait Guard<S, O, T> {
    /// Whether the guard lets `subject` carry out `operation` on `target`.
    spec fn permits(&self, subject: &S, operation: O, target: &T) -> bool;

    /// Test whether or not the guard's requirements have been satisfied.
    fn attempt(&self, subject: &S, operation: O, target: &T) -> (r: GuardResult)
        ensures
            r == verdict(self.permits(subject, operation, target)),
    ;
}

/// Guard that is always valid.
pub struct True {}

impl<S, O, T> Guard<S, O, T> for True {
    open spec fn permits(&self, subject: &S, operation: O, target: &T) -> bool {
        true
    }

    fn attempt(&self, _subject: &S, _operation: O, _target: &T) -> (r: GuardResult) {
        Ok(())
    }
}

/// Guard that is always invalid.
pub struct False {}

impl<S, O, T> Guard<S, O, T> for False {
    open spec fn permits(&self, subject: &S, operation: O, target: &T) -> bool {
        false
    }

    fn attempt(&self, _subject: &S, _operation: O, _target: &T) -> (r: GuardResult) {
        Err(AccessDenied)
    }
}

/// Guard that is valid if all of the constituent guards are also valid.
///
/// The children are owned by this node, so a guard tree can never contain
/// itself.
pub struct And {
    /// Constituent guards that must be valid for this to be valid.
    pub guards: Vec<Node>,
}

/// One node of a guard tree: any of the primitive guard kinds.
pub enum Node {
    /// A guard that always allows.
    True(True),
    /// A guard that always denies.
    False(False),
    /// A guard that allows when each of its children allows.
    And(And),
}

impl Node {
    /// The decision of this node, which the primitive kinds make without
    /// looking at subject, operation or target.
    pub open spec fn allows(self) -> bool
        decreases self, 0int,
    {
        match self {
            Node::True(_) => true,
            Node::False(_) => false,
            Node::And(a) => all_allow(a.guards@),
        }
    }
}

/// Whether every guard of `gs` allows.
pub open spec fn all_allow(gs: Seq<Node>) -> bool
    decreases gs, 1int,
{
    if gs.len() == 0 {
        true
    } else {
        gs[0].allows() && all_allow(gs.drop_first())
    }
}

proof fn lemma_all_allow_step(gs: Seq<Node>, i: int)
    requires
        0 <= i < gs.len(),
    ensures
        all_allow(gs.subrange(i, gs.len() as int)) == (gs[i].allows() && all_allow(
            gs.subrange(i + 1, gs.len() as int),
        )),
{
    let rest = gs.subrange(i, gs.len() as int);
    assert(rest[0] == gs[i]);
    assert(rest.drop_first() =~= gs.subrange(i + 1, gs.len() as int));
}

impl<S, O: Copy, T> Guard<S, O, T> for And {
    open spec fn permits(&self, subject: &S, operation: O, target: &T) -> bool {
        all_allow(self.guards@)
    }

    /// Tries the children in order and stops at the first that denies.
    fn attempt(&self, subject: &S, operation: O, target: &T) -> (r: GuardResult)
        decreases self, 0int,
    {
        let mut i: usize = 0;
        assert(self.guards@.subrange(0, self.guards@.len() as int) =~= self.guards@);
        while i < self.guards.len()
            invariant
                i <= self.guards@.len(),
                all_allow(self.guards@) == all_allow(
                    self.guards@.subrange(i as int, self.guards@.len() as int),
                ),
            decreases self.guards.len() - i,
        {
            proof {
                lemma_all_allow_step(self.guards@, i as int);
                axiom_vec_index_decreases(self.guards, i as int);
            }
            if self.guards[i].attempt(subject, operation, target).is_err() {
                return Err(AccessDenied);
            }
            i = i + 1;
        }
        Ok(())
    }
}

impl<S, O: Copy, T> Guard<S, O, T> for Node {
    open spec fn permits(&self, subject: &S, operation: O, target: &T) -> bool {
        self.allows()
    }

    fn attempt(&self, subject: &S, operation: O, target: &T) -> (r: GuardResult)
        decreases self, 1int,
    {
        match self {
            Node::True(g) => g.attempt(subject, operation, target),
            Node::False(g) => g.attempt(subject, operation, target),
            Node::And(g) => g.attempt(subject, operation, target),
        }
    }
}

/// The leaf guards ignore their inputs: `True` permits every subject,
/// operation and target, and `False` none.
pub proof fn lemma_constant_guards<S, O, T>(yes: True, no: False, subject: &S, operation: O, target: &T)
    ensures
        <True as Guard<S, O, T>>::permits(&yes, subject, operation, target),
        !<False as Guard<S, O, T>>::permits(&no, subject, operation, target),
{
}

/// `all_allow` holds exactly when each guard of the sequence allows.
pub proof fn lemma_all_allow_iff_each(gs: Seq<Node>)
    ensures
        all_allow(gs) <==> forall|i: int| 0 <= i < gs.len() ==> #[trigger] gs[i].allows(),
    decreases gs.len(),
{
    if gs.len() > 0 {
        let rest = gs.drop_first();
        lemma_all_allow_iff_each(rest);
        if all_allow(gs) {
            assert forall|i: int| 0 <= i < gs.len() implies #[trigger] gs[i].allows() by {
                if i > 0 {
                    assert(gs[i] == rest[i - 1]);
                }
            }
        } else if gs[0].allows() {
            let j = choose|j: int| 0 <= j < rest.len() && !#[trigger] rest[j].allows();
            assert(gs[j + 1] == rest[j]);
        }
    }
}

/// An `And` permits a request exactly when every child permits the same
/// subject, operation and target; an `And` without children permits every
/// request.
pub proof fn lemma_and_permits_iff_every_child<S, O: Copy, T>(
    g: And,
    subject: &S,
    operation: O,
    target: &T,
)
    ensures
        <And as Guard<S, O, T>>::permits(&g, subject, operation, target) <==> forall|i: int|
            0 <= i < g.guards@.len() ==> #[trigger] <Node as Guard<S, O, T>>::permits(
                &g.guards@[i],
                subject,
                operation,
                target,
            ),
        g.guards@.len() == 0 ==> <And as Guard<S, O, T>>::permits(&g, subject, operation, target),
{
    let gs = g.guards@;
    lemma_all_allow_iff_each(gs);
    assert(<And as Guard<S, O, T>>::permits(&g, subject, operation, target) == all_allow(gs));
    if all_allow(gs) {
        assert forall|i: int| 0 <= i < gs.len() implies #[trigger] <Node as Guard<S, O, T>>::permits(
            &gs[i],
            subject,
            operation,
            target,
        ) by {
            assert(gs[i].allows());
        }
    } else {
        let j = choose|j: int| 0 <= j < gs.len() && !#[trigger] gs[j].allows();
        assert(!<Node as Guard<S, O, T>>::permits(&gs[j], subject, operation, target));
    }
}

/// Nesting an `And` in first place of another decides as the flat `And`
/// of all their children: `And(And(a, b), c)` permits exactly what
/// `And(a, b, c)` permits.
pub proof fn lemma_and_nesting_associative<S, O: Copy, T>(
    a: Node,
    b: Node,
    c: Node,
    inner: And,
    nested: And,
    flat: And,
    subject: &S,
    operation: O,
    target: &T,
)
    requires
        inner.guards@ == seq![a, b],
        nested.guards@ == seq![Node::And(inner), c],
        flat.guards@ == seq![a, b, c],
    ensures
        <And as Guard<S, O, T>>::permits(&nested, subject, operation, target)
            == <And as Guard<S, O, T>>::permits(&flat, subject, operation, target),
{
    lemma_all_allow_iff_each(inner.guards@);
    lemma_all_allow_iff_each(nested.guards@);
    lemma_all_allow_iff_each(flat.guards@);
    assert(Node::And(inner).allows() == all_allow(inner.guards@));
}

/// A guard is a pure predicate: two evaluations of `attempt` on the same
/// guard and the same inputs give the same result.
pub proof fn lemma_attempt_deterministic<S, O, T, G: Guard<S, O, T>>(
    g: &G,
    subject: &S,
    operation: O,
    target: &T,
    r1: GuardResult,
    r2: GuardResult,
)
    requires
        call_ensures(G::attempt, (g, subject, operation, target), r1),
        call_ensures(G::attempt, (g, subject, operation, target), r2),
    ensures
        r1 == r2,
{
}

} // verus!
