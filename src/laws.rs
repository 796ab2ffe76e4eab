use vstd::prelude::*;

use crate::proposition::PropView;
use crate::truth::Truth;

verus! {

/// Conjunction and disjunction are commutative in their truth.
pub proof fn lemma_and_or_commute(a: PropView, b: PropView)
    ensures
        a.and(b).truth == b.and(a).truth,
        a.or(b).truth == b.or(a).truth,
{
}

/// Negating twice gives back the original truth, `Unknown` included.
pub proof fn lemma_double_negation(a: PropView)
    ensures
        a.not().not().truth == a.truth,
{
}

/// Exclusive or is commutative in its truth; a definite proposition combined
/// with itself is false, and two unknown operands stay unknown.
pub proof fn lemma_xor_laws(a: PropView, b: PropView)
    ensures
        a.xor(b).truth == b.xor(a).truth,
        a.truth.is_definite() ==> a.xor(a).truth == Truth::False,
        a.truth == Truth::Unknown && b.truth == Truth::Unknown ==> a.xor(b).truth
            == Truth::Unknown,
{
}

/// A proposition is an axiom exactly when it was given directly: atoms are
/// axioms and nothing that a connective produces is one.
pub proof fn lemma_axiom_exactly_atomic(name: Seq<char>, truth: Truth, a: PropView, b: PropView)
    ensures
        PropView::atom(name, truth).is_axiom(),
        !a.not().is_axiom(),
        !a.and(b).is_axiom(),
        !a.or(b).is_axiom(),
        !a.xor(b).is_axiom(),
        !a.cond(b).is_axiom(),
        !a.bicond(b).is_axiom(),
{
}

/// Names play no part in truth: atoms that share a name combine exactly as
/// atoms with any other names and the same truths do.
pub proof fn lemma_names_independent(
    n: Seq<char>,
    m: Seq<char>,
    k: Seq<char>,
    s: Truth,
    t: Truth,
)
    ensures
        ({
            let (a, b) = (PropView::atom(n, s), PropView::atom(n, t));
            let (c, d) = (PropView::atom(m, s), PropView::atom(k, t));
            &&& a.and(b).truth == c.and(d).truth
            &&& a.or(b).truth == c.or(d).truth
            &&& a.xor(b).truth == c.xor(d).truth
            &&& a.cond(b).truth == c.cond(d).truth
            &&& a.bicond(b).truth == c.bicond(d).truth
        }),
{
}

} // verus!
