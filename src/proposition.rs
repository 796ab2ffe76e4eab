use vstd::prelude::*;
use vstd::string::StringExecFns;

use crate::truth::{kleene_and, kleene_not, kleene_or, Truth};

verus! {

/// The six connectives that combine propositions.
#[derive(Clone, Copy, Debug, PartialEq, Eq, Structural)]
pub enum Connective {
    Not,
    And,
    Or,
    Xor,
    Implies,
    Iff,
}

/// How a proposition came to be: given directly, or produced by a connective.
#[derive(Clone, Copy, Debug, PartialEq, Eq, Structural)]
pub enum Origin {
    Atomic,
    Derived(Connective),
}

/// Binding strength of a connective: a smaller rank binds tighter.
pub open spec fn precedence(c: Connective) -> int {
    match c {
        Connective::Not => 1,
        Connective::And => 2,
        Connective::Or => 3,
        Connective::Xor => 4,
        Connective::Implies => 5,
        Connective::Iff => 6,
    }
}

/// The executable precedence table.
pub fn op_order(op: &Connective) -> (r: i32)
    ensures
        r as int == precedence(*op),
{
    match op {
        Connective::Not => 1,
        Connective::And => 2,
        Connective::Or => 3,
        Connective::Xor => 4,
        Connective::Implies => 5,
        Connective::Iff => 6,
    }
}

/// The mathematical value of a proposition.
pub struct PropView {
    pub name: Seq<char>,
    pub truth: Truth,
    pub origin: Origin,
}

impl PropView {
    /// An atomic proposition, as the caller gives it.
    pub open spec fn atom(name: Seq<char>, truth: Truth) -> PropView {
        PropView { name, truth, origin: Origin::Atomic }
    }

    /// The name as it appears under the connective `op`: parenthesised exactly
    /// when the proposition was produced by a connective that binds strictly
    /// more loosely than `op`.
    pub open spec fn rendered(self, op: Connective) -> Seq<char> {
        match self.origin {
            Origin::Atomic => self.name,
            Origin::Derived(own) => if precedence(own) > precedence(op) {
                "("@ + self.name + ")"@
            } else {
                self.name
            },
        }
    }

    pub open spec fn not(self) -> PropView {
        PropView {
            name: "~"@ + self.rendered(Connective::Not),
            truth: kleene_not(self.truth),
            origin: Origin::Derived(Connective::Not),
        }
    }

    pub open spec fn and(self, other: PropView) -> PropView {
        PropView {
            name: self.rendered(Connective::And) + "^"@ + other.rendered(Connective::And),
            truth: kleene_and(self.truth, other.truth),
            origin: Origin::Derived(Connective::And),
        }
    }

    pub open spec fn or(self, other: PropView) -> PropView {
        PropView {
            name: self.rendered(Connective::Or) + "v"@ + other.rendered(Connective::Or),
            truth: kleene_or(self.truth, other.truth),
            origin: Origin::Derived(Connective::Or),
        }
    }

    /// Exclusive or, with the truth of `(a OR b) AND NOT (a AND b)`.
    pub open spec fn xor(self, other: PropView) -> PropView {
        PropView {
            name: self.rendered(Connective::Xor) + "(+)"@ + other.rendered(Connective::Xor),
            truth: self.or(other).and(self.and(other).not()).truth,
            origin: Origin::Derived(Connective::Xor),
        }
    }

    /// The conditional, with the truth of `a OR NOT b`.
    pub open spec fn cond(self, other: PropView) -> PropView {
        PropView {
            name: self.rendered(Connective::Implies) + "->"@ + other.rendered(Connective::Implies),
            truth: self.or(other.not()).truth,
            origin: Origin::Derived(Connective::Implies),
        }
    }

    /// The biconditional, with the truth of `(a AND b) OR (NOT a AND NOT b)`;
    /// both operands are always wrapped in parentheses.
    pub open spec fn bicond(self, other: PropView) -> PropView {
        PropView {
            name: "("@ + self.rendered(Connective::Iff) + ")<->("@ + other.rendered(
                Connective::Iff,
            ) + ")"@,
            truth: self.and(other).or(self.not().and(other.not())).truth,
            origin: Origin::Derived(Connective::Iff),
        }
    }

    pub open spec fn is_axiom(self) -> bool {
        self.origin == Origin::Atomic
    }

    pub open spec fn is_tautology(self) -> bool {
        self.truth == Truth::True
    }

    pub open spec fn is_contradiction(self) -> bool {
        self.truth == Truth::False
    }
}

/// A proposition: a display name, a truth state and its origin. Connectives
/// never change their operands; each returns a new proposition.
#[derive(Debug)]
pub struct Proposition {
    name: String,
    truth: Truth,
    origin: Origin,
}

impl View for Proposition {
    type V = PropView;

    closed spec fn view(&self) -> PropView {
        PropView { name: self.name@, truth: self.truth, origin: self.origin }
    }
}

impl Proposition {
    /// An atomic proposition with the given name and truth state.
    pub fn new(name: String, truth: Truth) -> (r: Proposition)
        ensures
            r@ == PropView::atom(name@, truth),
    {
        Proposition { name, truth, origin: Origin::Atomic }
    }

    /// The name as it appears as an operand of `op`.
    pub fn name_fmt(&self, op: &Connective) -> (r: String)
        ensures
            r@ == self@.rendered(*op),
    {
        match self.origin {
            Origin::Derived(own) => {
                if op_order(&own) > op_order(op) {
                    String::from_str("(").concat(self.name.as_str()).concat(")")
                } else {
                    self.name.clone()
                }
            },
            Origin::Atomic => self.name.clone(),
        }
    }

    /// Conjunction of `self` and `other`.
    pub fn and(&self, other: &Proposition) -> (r: Proposition)
        ensures
            r@ == self@.and(other@),
    {
        let right = other.name_fmt(&Connective::And);
        let name = self.name_fmt(&Connective::And).concat("^").concat(right.as_str());
        let truth = match (self.truth, other.truth) {
            (Truth::True, Truth::True) => Truth::True,
            (Truth::True, Truth::False) => Truth::False,
            (Truth::True, Truth::Unknown) => Truth::Unknown,
            (Truth::False, Truth::True) => Truth::False,
            (Truth::False, Truth::False) => Truth::False,
            (Truth::False, Truth::Unknown) => Truth::False,
            (Truth::Unknown, Truth::True) => Truth::Unknown,
            (Truth::Unknown, Truth::False) => Truth::False,
            (Truth::Unknown, Truth::Unknown) => Truth::Unknown,
        };
        Proposition { name, truth, origin: Origin::Derived(Connective::And) }
    }

    /// Disjunction of `self` and `other`.
    pub fn or(&self, other: &Proposition) -> (r: Proposition)
        ensures
            r@ == self@.or(other@),
    {
        let right = other.name_fmt(&Connective::Or);
        let name = self.name_fmt(&Connective::Or).concat("v").concat(right.as_str());
        let truth = match (self.truth, other.truth) {
            (Truth::True, Truth::True) => Truth::True,
            (Truth::True, Truth::False) => Truth::True,
            (Truth::True, Truth::Unknown) => Truth::True,
            (Truth::False, Truth::True) => Truth::True,
            (Truth::False, Truth::False) => Truth::False,
            (Truth::False, Truth::Unknown) => Truth::Unknown,
            (Truth::Unknown, Truth::True) => Truth::True,
            (Truth::Unknown, Truth::False) => Truth::Unknown,
            (Truth::Unknown, Truth::Unknown) => Truth::Unknown,
        };
        Proposition { name, truth, origin: Origin::Derived(Connective::Or) }
    }

    /// Negation of `self`.
    pub fn not(&self) -> (r: Proposition)
        ensures
            r@ == self@.not(),
    {
        let name = String::from_str("~").concat(self.name_fmt(&Connective::Not).as_str());
        let truth = match self.truth {
            Truth::True => Truth::False,
            Truth::False => Truth::True,
            Truth::Unknown => Truth::Unknown,
        };
        Proposition { name, truth, origin: Origin::Derived(Connective::Not) }
    }

    /// Exclusive or of `self` and `other`.
    pub fn xor(&self, other: &Proposition) -> (r: Proposition)
        ensures
            r@ == self@.xor(other@),
    {
        let right = other.name_fmt(&Connective::Xor);
        let name = self.name_fmt(&Connective::Xor).concat("(+)").concat(right.as_str());
        let truth = self.or(other).and(&self.and(other).not()).truth;
        Proposition { name, truth, origin: Origin::Derived(Connective::Xor) }
    }

    /// The conditional formed from `self` and `other`.
    pub fn cond(&self, other: &Proposition) -> (r: Proposition)
        ensures
            r@ == self@.cond(other@),
    {
        let right = other.name_fmt(&Connective::Implies);
        let name = self.name_fmt(&Connective::Implies).concat("->").concat(right.as_str());
        let truth = self.or(&other.not()).truth;
        Proposition { name, truth, origin: Origin::Derived(Connective::Implies) }
    }

    /// The biconditional of `self` and `other`.
    pub fn bicond(&self, other: &Proposition) -> (r: Proposition)
        ensures
            r@ == self@.bicond(other@),
    {
        let left = self.name_fmt(&Connective::Iff);
        let right = other.name_fmt(&Connective::Iff);
        let name = String::from_str("(").concat(left.as_str()).concat(")<->(").concat(
            right.as_str(),
        ).concat(")");
        let truth = self.and(other).or(&self.not().and(&other.not())).truth;
        Proposition { name, truth, origin: Origin::Derived(Connective::Iff) }
    }

    /// Whether `self` was given directly rather than produced by a connective.
    pub fn is_axiom(&self) -> (r: bool)
        ensures
            r == self@.is_axiom(),
    {
        match self.origin {
            Origin::Atomic => true,
            Origin::Derived(_) => false,
        }
    }

    /// Whether `self` is definitely true.
    pub fn is_tautology(&self) -> (r: bool)
        ensures
            r == self@.is_tautology(),
    {
        self.truth == Truth::True
    }

    /// Whether `self` is definitely false.
    pub fn is_contradiction(&self) -> (r: bool)
        ensures
            r == self@.is_contradiction(),
    {
        self.truth == Truth::False
    }

    pub fn name(&self) -> (r: &str)
        ensures
            r@ == self@.name,
    {
        self.name.as_str()
    }

    pub fn truth(&self) -> (r: Truth)
        ensures
            r == self@.truth,
    {
        self.truth
    }

    pub fn origin(&self) -> (r: Origin)
        ensures
            r == self@.origin,
    {
        self.origin
    }
}

} // verus!
