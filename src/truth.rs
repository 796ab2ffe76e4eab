use vstd::prelude::*;

verus! {

/// A three-valued truth state: definitely true, definitely false, or not yet
/// determined.
#[derive(Clone, Copy, Debug, PartialEq, Eq, Structural)]
pub enum Truth {
    True,
    False,
    Unknown,
}

impl Truth {
    /// Whether the state is one of the two definite ones.
    pub open spec fn is_definite(self) -> bool {
        self != Truth::Unknown
    }
}

/// Kleene negation: swaps the definite states and keeps `Unknown`.
pub open spec fn kleene_not(a: Truth) -> Truth {
    match a {
        Truth::True => Truth::False,
        Truth::False => Truth::True,
        Truth::Unknown => Truth::Unknown,
    }
}

/// Kleene conjunction: false as soon as one side is false, true only when both
/// are true, unknown otherwise.
pub open spec fn kleene_and(a: Truth, b: Truth) -> Truth {
    if a == Truth::False || b == Truth::False {
        Truth::False
    } else if a == Truth::True && b == Truth::True {
        Truth::True
    } else {
        Truth::Unknown
    }
}

/// Kleene disjunction: true as soon as one side is true, false only when both
/// are false, unknown otherwise.
pub open spec fn kleene_or(a: Truth, b: Truth) -> Truth {
    if a == Truth::True || b == Truth::True {
        Truth::True
    } else if a == Truth::False && b == Truth::False {
        Truth::False
    } else {
        Truth::Unknown
    }
}

} // verus!
