use proplogic::{Proposition, Truth};

const T: Truth = Truth::True;
const F: Truth = Truth::False;
const U: Truth = Truth::Unknown;

const ALL: [Truth; 3] = [Truth::True, Truth::False, Truth::Unknown];

fn atom(name: &str, truth: Truth) -> Proposition {
    Proposition::new(name.to_string(), truth)
}

fn pair(x: Truth, y: Truth) -> (Proposition, Proposition) {
    (atom("x", x), atom("y", y))
}

#[test]
fn not_table() {
    assert_eq!(atom("p", Truth::True).not().truth(), Truth::False);
    assert_eq!(atom("p", Truth::False).not().truth(), Truth::True);
    assert_eq!(atom("p", Truth::Unknown).not().truth(), Truth::Unknown);
}

#[test]
fn and_table() {
    let expected = [
        (T, T, T), (T, F, F), (T, U, U),
        (F, T, F), (F, F, F), (F, U, F),
        (U, T, U), (U, F, F), (U, U, U),
    ];
    for (x, y, r) in expected {
        let (a, b) = pair(x, y);
        assert_eq!(a.and(&b).truth(), r);
    }
}

#[test]
fn or_table() {
    let expected = [
        (T, T, T), (T, F, T), (T, U, T),
        (F, T, T), (F, F, F), (F, U, U),
        (U, T, T), (U, F, U), (U, U, U),
    ];
    for (x, y, r) in expected {
        let (a, b) = pair(x, y);
        assert_eq!(a.or(&b).truth(), r);
    }
}

#[test]
fn xor_table() {
    let expected = [
        (T, T, F), (T, F, T), (T, U, U),
        (F, T, T), (F, F, F), (F, U, U),
        (U, T, U), (U, F, U), (U, U, U),
    ];
    for (x, y, r) in expected {
        let (a, b) = pair(x, y);
        assert_eq!(a.xor(&b).truth(), r);
    }
}

#[test]
fn cond_table() {
    // a OR NOT b
    let expected = [
        (T, T, T), (T, F, T), (T, U, T),
        (F, T, F), (F, F, T), (F, U, U),
        (U, T, U), (U, F, T), (U, U, U),
    ];
    for (x, y, r) in expected {
        let (a, b) = pair(x, y);
        assert_eq!(a.cond(&b).truth(), r);
    }
}

#[test]
fn bicond_table() {
    let expected = [
        (T, T, T), (T, F, F), (T, U, U),
        (F, T, F), (F, F, T), (F, U, U),
        (U, T, U), (U, F, U), (U, U, U),
    ];
    for (x, y, r) in expected {
        let (a, b) = pair(x, y);
        assert_eq!(a.bicond(&b).truth(), r);
    }
}

#[test]
fn and_or_commute() {
    for x in ALL {
        for y in ALL {
            let (a, b) = pair(x, y);
            assert_eq!(a.and(&b).truth(), b.and(&a).truth());
            assert_eq!(a.or(&b).truth(), b.or(&a).truth());
        }
    }
}

#[test]
fn double_negation() {
    for x in ALL {
        let a = atom("p", x);
        assert_eq!(a.not().not().truth(), x);
    }
}

#[test]
fn xor_laws() {
    for x in ALL {
        for y in ALL {
            let (a, b) = pair(x, y);
            assert_eq!(a.xor(&b).truth(), b.xor(&a).truth());
        }
    }
    assert_eq!(atom("p", Truth::True).xor(&atom("p", Truth::True)).truth(), Truth::False);
    let f = atom("p", Truth::False);
    assert_eq!(f.xor(&f).truth(), Truth::False);
    let u = atom("p", Truth::Unknown);
    assert_eq!(u.xor(&atom("q", Truth::Unknown)).truth(), Truth::Unknown);
}

#[test]
fn axiom_only_for_atoms() {
    let p = atom("p", Truth::Unknown);
    let q = atom("q", Truth::True);
    assert!(p.is_axiom());
    assert!(q.is_axiom());
    assert!(!p.not().is_axiom());
    assert!(!p.and(&q).is_axiom());
    assert!(!p.or(&q).is_axiom());
    assert!(!p.xor(&q).is_axiom());
    assert!(!p.cond(&q).is_axiom());
    assert!(!p.bicond(&q).is_axiom());
}

#[test]
fn bicond_of_true_and_unknown_is_not_a_tautology() {
    let t = atom("t", Truth::True);
    let u = atom("u", Truth::Unknown);
    let both = t.bicond(&u);
    assert_eq!(both.truth(), Truth::Unknown);
    assert!(!both.is_tautology());
}

#[test]
fn tautology_and_contradiction() {
    let t = atom("t", Truth::True);
    let f = atom("f", Truth::False);
    let u = atom("u", Truth::Unknown);
    assert!(t.is_tautology() && !t.is_contradiction());
    assert!(!f.is_tautology() && f.is_contradiction());
    assert!(!u.is_tautology() && !u.is_contradiction());
    assert!(t.or(&u).is_tautology());
    assert!(f.and(&u).is_contradiction());
}

#[test]
fn end_to_end_scenario() {
    let p = atom("p", Truth::Unknown);
    let q = atom("q", Truth::True);
    let p_or_q = p.or(&q);
    assert_eq!(p_or_q.truth(), Truth::True);
    assert_eq!(p_or_q.name(), "pvq");
    let not_q = q.not();
    assert_eq!(not_q.truth(), Truth::False);
    // The conditional is `p OR NOT (NOT q)`, that is `Unknown OR True`.
    let if_p_then_q = p.cond(&not_q);
    assert_eq!(if_p_then_q.truth(), Truth::True);
    assert_eq!(if_p_then_q.name(), "p->~q");
    let taut = p_or_q.bicond(&if_p_then_q);
    assert_eq!(taut.truth(), Truth::True);
    assert_eq!(taut.name(), "(pvq)<->(p->~q)");
    assert!(taut.is_tautology());
    assert!(!taut.is_contradiction());
    assert!(!taut.is_axiom());
}

#[test]
fn same_named_atoms_are_independent() {
    let p1 = atom("p", Truth::True);
    let p2 = atom("p", Truth::False);
    let both = p1.and(&p2);
    assert_eq!(both.name(), "p^p");
    assert_eq!(both.truth(), Truth::False);
    assert_eq!(p1.or(&p2).truth(), Truth::True);
    assert_eq!(p1.xor(&p2).truth(), Truth::True);
    assert_eq!(p1.bicond(&p2).truth(), Truth::False);
    assert_eq!(p1.truth(), Truth::True);
    assert_eq!(p2.truth(), Truth::False);
}
