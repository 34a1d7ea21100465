use std::collections::hash_map::DefaultHasher;
use std::hash::Hash;
use std::hash::Hasher;

use sea_canal::CustomPatternElem;
use sea_canal::Pattern;
use sea_canal::PatternElem::{Const, Cube, CubeRoot, Custom, Div, Meta, Mod, Mult, Plus, Square, SquareRoot};

#[test]
fn get_operand_present_and_absent() {
    assert_eq!(Some(3), Plus(3).get_operand());
    assert_eq!(Some(-7), Mult(-7).get_operand());
    assert_eq!(Some(2), Div(2).get_operand());
    assert_eq!(Some(5), Mod(5).get_operand());
    assert_eq!(None, Const(9).get_operand());
    assert_eq!(None, Square.get_operand());
    assert_eq!(None, Cube.get_operand());
    assert_eq!(None, SquareRoot.get_operand());
    assert_eq!(None, CubeRoot.get_operand());
    assert_eq!(None, Meta(Pattern::empty()).get_operand());
}

#[test]
fn same_operator_type_ignores_operands() {
    assert!(Plus(3).same_operator_type(&Plus(-8)));
    assert!(Mult(2).same_operator_type(&Mult(9)));
    assert!(Div(1).same_operator_type(&Div(4)));
    assert!(Mod(6).same_operator_type(&Mod(0)));
    assert!(Const(1).same_operator_type(&Const(2)));
    assert!(!Plus(3).same_operator_type(&Mult(3)));
    assert!(!Const(3).same_operator_type(&Div(3)));
}

#[test]
fn same_operator_type_root_quirk() {
    // The equivalence table pairs Square with SquareRoot one-directionally
    // and does not pair Square with itself.
    assert!(Square.same_operator_type(&SquareRoot));
    assert!(!SquareRoot.same_operator_type(&Square));
    assert!(!Square.same_operator_type(&Square));
    assert!(SquareRoot.same_operator_type(&SquareRoot));
    assert!(Cube.same_operator_type(&Cube));
    assert!(CubeRoot.same_operator_type(&CubeRoot));
    assert!(!Cube.same_operator_type(&CubeRoot));
    assert!(!CubeRoot.same_operator_type(&Cube));
}

#[test]
fn same_operator_type_custom() {
    let a = CustomPatternElem::new(1, "is-prime-gap");
    let b = CustomPatternElem::new(1, "is-prime-gap");
    let c = CustomPatternElem::new(2, "is-prime-gap");
    let d = CustomPatternElem::new(1, "fib-step");
    assert!(Custom(a.clone()).same_operator_type(&Custom(b)));
    assert!(!Custom(a.clone()).same_operator_type(&Custom(c)));
    assert!(!Custom(a.clone()).same_operator_type(&Custom(d)));
    assert_eq!("is-prime-gap", Custom(a).render());
}

#[test]
fn extend_each_appends_each_candidate() {
    let pat = Pattern::new(vec![Plus(3), Mult(2)]);
    let pats = pat.extend_each(&vec![Div(2), Div(3)]);
    assert_eq!(
        pats,
        vec![
            Pattern::new(vec![Plus(3), Mult(2), Div(2)]),
            Pattern::new(vec![Plus(3), Mult(2), Div(3)]),
        ]
    );
    // The receiver is unchanged and independently usable afterwards.
    assert_eq!(pat, Pattern::new(vec![Plus(3), Mult(2)]));
    assert_eq!(2, pat.len());
    assert_eq!("+3, *2", pat.render());
}

#[test]
fn extend_each_empty_candidates() {
    let pat = Pattern::new(vec![Plus(3)]);
    let pats = pat.extend_each(&vec![]);
    assert!(pats.is_empty());
}

#[test]
fn has_repeating_types_short_sequences() {
    assert!(!Pattern::empty().has_repeating_types());
    assert!(!Pattern::new(vec![Plus(1)]).has_repeating_types());
}

#[test]
fn has_repeating_types_no_decomposition() {
    assert!(!Pattern::new(vec![Plus(1), Mult(2), SquareRoot]).has_repeating_types());
    assert!(!Pattern::new(vec![Plus(1), Mult(2), Plus(3), Div(4)]).has_repeating_types());
}

#[test]
fn has_repeating_types_ignores_operands() {
    assert!(Pattern::new(vec![Plus(1), Mult(2), Plus(5), Mult(9)]).has_repeating_types());
    assert!(Pattern::new(vec![Plus(1), Plus(2), Plus(3)]).has_repeating_types());
}

#[test]
fn has_repeating_types_square_quirk() {
    // Square does not pair with itself in the equivalence table, so two
    // Squares in a row are not a repetition, while two SquareRoots are.
    assert!(!Pattern::new(vec![Square, Square]).has_repeating_types());
    assert!(Pattern::new(vec![SquareRoot, SquareRoot]).has_repeating_types());
}

#[test]
fn pattern_equality_and_hash() {
    let p = Pattern::new(vec![Plus(4), Mod(-6), Meta(Pattern::new(vec![Square]))]);
    let q = Pattern::new(vec![Plus(4), Mod(-6), Meta(Pattern::new(vec![Square]))]);
    assert_eq!(p, q);
    let mut hp = DefaultHasher::new();
    p.hash(&mut hp);
    let mut hq = DefaultHasher::new();
    q.hash(&mut hq);
    assert_eq!(hp.finish(), hq.finish());
}

#[test]
fn pattern_operand_difference_is_unequal() {
    let p = Pattern::new(vec![Plus(4), Mult(2)]);
    let q = Pattern::new(vec![Plus(7), Mult(2)]);
    assert_ne!(p, q);
    assert!(p.iter()[0].same_operator_type(&q.iter()[0]));
    assert!(p.iter()[1].same_operator_type(&q.iter()[1]));
}

#[test]
fn iterate_and_rebuild_round_trip() {
    let p = Pattern::new(vec![Plus(4), Mod(-6), Meta(Pattern::new(vec![Cube, CubeRoot]))]);
    let rebuilt = Pattern::new(p.iter());
    assert_eq!(p, rebuilt);
}

#[test]
fn empty_len_is_empty() {
    let e = Pattern::empty();
    assert_eq!(0, e.len());
    assert!(e.is_empty());
    let p = Pattern::new(vec![Plus(1), Plus(2)]);
    assert_eq!(2, p.len());
    assert!(!p.is_empty());
}

#[test]
fn ordering_is_total_and_deterministic() {
    // Variants order by their fixed alphabetical-by-kind listing, then by
    // payload; patterns order componentwise.
    assert!(Const(5) < Cube);
    assert!(Cube < CubeRoot);
    assert!(Plus(1) < Plus(2));
    assert!(Plus(-3) < Square);
    let mut pats = vec![
        Pattern::new(vec![Plus(2)]),
        Pattern::new(vec![Plus(1), Mult(2)]),
        Pattern::new(vec![Plus(1)]),
    ];
    pats.sort();
    assert_eq!(
        pats,
        vec![
            Pattern::new(vec![Plus(1)]),
            Pattern::new(vec![Plus(1), Mult(2)]),
            Pattern::new(vec![Plus(2)]),
        ]
    );
}

#[test]
fn custom_pattern_elem_equality() {
    let a = CustomPatternElem::new(7, "gap");
    let b = CustomPatternElem::new(7, "gap");
    let c = CustomPatternElem::new(8, "gap");
    assert_eq!(a, b);
    assert_ne!(a, c);
}
