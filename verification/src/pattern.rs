//! The operation vocabulary and the pattern container.

use vstd::prelude::*;

verus! {

/// Operations from one integer to another.
#[derive(Debug, Eq, Hash, PartialOrd, Ord)]
pub enum PatternElem {
    // Listed alphabetically to make equality sorting intuitive.
    Const(i32),
    Cube,
    CubeRoot,
    Custom(CustomPatternElem),
    Div(i32),
    Meta(Pattern),
    Mod(i32),
    Mult(i32),
    Plus(i32),
    Square,
    SquareRoot,
}

/// A caller-registered custom operation: a binary predicate over two observed
/// values, known here by the identity the embedding application assigns to it,
/// together with its display label. The predicate itself is executable code
/// that this crate never runs; two custom operations are interchangeable
/// exactly when identity and label agree.
#[derive(Debug, Eq, Hash, PartialOrd, Ord)]
pub struct CustomPatternElem {
    check_id: u64,
    repr: String,
}

/// A sequence of operations defining a pattern.
#[derive(Debug, Eq, Hash, PartialOrd, Ord)]
pub struct Pattern(Vec<PatternElem>);

impl View for Pattern {
    type V = Seq<PatternElem>;

    closed spec fn view(&self) -> Seq<PatternElem> {
        self.0@
    }
}

impl CustomPatternElem {
    /// The identity the embedding application assigned to the predicate.
    pub closed spec fn spec_id(&self) -> u64 {
        self.check_id
    }

    /// The display label.
    pub closed spec fn spec_label(&self) -> Seq<char> {
        self.repr@
    }
}

/// What it means for two custom operations to be equal: same predicate
/// identity and same label text.
pub open spec fn custom_eq(a: CustomPatternElem, b: CustomPatternElem) -> bool {
    a.spec_id() == b.spec_id() && a.spec_label() == b.spec_label()
}

/// Structural equality of two operations: same variant, equal operands, and
/// (for nested patterns) element-wise equal sub-patterns.
pub open spec fn elem_eq(a: PatternElem, b: PatternElem) -> bool
    decreases a,
{
    match (a, b) {
        (PatternElem::Const(i), PatternElem::Const(j)) => i == j,
        (PatternElem::Cube, PatternElem::Cube) => true,
        (PatternElem::CubeRoot, PatternElem::CubeRoot) => true,
        (PatternElem::Custom(c1), PatternElem::Custom(c2)) => custom_eq(c1, c2),
        (PatternElem::Div(i), PatternElem::Div(j)) => i == j,
        (PatternElem::Meta(p1), PatternElem::Meta(p2)) => elems_eq(p1@, p2@),
        (PatternElem::Mod(i), PatternElem::Mod(j)) => i == j,
        (PatternElem::Mult(i), PatternElem::Mult(j)) => i == j,
        (PatternElem::Plus(i), PatternElem::Plus(j)) => i == j,
        (PatternElem::Square, PatternElem::Square) => true,
        (PatternElem::SquareRoot, PatternElem::SquareRoot) => true,
        _ => false,
    }
}

/// Element-wise structural equality of two operation sequences.
pub open spec fn elems_eq(s1: Seq<PatternElem>, s2: Seq<PatternElem>) -> bool
    decreases s1,
{
    s1.len() == s2.len() && (forall|i: int| 0 <= i < s1.len() ==> elem_eq(s1[i], s2[i]))
}

/// The operand of an operation, for the variants that carry one.
pub open spec fn spec_get_operand(e: PatternElem) -> Option<i32> {
    match e {
        PatternElem::Plus(i) => Some(i),
        PatternElem::Mult(i) => Some(i),
        PatternElem::Div(i) => Some(i),
        PatternElem::Mod(i) => Some(i),
        _ => None,
    }
}

/// The sequence decomposes into repeats of its length-`k` prefix, compared
/// under `same_type`: `k` divides the length, and every element has the same
/// operator type as the element at its index modulo `k`.
pub open spec fn repeats_with(s: Seq<PatternElem>, k: int) -> bool {
    (s.len() as int) % k == 0 && (forall|i: int|
        0 <= i < s.len() ==> #[trigger] same_type(s[i], s[i % k]))
}

/// The sequence of operations, compared pairwise under `same_type`, is a
/// non-trivial repetition of some shorter block: there is a block length `k`
/// with `1 <= k < len` that divides the length and reproduces every element.
/// Sequences of length 0 or 1 admit no such `k` and never repeat.
pub open spec fn is_repeating_types(s: Seq<PatternElem>) -> bool {
    exists|k: int| 1 <= k < s.len() && #[trigger] repeats_with(s, k)
}

/// The coarse "same operator type" equivalence: operand values are ignored
/// for the operand-carrying variants, custom operations compare by full
/// equality, and nested patterns never match. Square pairs with SquareRoot
/// one-directionally (and not with itself); this mirrors the documented
/// behaviour of the equivalence table and is kept as it stands.
pub open spec fn same_type(a: PatternElem, b: PatternElem) -> bool {
    match (a, b) {
        (PatternElem::Custom(c1), PatternElem::Custom(c2)) => custom_eq(c1, c2),
        (PatternElem::Const(_), PatternElem::Const(_)) => true,
        (PatternElem::Cube, PatternElem::Cube) => true,
        (PatternElem::CubeRoot, PatternElem::CubeRoot) => true,
        (PatternElem::Div(_), PatternElem::Div(_)) => true,
        (PatternElem::Mod(_), PatternElem::Mod(_)) => true,
        (PatternElem::Mult(_), PatternElem::Mult(_)) => true,
        (PatternElem::Plus(_), PatternElem::Plus(_)) => true,
        (PatternElem::Square, PatternElem::SquareRoot) => true,
        (PatternElem::SquareRoot, PatternElem::SquareRoot) => true,
        _ => false,
    }
}

/// The short notation an operation renders to: `=i`, `+i` (or the bare
/// negative number), `*i`, `/i`, `%i`, `^2`, `^3`, `root 2`, `root 3`, the
/// custom label verbatim, or the bracketed sub-pattern for nested patterns.
pub open spec fn render_elem_spec(e: PatternElem) -> Seq<char>
    decreases e,
{
    match e {
        PatternElem::Const(i) => seq!['='] + crate::digits::decimal(i as int),
        PatternElem::Cube => seq!['^', '3'],
        PatternElem::CubeRoot => seq!['r', 'o', 'o', 't', ' ', '3'],
        PatternElem::Custom(c) => c.spec_label(),
        PatternElem::Div(i) => seq!['/'] + crate::digits::decimal(i as int),
        PatternElem::Meta(p) => seq!['['] + render_elems_spec(p@) + seq!['.', '.', '.', ']'],
        PatternElem::Mod(i) => seq!['%'] + crate::digits::decimal(i as int),
        PatternElem::Mult(i) => seq!['*'] + crate::digits::decimal(i as int),
        PatternElem::Plus(i) => if i >= 0 {
            seq!['+'] + crate::digits::decimal(i as int)
        } else {
            crate::digits::decimal(i as int)
        },
        PatternElem::Square => seq!['^', '2'],
        PatternElem::SquareRoot => seq!['r', 'o', 'o', 't', ' ', '2'],
    }
}

/// The rendering of an operation sequence: each element's rendering, joined
/// in order with a comma and a space; the empty sequence renders to the
/// empty string.
pub open spec fn render_elems_spec(s: Seq<PatternElem>) -> Seq<char>
    decreases s,
{
    if s.len() == 0 {
        Seq::empty()
    } else if s.len() == 1 {
        render_elem_spec(s[0])
    } else {
        render_elems_spec(s.subrange(0, s.len() - 1)) + seq![',', ' ']
            + render_elem_spec(s[s.len() - 1])
    }
}

/// Renders one operation.
fn render_elem(e: &PatternElem) -> (r: String)
    ensures
        r@ == render_elem_spec(*e),
    decreases *e,
{
    match e {
        PatternElem::Const(i) => {
            let mut s = String::from_str("=");
            s.append(crate::digits::i32_decimal(*i).as_str());
            proof {
                reveal_strlit("=");
                assert(s@ =~= render_elem_spec(*e));
            }
            s
        },
        PatternElem::Cube => {
            let s = String::from_str("^3");
            proof {
                reveal_strlit("^3");
                assert(s@ =~= render_elem_spec(*e));
            }
            s
        },
        PatternElem::CubeRoot => {
            let s = String::from_str("root 3");
            proof {
                reveal_strlit("root 3");
                assert(s@ =~= render_elem_spec(*e));
            }
            s
        },
        PatternElem::Custom(c) => c.repr.clone(),
        PatternElem::Div(i) => {
            let mut s = String::from_str("/");
            s.append(crate::digits::i32_decimal(*i).as_str());
            proof {
                reveal_strlit("/");
                assert(s@ =~= render_elem_spec(*e));
            }
            s
        },
        PatternElem::Meta(p) => {
            let mut s = String::from_str("[");
            s.append(render_elems(&p.0, p.0.len()).as_str());
            s.append("...]");
            proof {
                reveal_strlit("[");
                reveal_strlit("...]");
                assert(p@.subrange(0, p@.len() as int) =~= p@);
                assert(s@ =~= render_elem_spec(*e));
            }
            s
        },
        PatternElem::Mod(i) => {
            let mut s = String::from_str("%");
            s.append(crate::digits::i32_decimal(*i).as_str());
            proof {
                reveal_strlit("%");
                assert(s@ =~= render_elem_spec(*e));
            }
            s
        },
        PatternElem::Mult(i) => {
            let mut s = String::from_str("*");
            s.append(crate::digits::i32_decimal(*i).as_str());
            proof {
                reveal_strlit("*");
                assert(s@ =~= render_elem_spec(*e));
            }
            s
        },
        PatternElem::Plus(i) => {
            if *i >= 0 {
                let mut s = String::from_str("+");
                s.append(crate::digits::i32_decimal(*i).as_str());
                proof {
                    reveal_strlit("+");
                    assert(s@ =~= render_elem_spec(*e));
                }
                s
            } else {
                crate::digits::i32_decimal(*i)
            }
        },
        PatternElem::Square => {
            let s = String::from_str("^2");
            proof {
                reveal_strlit("^2");
                assert(s@ =~= render_elem_spec(*e));
            }
            s
        },
        PatternElem::SquareRoot => {
            let s = String::from_str("root 2");
            proof {
                reveal_strlit("root 2");
                assert(s@ =~= render_elem_spec(*e));
            }
            s
        },
    }
}

/// Renders the first `n` operations of a vector, comma-space separated.
fn render_elems(v: &Vec<PatternElem>, n: usize) -> (r: String)
    requires
        n <= v@.len(),
    ensures
        r@ == render_elems_spec(v@.subrange(0, n as int)),
    decreases *v, n,
{
    if n == 0 {
        let s = String::new();
        proof {
            assert(s@ =~= render_elems_spec(v@.subrange(0, 0)));
        }
        s
    } else if n == 1 {
        let s = render_elem(&v[0]);
        proof {
            assert(v@.subrange(0, 1)[0] == v@[0]);
            assert(s@ =~= render_elems_spec(v@.subrange(0, 1)));
        }
        s
    } else {
        let mut s = render_elems(v, n - 1);
        s.append(", ");
        let e = render_elem(&v[n - 1]);
        s.append(e.as_str());
        proof {
            reveal_strlit(", ");
            let sub = v@.subrange(0, n as int);
            assert(sub.subrange(0, n - 1) =~= v@.subrange(0, n - 1));
            assert(sub[n - 1] == v@[n - 1]);
            assert(s@ =~= render_elems_spec(sub));
        }
        s
    }
}

impl PatternElem {
    /// Renders the operation to its short textual notation.
    pub fn render(&self) -> (r: String)
        ensures
            r@ == render_elem_spec(*self),
    {
        render_elem(self)
    }

    pub fn get_operand(&self) -> (r: Option<i32>)
        ensures
            r == spec_get_operand(*self),
    {
        match *self {
            PatternElem::Plus(i) | PatternElem::Mult(i) | PatternElem::Div(i)
            | PatternElem::Mod(i) => Some(i),
            _ => None,
        }
    }

    pub fn same_operator_type(&self, other: &Self) -> (r: bool)
        ensures
            r == same_type(*self, *other),
    {
        match (self, other) {
            (PatternElem::Custom(c1), PatternElem::Custom(c2)) => c1 == c2,
            (PatternElem::Const(_), PatternElem::Const(_)) => true,
            (PatternElem::Cube, PatternElem::Cube) => true,
            (PatternElem::CubeRoot, PatternElem::CubeRoot) => true,
            (PatternElem::Div(_), PatternElem::Div(_)) => true,
            (PatternElem::Mod(_), PatternElem::Mod(_)) => true,
            (PatternElem::Mult(_), PatternElem::Mult(_)) => true,
            (PatternElem::Plus(_), PatternElem::Plus(_)) => true,
            (PatternElem::Square, PatternElem::SquareRoot) => true,
            (PatternElem::SquareRoot, PatternElem::SquareRoot) => true,
            _ => false,
        }
    }
}

impl CustomPatternElem {
    /// Registers a custom operation under the identity `check_id` chosen by
    /// the embedding application for its predicate, with display label `repr`.
    pub fn new(check_id: u64, repr: &str) -> (r: Self)
        ensures
            r.spec_id() == check_id,
            r.spec_label() == repr@,
    {
        CustomPatternElem { check_id, repr: String::from_str(repr) }
    }
}

/// Decides `elem_eq` for two operations.
fn elem_eq_exec(a: &PatternElem, b: &PatternElem) -> (r: bool)
    ensures
        r == elem_eq(*a, *b),
    decreases *a,
{
    match (a, b) {
        (PatternElem::Const(i), PatternElem::Const(j)) => i == j,
        (PatternElem::Cube, PatternElem::Cube) => true,
        (PatternElem::CubeRoot, PatternElem::CubeRoot) => true,
        (PatternElem::Custom(c1), PatternElem::Custom(c2)) => c1 == c2,
        (PatternElem::Div(i), PatternElem::Div(j)) => i == j,
        (PatternElem::Meta(p1), PatternElem::Meta(p2)) => {
            p1.0.len() == p2.0.len() && elems_prefix_eq_exec(&p1.0, &p2.0, p1.0.len())
        },
        (PatternElem::Mod(i), PatternElem::Mod(j)) => i == j,
        (PatternElem::Mult(i), PatternElem::Mult(j)) => i == j,
        (PatternElem::Plus(i), PatternElem::Plus(j)) => i == j,
        (PatternElem::Square, PatternElem::Square) => true,
        (PatternElem::SquareRoot, PatternElem::SquareRoot) => true,
        _ => false,
    }
}

/// Decides element-wise equality of the first `n` operations of two vectors.
fn elems_prefix_eq_exec(v1: &Vec<PatternElem>, v2: &Vec<PatternElem>, n: usize) -> (r: bool)
    requires
        n <= v1@.len(),
        n <= v2@.len(),
    ensures
        r == (forall|i: int| 0 <= i < n ==> elem_eq(v1@[i], v2@[i])),
    decreases *v1, n,
{
    if n == 0 {
        true
    } else {
        elems_prefix_eq_exec(v1, v2, n - 1) && elem_eq_exec(&v1[n - 1], &v2[n - 1])
    }
}

impl PartialEq for PatternElem {
    fn eq(&self, other: &Self) -> (r: bool) {
        elem_eq_exec(self, other)
    }
}

impl vstd::std_specs::cmp::PartialEqSpecImpl for PatternElem {
    open spec fn obeys_eq_spec() -> bool {
        true
    }

    open spec fn eq_spec(&self, other: &Self) -> bool {
        elem_eq(*self, *other)
    }
}

impl PartialEq for Pattern {
    fn eq(&self, other: &Self) -> (r: bool) {
        self.0.len() == other.0.len() && elems_prefix_eq_exec(&self.0, &other.0, self.0.len())
    }
}

impl vstd::std_specs::cmp::PartialEqSpecImpl for Pattern {
    open spec fn obeys_eq_spec() -> bool {
        true
    }

    open spec fn eq_spec(&self, other: &Self) -> bool {
        elems_eq(self@, other@)
    }
}

/// Copies one operation; the copy is structurally equal to the original.
fn clone_elem(e: &PatternElem) -> (r: PatternElem)
    ensures
        elem_eq(*e, r),
    decreases *e,
{
    match e {
        PatternElem::Const(i) => PatternElem::Const(*i),
        PatternElem::Cube => PatternElem::Cube,
        PatternElem::CubeRoot => PatternElem::CubeRoot,
        PatternElem::Custom(c) => PatternElem::Custom(c.clone()),
        PatternElem::Div(i) => PatternElem::Div(*i),
        PatternElem::Meta(p) => PatternElem::Meta(Pattern(clone_elems_prefix(&p.0, p.0.len()))),
        PatternElem::Mod(i) => PatternElem::Mod(*i),
        PatternElem::Mult(i) => PatternElem::Mult(*i),
        PatternElem::Plus(i) => PatternElem::Plus(*i),
        PatternElem::Square => PatternElem::Square,
        PatternElem::SquareRoot => PatternElem::SquareRoot,
    }
}

/// Copies the first `n` operations of a vector, in order.
fn clone_elems_prefix(v: &Vec<PatternElem>, n: usize) -> (r: Vec<PatternElem>)
    requires
        n <= v@.len(),
    ensures
        r@.len() == n,
        forall|i: int| 0 <= i < n ==> elem_eq(v@[i], r@[i]),
    decreases *v, n,
{
    if n == 0 {
        Vec::new()
    } else {
        let mut r = clone_elems_prefix(v, n - 1);
        r.push(clone_elem(&v[n - 1]));
        r
    }
}

impl Clone for PatternElem {
    /// The copy is structurally equal to the original.
    fn clone(&self) -> (r: Self)
        ensures
            elem_eq(*self, r),
    {
        clone_elem(self)
    }
}

impl Clone for CustomPatternElem {
    /// The copy equals the original.
    fn clone(&self) -> (r: Self)
        ensures
            r == *self,
    {
        CustomPatternElem { check_id: self.check_id, repr: self.repr.clone() }
    }
}

impl Clone for Pattern {
    /// The copy holds a structurally equal operation sequence.
    fn clone(&self) -> (r: Self)
        ensures
            elems_eq(self@, r@),
    {
        Pattern(clone_elems_prefix(&self.0, self.0.len()))
    }
}

impl Pattern {
    /// Constructs a new pattern given a vector of operations.
    pub fn new(elems: Vec<PatternElem>) -> (r: Self)
        ensures
            r@ == elems@,
    {
        Pattern(elems)
    }

    /// Constructs a new empty pattern.
    pub fn empty() -> (r: Self)
        ensures
            r@ == Seq::<PatternElem>::empty(),
    {
        Pattern::new(Vec::new())
    }

    pub fn len(&self) -> (r: usize)
        ensures
            r == self@.len(),
    {
        self.0.len()
    }

    pub fn is_empty(&self) -> (r: bool)
        ensures
            r == (self@.len() == 0),
    {
        self.0.is_empty()
    }

    /// Appends each of the operations in `candidates` to the pattern
    /// separately, returning one new pattern per candidate, in candidate
    /// order; the receiver is unchanged.
    pub fn extend_each(&self, candidates: &Vec<PatternElem>) -> (r: Vec<Self>)
        ensures
            r@.len() == candidates@.len(),
            forall|i: int|
                0 <= i < r@.len() ==> {
                    &&& (#[trigger] r@[i])@.len() == self@.len() + 1
                    &&& (forall|j: int|
                        0 <= j < self@.len() ==> elem_eq(self@[j], #[trigger] r@[i]@[j]))
                    &&& elem_eq(candidates@[i], r@[i]@[self@.len() as int])
                },
    {
        let mut r: Vec<Pattern> = Vec::new();
        let mut i: usize = 0;
        while i < candidates.len()
            invariant
                i <= candidates@.len(),
                r@.len() == i,
                forall|m: int|
                    0 <= m < i ==> {
                        &&& (#[trigger] r@[m])@.len() == self@.len() + 1
                        &&& (forall|j: int|
                            0 <= j < self@.len() ==> elem_eq(self@[j], #[trigger] r@[m]@[j]))
                        &&& elem_eq(candidates@[m], r@[m]@[self@.len() as int])
                    },
            decreases candidates@.len() - i,
        {
            let mut v = clone_elems_prefix(&self.0, self.0.len());
            v.push(clone_elem(&candidates[i]));
            r.push(Pattern(v));
            i = i + 1;
        }
        r
    }

    /// True iff `k` divides the pattern's length and every operation has the
    /// same operator type as the one at its index modulo `k`.
    fn block_repeats(&self, k: usize) -> (r: bool)
        requires
            1 <= k < self@.len(),
            (self@.len() as int) % (k as int) == 0,
        ensures
            r == repeats_with(self@, k as int),
    {
        let n = self.0.len();
        let mut i: usize = 0;
        while i < n
            invariant
                i <= n,
                n == self@.len(),
                1 <= k < n,
                (self@.len() as int) % (k as int) == 0,
                forall|m: int|
                    0 <= m < i ==> #[trigger] same_type(self@[m], self@[m % (k as int)]),
            decreases n - i,
        {
            if !self.0[i].same_operator_type(&self.0[i % k]) {
                return false;
            }
            i = i + 1;
        }
        true
    }

    /// True iff the operation sequence, compared pairwise under the "same
    /// operator type" equivalence, is a non-trivial repetition of a shorter
    /// block. Operand values play no part; only operator types do.
    pub fn has_repeating_types(&self) -> (r: bool)
        ensures
            r == is_repeating_types(self@),
    {
        let n = self.0.len();
        let mut k: usize = 1;
        while k < n
            invariant
                1 <= k,
                n == self@.len(),
                forall|m: int| 1 <= m < k ==> !(#[trigger] repeats_with(self@, m)),
            decreases n - k,
        {
            if n % k == 0 && self.block_repeats(k) {
                return true;
            }
            k = k + 1;
        }
        false
    }

    /// Renders the pattern: each operation's rendering, comma-space joined,
    /// in sequence order; the empty pattern renders to the empty string.
    pub fn render(&self) -> (r: String)
        ensures
            r@ == render_elems_spec(self@),
    {
        let r = render_elems(&self.0, self.0.len());
        proof {
            assert(self@.subrange(0, self@.len() as int) =~= self@);
        }
        r
    }

    /// An ordered, read-only snapshot of the contained operations.
    pub fn iter(&self) -> (r: Vec<PatternElem>)
        ensures
            r@.len() == self@.len(),
            forall|i: int| 0 <= i < self@.len() ==> elem_eq(self@[i], r@[i]),
    {
        clone_elems_prefix(&self.0, self.0.len())
    }
}

impl PartialEq for CustomPatternElem {
    fn eq(&self, other: &Self) -> (r: bool) {
        self.check_id == other.check_id && self.repr == other.repr
    }
}

impl vstd::std_specs::cmp::PartialEqSpecImpl for CustomPatternElem {
    open spec fn obeys_eq_spec() -> bool {
        true
    }

    open spec fn eq_spec(&self, other: &Self) -> bool {
        custom_eq(*self, *other)
    }
}

/// Both operations are of the same operand-carrying kind (the operand values
/// themselves may differ).
pub open spec fn operand_variants_match(a: PatternElem, b: PatternElem) -> bool {
    match (a, b) {
        (PatternElem::Const(_), PatternElem::Const(_)) => true,
        (PatternElem::Div(_), PatternElem::Div(_)) => true,
        (PatternElem::Mod(_), PatternElem::Mod(_)) => true,
        (PatternElem::Mult(_), PatternElem::Mult(_)) => true,
        (PatternElem::Plus(_), PatternElem::Plus(_)) => true,
        _ => false,
    }
}

/// Structural equality of operations is reflexive.
pub proof fn lemma_elem_eq_reflexive(e: PatternElem)
    ensures
        elem_eq(e, e),
    decreases e,
{
    match e {
        PatternElem::Meta(p) => {
            assert forall|i: int| 0 <= i < p@.len() implies elem_eq(p@[i], p@[i]) by {
                lemma_elem_eq_reflexive(p@[i]);
            }
        },
        _ => {},
    }
}

/// Two patterns built from the same ordered operation sequence compare
/// equal (their `==` returns true).
pub proof fn lemma_same_sequence_gives_equal_patterns(p: Pattern, q: Pattern)
    requires
        p@ == q@,
    ensures
        elems_eq(p@, q@),
{
    assert forall|i: int| 0 <= i < p@.len() implies elem_eq(p@[i], q@[i]) by {
        lemma_elem_eq_reflexive(p@[i]);
    }
}

/// Patterns differing only in operand values are unequal, yet compare as the
/// same operator type element-wise: operand values never affect the operator
/// type, only structural equality.
pub proof fn lemma_operand_only_difference(p: Pattern, q: Pattern)
    requires
        p@.len() == q@.len(),
        forall|i: int| 0 <= i < p@.len() ==> #[trigger] operand_variants_match(p@[i], q@[i]),
        exists|i: int|
            0 <= i < p@.len() && #[trigger] spec_get_operand(p@[i]) != spec_get_operand(q@[i]),
    ensures
        !elems_eq(p@, q@),
        forall|i: int| 0 <= i < p@.len() ==> #[trigger] same_type(p@[i], q@[i]),
{
    let w = choose|i: int|
        0 <= i < p@.len() && #[trigger] spec_get_operand(p@[i]) != spec_get_operand(q@[i]);
    assert(operand_variants_match(p@[w], q@[w]));
    assert(!elem_eq(p@[w], q@[w]));
    assert forall|i: int| 0 <= i < p@.len() implies #[trigger] same_type(p@[i], q@[i]) by {
        assert(operand_variants_match(p@[i], q@[i]));
    }
}

/// Sequences of length 0 or 1 are never a non-trivial repetition: no block
/// length `k` with `1 <= k < len` exists.
pub proof fn lemma_short_sequence_never_repeats(s: Seq<PatternElem>)
    requires
        s.len() <= 1,
    ensures
        !is_repeating_types(s),
{
}

/// Round trip: iterating a pattern yields a structurally equal snapshot (as
/// `iter` ensures), and a pattern rebuilt from that snapshot (as `new`
/// ensures) compares equal to the original.
pub proof fn lemma_iterate_rebuild_round_trip(p: Pattern, snapshot: Seq<PatternElem>, q: Pattern)
    requires
        snapshot.len() == p@.len(),
        forall|i: int| 0 <= i < p@.len() ==> elem_eq(p@[i], #[trigger] snapshot[i]),
        q@ == snapshot,
    ensures
        elems_eq(p@, q@),
{
}

} // verus!
