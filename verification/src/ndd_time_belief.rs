//! Symbolic beliefs about the bottleneck capacity: a fixed table of
//! guarded linear inequalities over paired rate observations `a[0..4]`
//! and `s[0..4]`, evaluated in exact rational arithmetic. Every clause
//! whose guard (a disjunction of comparisons) fails contributes its
//! half-lines, and the result is the intersection of all contributions,
//! starting from the whole line.
//!
//! Arithmetic is exact: evaluation reports failure instead of rounding
//! when an intermediate fraction leaves the representable window, and
//! succeeds if and only if every needed fraction fits.

use vstd::prelude::*;
use crate::interval::{Bnd, IntervalList};
use crate::rational::{rat_le, rat_wf, spec_fits, Rational};

verus! {

/// One linear term: the coefficient `p / q` times the variable `v`
/// (`0..4` index `a`, `5..9` index `s`).
#[derive(Clone, Copy, Debug, PartialEq, Eq, Structural)]
pub struct Term {
    pub p: i64,
    pub q: i64,
    pub v: u8,
}

/// One half-line constraint on the belief: the evaluated expression is a
/// lower or upper endpoint, included or excluded.
pub struct HalfLine {
    pub lower: bool,
    pub incl: bool,
    pub terms: Vec<Term>,
}

/// One guarded table entry: when no guard comparison holds, every
/// half-line is intersected into the running belief.
pub struct Clause {
    pub guard: Vec<(u8, u8)>,
    pub lines: Vec<HalfLine>,
}

pub open spec fn term_view(t: Term) -> (int, int, int) {
    (t.p as int, t.q as int, t.v as int)
}

pub open spec fn line_view(l: HalfLine) -> (bool, bool, Seq<(int, int, int)>) {
    (l.lower, l.incl, l.terms@.map_values(|t: Term| term_view(t)))
}

pub open spec fn clause_view(c: Clause) -> (Seq<(int, int)>, Seq<(bool, bool, Seq<(int, int, int)>)>) {
    (
        c.guard@.map_values(|g: (u8, u8)| (g.0 as int, g.1 as int)),
        c.lines@.map_values(|l: HalfLine| line_view(l)),
    )
}

pub open spec fn clause_views(s: Seq<Clause>) -> Seq<(Seq<(int, int)>, Seq<(bool, bool, Seq<(int, int, int)>)>)> {
    s.map_values(|c: Clause| clause_view(c))
}

/// Well-formed inputs: five observations on each side, every one a
/// valid rational.
pub open spec fn inputs_wf(av: Seq<Rational>, sv: Seq<Rational>) -> bool {
    &&& av.len() == 5
    &&& sv.len() == 5
    &&& forall|k: int| 0 <= k < 5 ==> rat_wf(#[trigger] av[k])
    &&& forall|k: int| 0 <= k < 5 ==> rat_wf(#[trigger] sv[k])
}

/// The observation a variable index denotes.
pub open spec fn var_rat(av: Seq<Rational>, sv: Seq<Rational>, v: int) -> Rational {
    if 0 <= v < 5 {
        av[v]
    } else if 5 <= v < 10 {
        sv[v - 5]
    } else {
        Rational { num: 0, den: 1 }
    }
}

/// One guard comparison `x <= y` (false on an out-of-range index).
pub open spec fn atom_sat(av: Seq<Rational>, sv: Seq<Rational>, g: (int, int)) -> bool {
    0 <= g.0 < 10 && 0 <= g.1 < 10 && rat_le(var_rat(av, sv, g.0), var_rat(av, sv, g.1))
}

/// A guard holds when any of its comparisons does.
pub open spec fn guard_sat(av: Seq<Rational>, sv: Seq<Rational>, guard: Seq<(int, int)>) -> bool {
    exists|k: int| 0 <= k < guard.len() && atom_sat(av, sv, #[trigger] guard[k])
}

/// Raw fraction addition.
pub open spec fn pair_add(x: (int, int), y: (int, int)) -> (int, int) {
    (x.0 * y.1 + y.0 * x.1, x.1 * y.1)
}

/// The raw fraction of one term.
pub open spec fn term_raw(av: Seq<Rational>, sv: Seq<Rational>, t: (int, int, int)) -> (int, int) {
    let x = var_rat(av, sv, t.2);
    ((x.num as int) * t.0, (x.den as int) * t.1)
}

/// The exact value of a linear expression, as a raw fraction summed left
/// to right.
pub open spec fn expr_val(av: Seq<Rational>, sv: Seq<Rational>, terms: Seq<(int, int, int)>) -> (
    int,
    int,
)
    decreases terms.len(),
{
    if terms.len() == 0 {
        (0, 1)
    } else {
        pair_add(expr_val(av, sv, terms.drop_last()), term_raw(av, sv, terms.last()))
    }
}

/// One evaluation step stays representable: a sane term whose raw
/// fraction fits.
pub open spec fn term_ok(av: Seq<Rational>, sv: Seq<Rational>, t: (int, int, int)) -> bool {
    t.1 > 0 && 0 <= t.2 < 10 && spec_fits(term_raw(av, sv, t))
}

/// Every step of evaluating the expression, left to right, stays
/// representable.
pub open spec fn expr_ok(av: Seq<Rational>, sv: Seq<Rational>, terms: Seq<(int, int, int)>) -> bool
    decreases terms.len(),
{
    if terms.len() == 0 {
        true
    } else {
        &&& expr_ok(av, sv, terms.drop_last())
        &&& term_ok(av, sv, terms.last())
        &&& spec_fits(pair_add(expr_val(av, sv, terms.drop_last()), term_raw(av, sv, terms.last())))
    }
}

/// `n/d` satisfies one half-line constraint.
pub open spec fn line_sat(
    av: Seq<Rational>,
    sv: Seq<Rational>,
    l: (bool, bool, Seq<(int, int, int)>),
    n: int,
    d: int,
) -> bool {
    let b = expr_val(av, sv, l.2);
    if l.0 {
        if l.1 {
            b.0 * d <= n * b.1
        } else {
            b.0 * d < n * b.1
        }
    } else {
        if l.1 {
            n * b.1 <= b.0 * d
        } else {
            n * b.1 < b.0 * d
        }
    }
}

/// `n/d` satisfies one clause: its guard held (so it contributed
/// nothing), or all its half-lines hold.
pub open spec fn clause_sat(
    av: Seq<Rational>,
    sv: Seq<Rational>,
    c: (Seq<(int, int)>, Seq<(bool, bool, Seq<(int, int, int)>)>),
    n: int,
    d: int,
) -> bool {
    guard_sat(av, sv, c.0) || (forall|l: int|
        0 <= l < c.1.len() ==> line_sat(av, sv, #[trigger] c.1[l], n, d))
}

/// Membership of `n/d` in the belief set: every clause of the table is
/// satisfied.
pub open spec fn beliefs_contain(av: Seq<Rational>, sv: Seq<Rational>, n: int, d: int) -> bool {
    forall|c: int|
        0 <= c < belief_table().len() ==> clause_sat(av, sv, #[trigger] belief_table()[c], n, d)
}

/// One clause evaluates without leaving the representable window (a held
/// guard skips its expressions).
pub open spec fn clause_ok(
    av: Seq<Rational>,
    sv: Seq<Rational>,
    c: (Seq<(int, int)>, Seq<(bool, bool, Seq<(int, int, int)>)>),
) -> bool {
    guard_sat(av, sv, c.0) || (forall|l: int|
        0 <= l < c.1.len() ==> expr_ok(av, sv, (#[trigger] c.1[l]).2))
}

/// The whole table evaluates exactly on these inputs.
pub open spec fn beliefs_evaluable(av: Seq<Rational>, sv: Seq<Rational>) -> bool {
    forall|c: int| 0 <= c < belief_table().len() ==> clause_ok(av, sv, #[trigger] belief_table()[c])
}

pub open spec fn belief_table_part0() -> Seq<(Seq<(int, int)>, Seq<(bool, bool, Seq<(int, int, int)>)>)> {
    seq![
        (Seq::<(int, int)>::empty(), seq![(true, true, seq![(1int, 1int, 8int), (-1int, 1int, 7int)])]),
        (Seq::<(int, int)>::empty(), seq![(true, true, seq![(1int, 1int, 7int), (-1int, 1int, 6int)])]),
        (Seq::<(int, int)>::empty(), seq![(true, true, seq![(1int, 1int, 6int), (-1int, 1int, 5int)])]),
        (seq![(8int, 2int)], seq![(true, false, seq![(1int, 2int, 8int), (-1int, 2int, 6int)])]),
        (seq![(1int, 7int), (8int, 2int)], seq![(true, false, seq![(-1int, 1int, 7int), (1int, 1int, 8int)])]),
        (seq![(3int, 9int), (1int, 7int), (8int, 2int)], seq![(true, true, seq![(-4int, 1int, 9int), (9int, 1int, 8int), (-5int, 1int, 7int)])]),
        (seq![(0int, 8int), (9int, 1int)], seq![(true, false, seq![(1int, 1int, 9int), (-1int, 1int, 8int)])]),
        (seq![(1int, 8int), (9int, 2int)], seq![(true, false, seq![(1int, 1int, 9int), (-1int, 1int, 8int)])]),
        (seq![(3int, 9int), (0int, 6int), (8int, 2int)], seq![(true, true, seq![(-18int, 7int, 9int), (61int, 14int, 8int), (-25int, 14int, 6int)])]),
        (seq![(0int, 6int), (7int, 1int), (3int, 8int)], seq![(true, true, seq![(61int, 29int, 7int), (-16int, 29int, 8int), (-45int, 29int, 6int)])]),
    ]
}

pub open spec fn belief_table_part1() -> Seq<(Seq<(int, int)>, Seq<(bool, bool, Seq<(int, int, int)>)>)> {
    seq![
        (seq![(3int, 9int), (0int, 6int), (8int, 1int)], seq![(true, true, seq![(-8int, 37int, 9int), (61int, 74int, 8int), (-45int, 74int, 6int)])]),
        (seq![(7int, 1int), (3int, 8int)], seq![(true, true, seq![(61int, 74int, 7int), (-8int, 37int, 8int), (-45int, 74int, 5int)])]),
        (Seq::<(int, int)>::empty(), seq![(true, false, seq![(-8int, 37int, 3int), (61int, 74int, 7int), (-45int, 74int, 5int)]), (false, true, seq![(-125int, 186int, 5int), (-32int, 93int, 4int), (125int, 186int, 7int), (32int, 93int, 3int)]), (true, true, seq![(-125int, 186int, 5int), (-32int, 93int, 9int), (125int, 186int, 7int), (32int, 93int, 3int)])]),
        (seq![(2int, 8int), (9int, 3int), (7int, 1int)], seq![(true, true, seq![(5int, 1int, 9int), (-9int, 1int, 8int), (4int, 1int, 7int)])]),
        (seq![(2int, 8int), (9int, 3int), (7int, 0int)], seq![(true, true, seq![(45int, 29int, 9int), (-61int, 29int, 8int), (16int, 29int, 7int)])]),
        (seq![(2int, 8int), (7int, 1int)], seq![(true, true, seq![(-2int, 3int, 8int), (3int, 2int, 7int), (-5int, 6int, 5int)])]),
        (seq![(4int, 9int), (8int, 2int)], seq![(true, true, seq![(-8int, 37int, 9int), (61int, 74int, 8int), (-45int, 74int, 6int)])]),
        (seq![(4int, 9int), (7int, 1int)], seq![(true, false, seq![(-8int, 37int, 3int), (61int, 74int, 7int), (-45int, 74int, 5int)]), (true, false, seq![(-125int, 186int, 5int), (-32int, 93int, 4int), (125int, 186int, 7int), (32int, 93int, 3int)])]),
        (seq![(0int, 7int), (4int, 9int), (8int, 2int)], seq![(true, true, seq![(-16int, 9int, 9int), (-25int, 9int, 7int), (41int, 9int, 8int)])]),
        (seq![(7int, 1int)], seq![(true, false, seq![(1int, 2int, 7int), (-1int, 2int, 5int)])]),
    ]
}

pub open spec fn belief_table_part2() -> Seq<(Seq<(int, int)>, Seq<(bool, bool, Seq<(int, int, int)>)>)> {
    seq![
        (seq![(2int, 9int), (0int, 7int), (8int, 1int)], seq![(true, true, seq![(-4int, 1int, 9int), (9int, 1int, 8int), (-5int, 1int, 7int)])]),
        (seq![(2int, 9int), (0int, 6int), (8int, 1int)], seq![(true, true, seq![(-2int, 3int, 9int), (3int, 2int, 8int), (-5int, 6int, 6int)])]),
        (seq![(4int, 9int), (7int, 1int)], seq![(false, true, seq![(-8int, 37int, 3int), (61int, 74int, 7int), (-45int, 74int, 5int)]), (true, true, seq![(-32int, 241int, 9int), (369int, 482int, 7int), (-305int, 482int, 5int)])]),
        (seq![(1int, 7int), (9int, 3int), (6int, 0int)], seq![(true, true, seq![(25int, 14int, 9int), (-61int, 14int, 7int), (18int, 7int, 6int)])]),
        (seq![(2int, 8int), (9int, 3int)], seq![(true, false, seq![(1int, 1int, 9int), (-1int, 1int, 8int)])]),
        (seq![(0int, 6int), (7int, 1int)], seq![(true, false, seq![(1int, 1int, 7int), (-1int, 1int, 6int)])]),
        (seq![(3int, 9int), (0int, 6int), (7int, 1int)], seq![(true, true, seq![(-16int, 13int, 9int), (61int, 13int, 7int), (-45int, 13int, 6int)])]),
        (seq![(3int, 9int), (0int, 7int), (8int, 1int)], seq![(true, true, seq![(-16int, 29int, 9int), (-45int, 29int, 7int), (61int, 29int, 8int)])]),
        (seq![(4int, 9int), (0int, 7int), (8int, 1int)], seq![(true, true, seq![(-64int, 241int, 9int), (369int, 241int, 8int), (-305int, 241int, 7int)])]),
        (seq![(1int, 8int), (9int, 2int), (7int, 0int)], seq![(true, true, seq![(5int, 1int, 9int), (-9int, 1int, 8int), (4int, 1int, 7int)])]),
    ]
}

pub open spec fn belief_table_part3() -> Seq<(Seq<(int, int)>, Seq<(bool, bool, Seq<(int, int, int)>)>)> {
    seq![
        (seq![(4int, 9int), (0int, 6int), (7int, 1int)], seq![(false, true, seq![(-45int, 29int, 6int), (-16int, 29int, 3int), (61int, 29int, 7int)]), (true, true, seq![(-64int, 177int, 9int), (-305int, 177int, 6int), (123int, 59int, 7int)])]),
        (seq![(2int, 8int), (0int, 6int), (7int, 1int)], seq![(true, true, seq![(-4int, 1int, 8int), (9int, 1int, 7int), (-5int, 1int, 6int)])]),
        (seq![(4int, 9int), (1int, 7int), (8int, 2int)], seq![(true, true, seq![(-16int, 29int, 9int), (-45int, 29int, 7int), (61int, 29int, 8int)])]),
        (seq![(4int, 9int), (8int, 2int)], seq![(true, true, seq![(-16int, 59int, 9int), (41int, 59int, 8int), (-25int, 59int, 5int)])]),
        (seq![(0int, 7int), (8int, 1int)], seq![(true, false, seq![(-1int, 1int, 7int), (1int, 1int, 8int)])]),
        (seq![(4int, 9int), (0int, 6int), (8int, 2int)], seq![(true, true, seq![(-8int, 17int, 9int), (41int, 34int, 8int), (-25int, 34int, 6int)])]),
        (seq![(9int, 3int)], seq![(true, false, seq![(1int, 1int, 9int), (-1int, 1int, 8int)]), (true, false, seq![(-1int, 1int, 7int), (1int, 1int, 8int)])]),
        (seq![(4int, 9int), (0int, 6int), (7int, 1int)], seq![(true, false, seq![(-45int, 29int, 6int), (-16int, 29int, 3int), (61int, 29int, 7int)]), (true, true, seq![(-64int, 61int, 9int), (-125int, 61int, 6int), (64int, 61int, 3int), (125int, 61int, 7int)])]),
        (seq![(3int, 9int), (8int, 2int)], seq![(true, true, seq![(-2int, 3int, 9int), (3int, 2int, 8int), (-5int, 6int, 6int)])]),
        (seq![(2int, 7int), (9int, 3int), (6int, 0int)], seq![(true, true, seq![(45int, 74int, 9int), (-61int, 74int, 7int), (8int, 37int, 6int)])]),
    ]
}

pub open spec fn belief_table_part4() -> Seq<(Seq<(int, int)>, Seq<(bool, bool, Seq<(int, int, int)>)>)> {
    seq![
        (seq![(0int, 7int), (9int, 1int)], seq![(true, false, seq![(1int, 1int, 9int), (-1int, 1int, 8int)]), (true, false, seq![(-1int, 1int, 7int), (1int, 1int, 8int)])]),
        (seq![(0int, 6int), (9int, 1int)], seq![(true, false, seq![(1int, 1int, 7int), (-1int, 1int, 6int)]), (true, false, seq![(-1int, 1int, 7int), (1int, 1int, 8int)]), (true, false, seq![(1int, 1int, 9int), (-1int, 1int, 8int)])]),
        (seq![(9int, 1int)], seq![(true, false, seq![(1int, 1int, 6int), (-1int, 1int, 5int)]), (true, false, seq![(1int, 1int, 7int), (-1int, 1int, 6int)]), (true, false, seq![(-1int, 1int, 7int), (1int, 1int, 8int)]), (true, false, seq![(1int, 1int, 9int), (-1int, 1int, 8int)])]),
        (seq![(1int, 7int), (9int, 2int), (6int, 0int)], seq![(true, true, seq![(5int, 6int, 9int), (-3int, 2int, 7int), (2int, 3int, 6int)])]),
        (seq![(2int, 8int), (9int, 3int), (6int, 0int)], seq![(true, true, seq![(45int, 13int, 9int), (-61int, 13int, 8int), (16int, 13int, 6int)])]),
        (seq![(3int, 9int), (8int, 2int)], seq![(true, true, seq![(-12int, 13int, 9int), (61int, 39int, 8int), (-25int, 39int, 5int)])]),
        (seq![(3int, 9int), (7int, 1int)], seq![(true, true, seq![(-8int, 29int, 9int), (61int, 58int, 7int), (-45int, 58int, 5int)])]),
        (seq![(9int, 2int)], seq![(true, false, seq![(1int, 1int, 7int), (-1int, 1int, 6int)]), (true, false, seq![(-1int, 1int, 7int), (1int, 1int, 8int)]), (true, false, seq![(1int, 1int, 9int), (-1int, 1int, 8int)])]),
        (seq![(2int, 9int), (7int, 1int)], seq![(true, true, seq![(-2int, 1int, 9int), (9int, 2int, 7int), (-5int, 2int, 5int)])]),
        (seq![(2int, 9int), (8int, 1int)], seq![(true, true, seq![(-4int, 11int, 9int), (9int, 11int, 8int), (-5int, 11int, 5int)])]),
    ]
}

pub open spec fn belief_table_part5() -> Seq<(Seq<(int, int)>, Seq<(bool, bool, Seq<(int, int, int)>)>)> {
    seq![
        (seq![(3int, 9int), (8int, 1int)], seq![(true, true, seq![(-16int, 119int, 9int), (61int, 119int, 8int), (-45int, 119int, 5int)])]),
        (seq![(4int, 9int), (8int, 1int)], seq![(true, true, seq![(-64int, 851int, 9int), (369int, 851int, 8int), (-305int, 851int, 5int)])]),
        (seq![(4int, 9int), (0int, 6int), (8int, 1int)], seq![(true, true, seq![(-32int, 273int, 9int), (123int, 182int, 8int), (-305int, 546int, 6int)])]),
        (seq![(1int, 7int), (9int, 2int)], seq![(true, false, seq![(-1int, 1int, 7int), (1int, 1int, 8int)]), (true, false, seq![(1int, 1int, 9int), (-1int, 1int, 8int)])]),
        (seq![(1int, 7int), (8int, 2int), (6int, 0int)], seq![(true, true, seq![(5int, 1int, 8int), (-9int, 1int, 7int), (4int, 1int, 6int)])]),
        (seq![(0int, 6int), (8int, 1int)], seq![(true, false, seq![(1int, 1int, 7int), (-1int, 1int, 6int)]), (true, false, seq![(-1int, 1int, 7int), (1int, 1int, 8int)])]),
        (Seq::<(int, int)>::empty(), seq![(true, false, Seq::<(int, int, int)>::empty())]),
        (Seq::<(int, int)>::empty(), seq![(true, true, seq![(1int, 1int, 9int), (-1int, 1int, 8int)])]),
    ]
}

/// The full inequality table, clause by clause, in its fixed order.
pub open spec fn belief_table() -> Seq<(Seq<(int, int)>, Seq<(bool, bool, Seq<(int, int, int)>)>)> {
    belief_table_part0() + belief_table_part1() + belief_table_part2() + belief_table_part3() + belief_table_part4() + belief_table_part5()
}

fn build_part0() -> (r: Vec<Clause>)
    ensures
        clause_views(r@) == belief_table_part0(),
{
    let mut t: Vec<Clause> = Vec::new();
        t.push(Clause { guard: Vec::new(), lines: vec![HalfLine { lower: true, incl: true, terms: vec![Term { p: 1, q: 1, v: 8 }, Term { p: -1, q: 1, v: 7 }] }] });
        t.push(Clause { guard: Vec::new(), lines: vec![HalfLine { lower: true, incl: true, terms: vec![Term { p: 1, q: 1, v: 7 }, Term { p: -1, q: 1, v: 6 }] }] });
        t.push(Clause { guard: Vec::new(), lines: vec![HalfLine { lower: true, incl: true, terms: vec![Term { p: 1, q: 1, v: 6 }, Term { p: -1, q: 1, v: 5 }] }] });
        t.push(Clause { guard: vec![(8u8, 2u8)], lines: vec![HalfLine { lower: true, incl: false, terms: vec![Term { p: 1, q: 2, v: 8 }, Term { p: -1, q: 2, v: 6 }] }] });
        t.push(Clause { guard: vec![(1u8, 7u8), (8u8, 2u8)], lines: vec![HalfLine { lower: true, incl: false, terms: vec![Term { p: -1, q: 1, v: 7 }, Term { p: 1, q: 1, v: 8 }] }] });
        t.push(Clause { guard: vec![(3u8, 9u8), (1u8, 7u8), (8u8, 2u8)], lines: vec![HalfLine { lower: true, incl: true, terms: vec![Term { p: -4, q: 1, v: 9 }, Term { p: 9, q: 1, v: 8 }, Term { p: -5, q: 1, v: 7 }] }] });
        t.push(Clause { guard: vec![(0u8, 8u8), (9u8, 1u8)], lines: vec![HalfLine { lower: true, incl: false, terms: vec![Term { p: 1, q: 1, v: 9 }, Term { p: -1, q: 1, v: 8 }] }] });
        t.push(Clause { guard: vec![(1u8, 8u8), (9u8, 2u8)], lines: vec![HalfLine { lower: true, incl: false, terms: vec![Term { p: 1, q: 1, v: 9 }, Term { p: -1, q: 1, v: 8 }] }] });
        t.push(Clause { guard: vec![(3u8, 9u8), (0u8, 6u8), (8u8, 2u8)], lines: vec![HalfLine { lower: true, incl: true, terms: vec![Term { p: -18, q: 7, v: 9 }, Term { p: 61, q: 14, v: 8 }, Term { p: -25, q: 14, v: 6 }] }] });
        t.push(Clause { guard: vec![(0u8, 6u8), (7u8, 1u8), (3u8, 8u8)], lines: vec![HalfLine { lower: true, incl: true, terms: vec![Term { p: 61, q: 29, v: 7 }, Term { p: -16, q: 29, v: 8 }, Term { p: -45, q: 29, v: 6 }] }] });
    proof {
            assert(clause_view(t@[0]).0 =~= belief_table_part0()[0].0);
            assert(clause_view(t@[0]).1[0].2 =~= belief_table_part0()[0].1[0].2);
            assert(clause_view(t@[0]).1[0] == belief_table_part0()[0].1[0]);
            assert(clause_view(t@[0]).1 =~= belief_table_part0()[0].1);
            assert(clause_view(t@[0]) == belief_table_part0()[0]);
            assert(clause_view(t@[1]).0 =~= belief_table_part0()[1].0);
            assert(clause_view(t@[1]).1[0].2 =~= belief_table_part0()[1].1[0].2);
            assert(clause_view(t@[1]).1[0] == belief_table_part0()[1].1[0]);
            assert(clause_view(t@[1]).1 =~= belief_table_part0()[1].1);
            assert(clause_view(t@[1]) == belief_table_part0()[1]);
            assert(clause_view(t@[2]).0 =~= belief_table_part0()[2].0);
            assert(clause_view(t@[2]).1[0].2 =~= belief_table_part0()[2].1[0].2);
            assert(clause_view(t@[2]).1[0] == belief_table_part0()[2].1[0]);
            assert(clause_view(t@[2]).1 =~= belief_table_part0()[2].1);
            assert(clause_view(t@[2]) == belief_table_part0()[2]);
            assert(clause_view(t@[3]).0 =~= belief_table_part0()[3].0);
            assert(clause_view(t@[3]).1[0].2 =~= belief_table_part0()[3].1[0].2);
            assert(clause_view(t@[3]).1[0] == belief_table_part0()[3].1[0]);
            assert(clause_view(t@[3]).1 =~= belief_table_part0()[3].1);
            assert(clause_view(t@[3]) == belief_table_part0()[3]);
            assert(clause_view(t@[4]).0 =~= belief_table_part0()[4].0);
            assert(clause_view(t@[4]).1[0].2 =~= belief_table_part0()[4].1[0].2);
            assert(clause_view(t@[4]).1[0] == belief_table_part0()[4].1[0]);
            assert(clause_view(t@[4]).1 =~= belief_table_part0()[4].1);
            assert(clause_view(t@[4]) == belief_table_part0()[4]);
            assert(clause_view(t@[5]).0 =~= belief_table_part0()[5].0);
            assert(clause_view(t@[5]).1[0].2 =~= belief_table_part0()[5].1[0].2);
            assert(clause_view(t@[5]).1[0] == belief_table_part0()[5].1[0]);
            assert(clause_view(t@[5]).1 =~= belief_table_part0()[5].1);
            assert(clause_view(t@[5]) == belief_table_part0()[5]);
            assert(clause_view(t@[6]).0 =~= belief_table_part0()[6].0);
            assert(clause_view(t@[6]).1[0].2 =~= belief_table_part0()[6].1[0].2);
            assert(clause_view(t@[6]).1[0] == belief_table_part0()[6].1[0]);
            assert(clause_view(t@[6]).1 =~= belief_table_part0()[6].1);
            assert(clause_view(t@[6]) == belief_table_part0()[6]);
            assert(clause_view(t@[7]).0 =~= belief_table_part0()[7].0);
            assert(clause_view(t@[7]).1[0].2 =~= belief_table_part0()[7].1[0].2);
            assert(clause_view(t@[7]).1[0] == belief_table_part0()[7].1[0]);
            assert(clause_view(t@[7]).1 =~= belief_table_part0()[7].1);
            assert(clause_view(t@[7]) == belief_table_part0()[7]);
            assert(clause_view(t@[8]).0 =~= belief_table_part0()[8].0);
            assert(clause_view(t@[8]).1[0].2 =~= belief_table_part0()[8].1[0].2);
            assert(clause_view(t@[8]).1[0] == belief_table_part0()[8].1[0]);
            assert(clause_view(t@[8]).1 =~= belief_table_part0()[8].1);
            assert(clause_view(t@[8]) == belief_table_part0()[8]);
            assert(clause_view(t@[9]).0 =~= belief_table_part0()[9].0);
            assert(clause_view(t@[9]).1[0].2 =~= belief_table_part0()[9].1[0].2);
            assert(clause_view(t@[9]).1[0] == belief_table_part0()[9].1[0]);
            assert(clause_view(t@[9]).1 =~= belief_table_part0()[9].1);
            assert(clause_view(t@[9]) == belief_table_part0()[9]);
        assert(clause_views(t@) =~= belief_table_part0());
    }
    t
}

fn build_part1() -> (r: Vec<Clause>)
    ensures
        clause_views(r@) == belief_table_part1(),
{
    let mut t: Vec<Clause> = Vec::new();
        t.push(Clause { guard: vec![(3u8, 9u8), (0u8, 6u8), (8u8, 1u8)], lines: vec![HalfLine { lower: true, incl: true, terms: vec![Term { p: -8, q: 37, v: 9 }, Term { p: 61, q: 74, v: 8 }, Term { p: -45, q: 74, v: 6 }] }] });
        t.push(Clause { guard: vec![(7u8, 1u8), (3u8, 8u8)], lines: vec![HalfLine { lower: true, incl: true, terms: vec![Term { p: 61, q: 74, v: 7 }, Term { p: -8, q: 37, v: 8 }, Term { p: -45, q: 74, v: 5 }] }] });
        t.push(Clause { guard: Vec::new(), lines: vec![HalfLine { lower: true, incl: false, terms: vec![Term { p: -8, q: 37, v: 3 }, Term { p: 61, q: 74, v: 7 }, Term { p: -45, q: 74, v: 5 }] }, HalfLine { lower: false, incl: true, terms: vec![Term { p: -125, q: 186, v: 5 }, Term { p: -32, q: 93, v: 4 }, Term { p: 125, q: 186, v: 7 }, Term { p: 32, q: 93, v: 3 }] }, HalfLine { lower: true, incl: true, terms: vec![Term { p: -125, q: 186, v: 5 }, Term { p: -32, q: 93, v: 9 }, Term { p: 125, q: 186, v: 7 }, Term { p: 32, q: 93, v: 3 }] }] });
        t.push(Clause { guard: vec![(2u8, 8u8), (9u8, 3u8), (7u8, 1u8)], lines: vec![HalfLine { lower: true, incl: true, terms: vec![Term { p: 5, q: 1, v: 9 }, Term { p: -9, q: 1, v: 8 }, Term { p: 4, q: 1, v: 7 }] }] });
        t.push(Clause { guard: vec![(2u8, 8u8), (9u8, 3u8), (7u8, 0u8)], lines: vec![HalfLine { lower: true, incl: true, terms: vec![Term { p: 45, q: 29, v: 9 }, Term { p: -61, q: 29, v: 8 }, Term { p: 16, q: 29, v: 7 }] }] });
        t.push(Clause { guard: vec![(2u8, 8u8), (7u8, 1u8)], lines: vec![HalfLine { lower: true, incl: true, terms: vec![Term { p: -2, q: 3, v: 8 }, Term { p: 3, q: 2, v: 7 }, Term { p: -5, q: 6, v: 5 }] }] });
        t.push(Clause { guard: vec![(4u8, 9u8), (8u8, 2u8)], lines: vec![HalfLine { lower: true, incl: true, terms: vec![Term { p: -8, q: 37, v: 9 }, Term { p: 61, q: 74, v: 8 }, Term { p: -45, q: 74, v: 6 }] }] });
        t.push(Clause { guard: vec![(4u8, 9u8), (7u8, 1u8)], lines: vec![HalfLine { lower: true, incl: false, terms: vec![Term { p: -8, q: 37, v: 3 }, Term { p: 61, q: 74, v: 7 }, Term { p: -45, q: 74, v: 5 }] }, HalfLine { lower: true, incl: false, terms: vec![Term { p: -125, q: 186, v: 5 }, Term { p: -32, q: 93, v: 4 }, Term { p: 125, q: 186, v: 7 }, Term { p: 32, q: 93, v: 3 }] }] });
        t.push(Clause { guard: vec![(0u8, 7u8), (4u8, 9u8), (8u8, 2u8)], lines: vec![HalfLine { lower: true, incl: true, terms: vec![Term { p: -16, q: 9, v: 9 }, Term { p: -25, q: 9, v: 7 }, Term { p: 41, q: 9, v: 8 }] }] });
        t.push(Clause { guard: vec![(7u8, 1u8)], lines: vec![HalfLine { lower: true, incl: false, terms: vec![Term { p: 1, q: 2, v: 7 }, Term { p: -1, q: 2, v: 5 }] }] });
    proof {
            assert(clause_view(t@[0]).0 =~= belief_table_part1()[0].0);
            assert(clause_view(t@[0]).1[0].2 =~= belief_table_part1()[0].1[0].2);
            assert(clause_view(t@[0]).1[0] == belief_table_part1()[0].1[0]);
            assert(clause_view(t@[0]).1 =~= belief_table_part1()[0].1);
            assert(clause_view(t@[0]) == belief_table_part1()[0]);
            assert(clause_view(t@[1]).0 =~= belief_table_part1()[1].0);
            assert(clause_view(t@[1]).1[0].2 =~= belief_table_part1()[1].1[0].2);
            assert(clause_view(t@[1]).1[0] == belief_table_part1()[1].1[0]);
            assert(clause_view(t@[1]).1 =~= belief_table_part1()[1].1);
            assert(clause_view(t@[1]) == belief_table_part1()[1]);
            assert(clause_view(t@[2]).0 =~= belief_table_part1()[2].0);
            assert(clause_view(t@[2]).1[0].2 =~= belief_table_part1()[2].1[0].2);
            assert(clause_view(t@[2]).1[0] == belief_table_part1()[2].1[0]);
            assert(clause_view(t@[2]).1[1].2 =~= belief_table_part1()[2].1[1].2);
            assert(clause_view(t@[2]).1[1] == belief_table_part1()[2].1[1]);
            assert(clause_view(t@[2]).1[2].2 =~= belief_table_part1()[2].1[2].2);
            assert(clause_view(t@[2]).1[2] == belief_table_part1()[2].1[2]);
            assert(clause_view(t@[2]).1 =~= belief_table_part1()[2].1);
            assert(clause_view(t@[2]) == belief_table_part1()[2]);
            assert(clause_view(t@[3]).0 =~= belief_table_part1()[3].0);
            assert(clause_view(t@[3]).1[0].2 =~= belief_table_part1()[3].1[0].2);
            assert(clause_view(t@[3]).1[0] == belief_table_part1()[3].1[0]);
            assert(clause_view(t@[3]).1 =~= belief_table_part1()[3].1);
            assert(clause_view(t@[3]) == belief_table_part1()[3]);
            assert(clause_view(t@[4]).0 =~= belief_table_part1()[4].0);
            assert(clause_view(t@[4]).1[0].2 =~= belief_table_part1()[4].1[0].2);
            assert(clause_view(t@[4]).1[0] == belief_table_part1()[4].1[0]);
            assert(clause_view(t@[4]).1 =~= belief_table_part1()[4].1);
            assert(clause_view(t@[4]) == belief_table_part1()[4]);
            assert(clause_view(t@[5]).0 =~= belief_table_part1()[5].0);
            assert(clause_view(t@[5]).1[0].2 =~= belief_table_part1()[5].1[0].2);
            assert(clause_view(t@[5]).1[0] == belief_table_part1()[5].1[0]);
            assert(clause_view(t@[5]).1 =~= belief_table_part1()[5].1);
            assert(clause_view(t@[5]) == belief_table_part1()[5]);
            assert(clause_view(t@[6]).0 =~= belief_table_part1()[6].0);
            assert(clause_view(t@[6]).1[0].2 =~= belief_table_part1()[6].1[0].2);
            assert(clause_view(t@[6]).1[0] == belief_table_part1()[6].1[0]);
            assert(clause_view(t@[6]).1 =~= belief_table_part1()[6].1);
            assert(clause_view(t@[6]) == belief_table_part1()[6]);
            assert(clause_view(t@[7]).0 =~= belief_table_part1()[7].0);
            assert(clause_view(t@[7]).1[0].2 =~= belief_table_part1()[7].1[0].2);
            assert(clause_view(t@[7]).1[0] == belief_table_part1()[7].1[0]);
            assert(clause_view(t@[7]).1[1].2 =~= belief_table_part1()[7].1[1].2);
            assert(clause_view(t@[7]).1[1] == belief_table_part1()[7].1[1]);
            assert(clause_view(t@[7]).1 =~= belief_table_part1()[7].1);
            assert(clause_view(t@[7]) == belief_table_part1()[7]);
            assert(clause_view(t@[8]).0 =~= belief_table_part1()[8].0);
            assert(clause_view(t@[8]).1[0].2 =~= belief_table_part1()[8].1[0].2);
            assert(clause_view(t@[8]).1[0] == belief_table_part1()[8].1[0]);
            assert(clause_view(t@[8]).1 =~= belief_table_part1()[8].1);
            assert(clause_view(t@[8]) == belief_table_part1()[8]);
            assert(clause_view(t@[9]).0 =~= belief_table_part1()[9].0);
            assert(clause_view(t@[9]).1[0].2 =~= belief_table_part1()[9].1[0].2);
            assert(clause_view(t@[9]).1[0] == belief_table_part1()[9].1[0]);
            assert(clause_view(t@[9]).1 =~= belief_table_part1()[9].1);
            assert(clause_view(t@[9]) == belief_table_part1()[9]);
        assert(clause_views(t@) =~= belief_table_part1());
    }
    t
}

fn build_part2() -> (r: Vec<Clause>)
    ensures
        clause_views(r@) == belief_table_part2(),
{
    let mut t: Vec<Clause> = Vec::new();
        t.push(Clause { guard: vec![(2u8, 9u8), (0u8, 7u8), (8u8, 1u8)], lines: vec![HalfLine { lower: true, incl: true, terms: vec![Term { p: -4, q: 1, v: 9 }, Term { p: 9, q: 1, v: 8 }, Term { p: -5, q: 1, v: 7 }] }] });
        t.push(Clause { guard: vec![(2u8, 9u8), (0u8, 6u8), (8u8, 1u8)], lines: vec![HalfLine { lower: true, incl: true, terms: vec![Term { p: -2, q: 3, v: 9 }, Term { p: 3, q: 2, v: 8 }, Term { p: -5, q: 6, v: 6 }] }] });
        t.push(Clause { guard: vec![(4u8, 9u8), (7u8, 1u8)], lines: vec![HalfLine { lower: false, incl: true, terms: vec![Term { p: -8, q: 37, v: 3 }, Term { p: 61, q: 74, v: 7 }, Term { p: -45, q: 74, v: 5 }] }, HalfLine { lower: true, incl: true, terms: vec![Term { p: -32, q: 241, v: 9 }, Term { p: 369, q: 482, v: 7 }, Term { p: -305, q: 482, v: 5 }] }] });
        t.push(Clause { guard: vec![(1u8, 7u8), (9u8, 3u8), (6u8, 0u8)], lines: vec![HalfLine { lower: true, incl: true, terms: vec![Term { p: 25, q: 14, v: 9 }, Term { p: -61, q: 14, v: 7 }, Term { p: 18, q: 7, v: 6 }] }] });
        t.push(Clause { guard: vec![(2u8, 8u8), (9u8, 3u8)], lines: vec![HalfLine { lower: true, incl: false, terms: vec![Term { p: 1, q: 1, v: 9 }, Term { p: -1, q: 1, v: 8 }] }] });
        t.push(Clause { guard: vec![(0u8, 6u8), (7u8, 1u8)], lines: vec![HalfLine { lower: true, incl: false, terms: vec![Term { p: 1, q: 1, v: 7 }, Term { p: -1, q: 1, v: 6 }] }] });
        t.push(Clause { guard: vec![(3u8, 9u8), (0u8, 6u8), (7u8, 1u8)], lines: vec![HalfLine { lower: true, incl: true, terms: vec![Term { p: -16, q: 13, v: 9 }, Term { p: 61, q: 13, v: 7 }, Term { p: -45, q: 13, v: 6 }] }] });
        t.push(Clause { guard: vec![(3u8, 9u8), (0u8, 7u8), (8u8, 1u8)], lines: vec![HalfLine { lower: true, incl: true, terms: vec![Term { p: -16, q: 29, v: 9 }, Term { p: -45, q: 29, v: 7 }, Term { p: 61, q: 29, v: 8 }] }] });
        t.push(Clause { guard: vec![(4u8, 9u8), (0u8, 7u8), (8u8, 1u8)], lines: vec![HalfLine { lower: true, incl: true, terms: vec![Term { p: -64, q: 241, v: 9 }, Term { p: 369, q: 241, v: 8 }, Term { p: -305, q: 241, v: 7 }] }] });
        t.push(Clause { guard: vec![(1u8, 8u8), (9u8, 2u8), (7u8, 0u8)], lines: vec![HalfLine { lower: true, incl: true, terms: vec![Term { p: 5, q: 1, v: 9 }, Term { p: -9, q: 1, v: 8 }, Term { p: 4, q: 1, v: 7 }] }] });
    proof {
            assert(clause_view(t@[0]).0 =~= belief_table_part2()[0].0);
            assert(clause_view(t@[0]).1[0].2 =~= belief_table_part2()[0].1[0].2);
            assert(clause_view(t@[0]).1[0] == belief_table_part2()[0].1[0]);
            assert(clause_view(t@[0]).1 =~= belief_table_part2()[0].1);
            assert(clause_view(t@[0]) == belief_table_part2()[0]);
            assert(clause_view(t@[1]).0 =~= belief_table_part2()[1].0);
            assert(clause_view(t@[1]).1[0].2 =~= belief_table_part2()[1].1[0].2);
            assert(clause_view(t@[1]).1[0] == belief_table_part2()[1].1[0]);
            assert(clause_view(t@[1]).1 =~= belief_table_part2()[1].1);
            assert(clause_view(t@[1]) == belief_table_part2()[1]);
            assert(clause_view(t@[2]).0 =~= belief_table_part2()[2].0);
            assert(clause_view(t@[2]).1[0].2 =~= belief_table_part2()[2].1[0].2);
            assert(clause_view(t@[2]).1[0] == belief_table_part2()[2].1[0]);
            assert(clause_view(t@[2]).1[1].2 =~= belief_table_part2()[2].1[1].2);
            assert(clause_view(t@[2]).1[1] == belief_table_part2()[2].1[1]);
            assert(clause_view(t@[2]).1 =~= belief_table_part2()[2].1);
            assert(clause_view(t@[2]) == belief_table_part2()[2]);
            assert(clause_view(t@[3]).0 =~= belief_table_part2()[3].0);
            assert(clause_view(t@[3]).1[0].2 =~= belief_table_part2()[3].1[0].2);
            assert(clause_view(t@[3]).1[0] == belief_table_part2()[3].1[0]);
            assert(clause_view(t@[3]).1 =~= belief_table_part2()[3].1);
            assert(clause_view(t@[3]) == belief_table_part2()[3]);
            assert(clause_view(t@[4]).0 =~= belief_table_part2()[4].0);
            assert(clause_view(t@[4]).1[0].2 =~= belief_table_part2()[4].1[0].2);
            assert(clause_view(t@[4]).1[0] == belief_table_part2()[4].1[0]);
            assert(clause_view(t@[4]).1 =~= belief_table_part2()[4].1);
            assert(clause_view(t@[4]) == belief_table_part2()[4]);
            assert(clause_view(t@[5]).0 =~= belief_table_part2()[5].0);
            assert(clause_view(t@[5]).1[0].2 =~= belief_table_part2()[5].1[0].2);
            assert(clause_view(t@[5]).1[0] == belief_table_part2()[5].1[0]);
            assert(clause_view(t@[5]).1 =~= belief_table_part2()[5].1);
            assert(clause_view(t@[5]) == belief_table_part2()[5]);
            assert(clause_view(t@[6]).0 =~= belief_table_part2()[6].0);
            assert(clause_view(t@[6]).1[0].2 =~= belief_table_part2()[6].1[0].2);
            assert(clause_view(t@[6]).1[0] == belief_table_part2()[6].1[0]);
            assert(clause_view(t@[6]).1 =~= belief_table_part2()[6].1);
            assert(clause_view(t@[6]) == belief_table_part2()[6]);
            assert(clause_view(t@[7]).0 =~= belief_table_part2()[7].0);
            assert(clause_view(t@[7]).1[0].2 =~= belief_table_part2()[7].1[0].2);
            assert(clause_view(t@[7]).1[0] == belief_table_part2()[7].1[0]);
            assert(clause_view(t@[7]).1 =~= belief_table_part2()[7].1);
            assert(clause_view(t@[7]) == belief_table_part2()[7]);
            assert(clause_view(t@[8]).0 =~= belief_table_part2()[8].0);
            assert(clause_view(t@[8]).1[0].2 =~= belief_table_part2()[8].1[0].2);
            assert(clause_view(t@[8]).1[0] == belief_table_part2()[8].1[0]);
            assert(clause_view(t@[8]).1 =~= belief_table_part2()[8].1);
            assert(clause_view(t@[8]) == belief_table_part2()[8]);
            assert(clause_view(t@[9]).0 =~= belief_table_part2()[9].0);
            assert(clause_view(t@[9]).1[0].2 =~= belief_table_part2()[9].1[0].2);
            assert(clause_view(t@[9]).1[0] == belief_table_part2()[9].1[0]);
            assert(clause_view(t@[9]).1 =~= belief_table_part2()[9].1);
            assert(clause_view(t@[9]) == belief_table_part2()[9]);
        assert(clause_views(t@) =~= belief_table_part2());
    }
    t
}

fn build_part3() -> (r: Vec<Clause>)
    ensures
        clause_views(r@) == belief_table_part3(),
{
    let mut t: Vec<Clause> = Vec::new();
        t.push(Clause { guard: vec![(4u8, 9u8), (0u8, 6u8), (7u8, 1u8)], lines: vec![HalfLine { lower: false, incl: true, terms: vec![Term { p: -45, q: 29, v: 6 }, Term { p: -16, q: 29, v: 3 }, Term { p: 61, q: 29, v: 7 }] }, HalfLine { lower: true, incl: true, terms: vec![Term { p: -64, q: 177, v: 9 }, Term { p: -305, q: 177, v: 6 }, Term { p: 123, q: 59, v: 7 }] }] });
        t.push(Clause { guard: vec![(2u8, 8u8), (0u8, 6u8), (7u8, 1u8)], lines: vec![HalfLine { lower: true, incl: true, terms: vec![Term { p: -4, q: 1, v: 8 }, Term { p: 9, q: 1, v: 7 }, Term { p: -5, q: 1, v: 6 }] }] });
        t.push(Clause { guard: vec![(4u8, 9u8), (1u8, 7u8), (8u8, 2u8)], lines: vec![HalfLine { lower: true, incl: true, terms: vec![Term { p: -16, q: 29, v: 9 }, Term { p: -45, q: 29, v: 7 }, Term { p: 61, q: 29, v: 8 }] }] });
        t.push(Clause { guard: vec![(4u8, 9u8), (8u8, 2u8)], lines: vec![HalfLine { lower: true, incl: true, terms: vec![Term { p: -16, q: 59, v: 9 }, Term { p: 41, q: 59, v: 8 }, Term { p: -25, q: 59, v: 5 }] }] });
        t.push(Clause { guard: vec![(0u8, 7u8), (8u8, 1u8)], lines: vec![HalfLine { lower: true, incl: false, terms: vec![Term { p: -1, q: 1, v: 7 }, Term { p: 1, q: 1, v: 8 }] }] });
        t.push(Clause { guard: vec![(4u8, 9u8), (0u8, 6u8), (8u8, 2u8)], lines: vec![HalfLine { lower: true, incl: true, terms: vec![Term { p: -8, q: 17, v: 9 }, Term { p: 41, q: 34, v: 8 }, Term { p: -25, q: 34, v: 6 }] }] });
        t.push(Clause { guard: vec![(9u8, 3u8)], lines: vec![HalfLine { lower: true, incl: false, terms: vec![Term { p: 1, q: 1, v: 9 }, Term { p: -1, q: 1, v: 8 }] }, HalfLine { lower: true, incl: false, terms: vec![Term { p: -1, q: 1, v: 7 }, Term { p: 1, q: 1, v: 8 }] }] });
        t.push(Clause { guard: vec![(4u8, 9u8), (0u8, 6u8), (7u8, 1u8)], lines: vec![HalfLine { lower: true, incl: false, terms: vec![Term { p: -45, q: 29, v: 6 }, Term { p: -16, q: 29, v: 3 }, Term { p: 61, q: 29, v: 7 }] }, HalfLine { lower: true, incl: true, terms: vec![Term { p: -64, q: 61, v: 9 }, Term { p: -125, q: 61, v: 6 }, Term { p: 64, q: 61, v: 3 }, Term { p: 125, q: 61, v: 7 }] }] });
        t.push(Clause { guard: vec![(3u8, 9u8), (8u8, 2u8)], lines: vec![HalfLine { lower: true, incl: true, terms: vec![Term { p: -2, q: 3, v: 9 }, Term { p: 3, q: 2, v: 8 }, Term { p: -5, q: 6, v: 6 }] }] });
        t.push(Clause { guard: vec![(2u8, 7u8), (9u8, 3u8), (6u8, 0u8)], lines: vec![HalfLine { lower: true, incl: true, terms: vec![Term { p: 45, q: 74, v: 9 }, Term { p: -61, q: 74, v: 7 }, Term { p: 8, q: 37, v: 6 }] }] });
    proof {
            assert(clause_view(t@[0]).0 =~= belief_table_part3()[0].0);
            assert(clause_view(t@[0]).1[0].2 =~= belief_table_part3()[0].1[0].2);
            assert(clause_view(t@[0]).1[0] == belief_table_part3()[0].1[0]);
            assert(clause_view(t@[0]).1[1].2 =~= belief_table_part3()[0].1[1].2);
            assert(clause_view(t@[0]).1[1] == belief_table_part3()[0].1[1]);
            assert(clause_view(t@[0]).1 =~= belief_table_part3()[0].1);
            assert(clause_view(t@[0]) == belief_table_part3()[0]);
            assert(clause_view(t@[1]).0 =~= belief_table_part3()[1].0);
            assert(clause_view(t@[1]).1[0].2 =~= belief_table_part3()[1].1[0].2);
            assert(clause_view(t@[1]).1[0] == belief_table_part3()[1].1[0]);
            assert(clause_view(t@[1]).1 =~= belief_table_part3()[1].1);
            assert(clause_view(t@[1]) == belief_table_part3()[1]);
            assert(clause_view(t@[2]).0 =~= belief_table_part3()[2].0);
            assert(clause_view(t@[2]).1[0].2 =~= belief_table_part3()[2].1[0].2);
            assert(clause_view(t@[2]).1[0] == belief_table_part3()[2].1[0]);
            assert(clause_view(t@[2]).1 =~= belief_table_part3()[2].1);
            assert(clause_view(t@[2]) == belief_table_part3()[2]);
            assert(clause_view(t@[3]).0 =~= belief_table_part3()[3].0);
            assert(clause_view(t@[3]).1[0].2 =~= belief_table_part3()[3].1[0].2);
            assert(clause_view(t@[3]).1[0] == belief_table_part3()[3].1[0]);
            assert(clause_view(t@[3]).1 =~= belief_table_part3()[3].1);
            assert(clause_view(t@[3]) == belief_table_part3()[3]);
            assert(clause_view(t@[4]).0 =~= belief_table_part3()[4].0);
            assert(clause_view(t@[4]).1[0].2 =~= belief_table_part3()[4].1[0].2);
            assert(clause_view(t@[4]).1[0] == belief_table_part3()[4].1[0]);
            assert(clause_view(t@[4]).1 =~= belief_table_part3()[4].1);
            assert(clause_view(t@[4]) == belief_table_part3()[4]);
            assert(clause_view(t@[5]).0 =~= belief_table_part3()[5].0);
            assert(clause_view(t@[5]).1[0].2 =~= belief_table_part3()[5].1[0].2);
            assert(clause_view(t@[5]).1[0] == belief_table_part3()[5].1[0]);
            assert(clause_view(t@[5]).1 =~= belief_table_part3()[5].1);
            assert(clause_view(t@[5]) == belief_table_part3()[5]);
            assert(clause_view(t@[6]).0 =~= belief_table_part3()[6].0);
            assert(clause_view(t@[6]).1[0].2 =~= belief_table_part3()[6].1[0].2);
            assert(clause_view(t@[6]).1[0] == belief_table_part3()[6].1[0]);
            assert(clause_view(t@[6]).1[1].2 =~= belief_table_part3()[6].1[1].2);
            assert(clause_view(t@[6]).1[1] == belief_table_part3()[6].1[1]);
            assert(clause_view(t@[6]).1 =~= belief_table_part3()[6].1);
            assert(clause_view(t@[6]) == belief_table_part3()[6]);
            assert(clause_view(t@[7]).0 =~= belief_table_part3()[7].0);
            assert(clause_view(t@[7]).1[0].2 =~= belief_table_part3()[7].1[0].2);
            assert(clause_view(t@[7]).1[0] == belief_table_part3()[7].1[0]);
            assert(clause_view(t@[7]).1[1].2 =~= belief_table_part3()[7].1[1].2);
            assert(clause_view(t@[7]).1[1] == belief_table_part3()[7].1[1]);
            assert(clause_view(t@[7]).1 =~= belief_table_part3()[7].1);
            assert(clause_view(t@[7]) == belief_table_part3()[7]);
            assert(clause_view(t@[8]).0 =~= belief_table_part3()[8].0);
            assert(clause_view(t@[8]).1[0].2 =~= belief_table_part3()[8].1[0].2);
            assert(clause_view(t@[8]).1[0] == belief_table_part3()[8].1[0]);
            assert(clause_view(t@[8]).1 =~= belief_table_part3()[8].1);
            assert(clause_view(t@[8]) == belief_table_part3()[8]);
            assert(clause_view(t@[9]).0 =~= belief_table_part3()[9].0);
            assert(clause_view(t@[9]).1[0].2 =~= belief_table_part3()[9].1[0].2);
            assert(clause_view(t@[9]).1[0] == belief_table_part3()[9].1[0]);
            assert(clause_view(t@[9]).1 =~= belief_table_part3()[9].1);
            assert(clause_view(t@[9]) == belief_table_part3()[9]);
        assert(clause_views(t@) =~= belief_table_part3());
    }
    t
}

fn build_part4() -> (r: Vec<Clause>)
    ensures
        clause_views(r@) == belief_table_part4(),
{
    let mut t: Vec<Clause> = Vec::new();
        t.push(Clause { guard: vec![(0u8, 7u8), (9u8, 1u8)], lines: vec![HalfLine { lower: true, incl: false, terms: vec![Term { p: 1, q: 1, v: 9 }, Term { p: -1, q: 1, v: 8 }] }, HalfLine { lower: true, incl: false, terms: vec![Term { p: -1, q: 1, v: 7 }, Term { p: 1, q: 1, v: 8 }] }] });
        t.push(Clause { guard: vec![(0u8, 6u8), (9u8, 1u8)], lines: vec![HalfLine { lower: true, incl: false, terms: vec![Term { p: 1, q: 1, v: 7 }, Term { p: -1, q: 1, v: 6 }] }, HalfLine { lower: true, incl: false, terms: vec![Term { p: -1, q: 1, v: 7 }, Term { p: 1, q: 1, v: 8 }] }, HalfLine { lower: true, incl: false, terms: vec![Term { p: 1, q: 1, v: 9 }, Term { p: -1, q: 1, v: 8 }] }] });
        t.push(Clause { guard: vec![(9u8, 1u8)], lines: vec![HalfLine { lower: true, incl: false, terms: vec![Term { p: 1, q: 1, v: 6 }, Term { p: -1, q: 1, v: 5 }] }, HalfLine { lower: true, incl: false, terms: vec![Term { p: 1, q: 1, v: 7 }, Term { p: -1, q: 1, v: 6 }] }, HalfLine { lower: true, incl: false, terms: vec![Term { p: -1, q: 1, v: 7 }, Term { p: 1, q: 1, v: 8 }] }, HalfLine { lower: true, incl: false, terms: vec![Term { p: 1, q: 1, v: 9 }, Term { p: -1, q: 1, v: 8 }] }] });
        t.push(Clause { guard: vec![(1u8, 7u8), (9u8, 2u8), (6u8, 0u8)], lines: vec![HalfLine { lower: true, incl: true, terms: vec![Term { p: 5, q: 6, v: 9 }, Term { p: -3, q: 2, v: 7 }, Term { p: 2, q: 3, v: 6 }] }] });
        t.push(Clause { guard: vec![(2u8, 8u8), (9u8, 3u8), (6u8, 0u8)], lines: vec![HalfLine { lower: true, incl: true, terms: vec![Term { p: 45, q: 13, v: 9 }, Term { p: -61, q: 13, v: 8 }, Term { p: 16, q: 13, v: 6 }] }] });
        t.push(Clause { guard: vec![(3u8, 9u8), (8u8, 2u8)], lines: vec![HalfLine { lower: true, incl: true, terms: vec![Term { p: -12, q: 13, v: 9 }, Term { p: 61, q: 39, v: 8 }, Term { p: -25, q: 39, v: 5 }] }] });
        t.push(Clause { guard: vec![(3u8, 9u8), (7u8, 1u8)], lines: vec![HalfLine { lower: true, incl: true, terms: vec![Term { p: -8, q: 29, v: 9 }, Term { p: 61, q: 58, v: 7 }, Term { p: -45, q: 58, v: 5 }] }] });
        t.push(Clause { guard: vec![(9u8, 2u8)], lines: vec![HalfLine { lower: true, incl: false, terms: vec![Term { p: 1, q: 1, v: 7 }, Term { p: -1, q: 1, v: 6 }] }, HalfLine { lower: true, incl: false, terms: vec![Term { p: -1, q: 1, v: 7 }, Term { p: 1, q: 1, v: 8 }] }, HalfLine { lower: true, incl: false, terms: vec![Term { p: 1, q: 1, v: 9 }, Term { p: -1, q: 1, v: 8 }] }] });
        t.push(Clause { guard: vec![(2u8, 9u8), (7u8, 1u8)], lines: vec![HalfLine { lower: true, incl: true, terms: vec![Term { p: -2, q: 1, v: 9 }, Term { p: 9, q: 2, v: 7 }, Term { p: -5, q: 2, v: 5 }] }] });
        t.push(Clause { guard: vec![(2u8, 9u8), (8u8, 1u8)], lines: vec![HalfLine { lower: true, incl: true, terms: vec![Term { p: -4, q: 11, v: 9 }, Term { p: 9, q: 11, v: 8 }, Term { p: -5, q: 11, v: 5 }] }] });
    proof {
            assert(clause_view(t@[0]).0 =~= belief_table_part4()[0].0);
            assert(clause_view(t@[0]).1[0].2 =~= belief_table_part4()[0].1[0].2);
            assert(clause_view(t@[0]).1[0] == belief_table_part4()[0].1[0]);
            assert(clause_view(t@[0]).1[1].2 =~= belief_table_part4()[0].1[1].2);
            assert(clause_view(t@[0]).1[1] == belief_table_part4()[0].1[1]);
            assert(clause_view(t@[0]).1 =~= belief_table_part4()[0].1);
            assert(clause_view(t@[0]) == belief_table_part4()[0]);
            assert(clause_view(t@[1]).0 =~= belief_table_part4()[1].0);
            assert(clause_view(t@[1]).1[0].2 =~= belief_table_part4()[1].1[0].2);
            assert(clause_view(t@[1]).1[0] == belief_table_part4()[1].1[0]);
            assert(clause_view(t@[1]).1[1].2 =~= belief_table_part4()[1].1[1].2);
            assert(clause_view(t@[1]).1[1] == belief_table_part4()[1].1[1]);
            assert(clause_view(t@[1]).1[2].2 =~= belief_table_part4()[1].1[2].2);
            assert(clause_view(t@[1]).1[2] == belief_table_part4()[1].1[2]);
            assert(clause_view(t@[1]).1 =~= belief_table_part4()[1].1);
            assert(clause_view(t@[1]) == belief_table_part4()[1]);
            assert(clause_view(t@[2]).0 =~= belief_table_part4()[2].0);
            assert(clause_view(t@[2]).1[0].2 =~= belief_table_part4()[2].1[0].2);
            assert(clause_view(t@[2]).1[0] == belief_table_part4()[2].1[0]);
            assert(clause_view(t@[2]).1[1].2 =~= belief_table_part4()[2].1[1].2);
            assert(clause_view(t@[2]).1[1] == belief_table_part4()[2].1[1]);
            assert(clause_view(t@[2]).1[2].2 =~= belief_table_part4()[2].1[2].2);
            assert(clause_view(t@[2]).1[2] == belief_table_part4()[2].1[2]);
            assert(clause_view(t@[2]).1[3].2 =~= belief_table_part4()[2].1[3].2);
            assert(clause_view(t@[2]).1[3] == belief_table_part4()[2].1[3]);
            assert(clause_view(t@[2]).1 =~= belief_table_part4()[2].1);
            assert(clause_view(t@[2]) == belief_table_part4()[2]);
            assert(clause_view(t@[3]).0 =~= belief_table_part4()[3].0);
            assert(clause_view(t@[3]).1[0].2 =~= belief_table_part4()[3].1[0].2);
            assert(clause_view(t@[3]).1[0] == belief_table_part4()[3].1[0]);
            assert(clause_view(t@[3]).1 =~= belief_table_part4()[3].1);
            assert(clause_view(t@[3]) == belief_table_part4()[3]);
            assert(clause_view(t@[4]).0 =~= belief_table_part4()[4].0);
            assert(clause_view(t@[4]).1[0].2 =~= belief_table_part4()[4].1[0].2);
            assert(clause_view(t@[4]).1[0] == belief_table_part4()[4].1[0]);
            assert(clause_view(t@[4]).1 =~= belief_table_part4()[4].1);
            assert(clause_view(t@[4]) == belief_table_part4()[4]);
            assert(clause_view(t@[5]).0 =~= belief_table_part4()[5].0);
            assert(clause_view(t@[5]).1[0].2 =~= belief_table_part4()[5].1[0].2);
            assert(clause_view(t@[5]).1[0] == belief_table_part4()[5].1[0]);
            assert(clause_view(t@[5]).1 =~= belief_table_part4()[5].1);
            assert(clause_view(t@[5]) == belief_table_part4()[5]);
            assert(clause_view(t@[6]).0 =~= belief_table_part4()[6].0);
            assert(clause_view(t@[6]).1[0].2 =~= belief_table_part4()[6].1[0].2);
            assert(clause_view(t@[6]).1[0] == belief_table_part4()[6].1[0]);
            assert(clause_view(t@[6]).1 =~= belief_table_part4()[6].1);
            assert(clause_view(t@[6]) == belief_table_part4()[6]);
            assert(clause_view(t@[7]).0 =~= belief_table_part4()[7].0);
            assert(clause_view(t@[7]).1[0].2 =~= belief_table_part4()[7].1[0].2);
            assert(clause_view(t@[7]).1[0] == belief_table_part4()[7].1[0]);
            assert(clause_view(t@[7]).1[1].2 =~= belief_table_part4()[7].1[1].2);
            assert(clause_view(t@[7]).1[1] == belief_table_part4()[7].1[1]);
            assert(clause_view(t@[7]).1[2].2 =~= belief_table_part4()[7].1[2].2);
            assert(clause_view(t@[7]).1[2] == belief_table_part4()[7].1[2]);
            assert(clause_view(t@[7]).1 =~= belief_table_part4()[7].1);
            assert(clause_view(t@[7]) == belief_table_part4()[7]);
            assert(clause_view(t@[8]).0 =~= belief_table_part4()[8].0);
            assert(clause_view(t@[8]).1[0].2 =~= belief_table_part4()[8].1[0].2);
            assert(clause_view(t@[8]).1[0] == belief_table_part4()[8].1[0]);
            assert(clause_view(t@[8]).1 =~= belief_table_part4()[8].1);
            assert(clause_view(t@[8]) == belief_table_part4()[8]);
            assert(clause_view(t@[9]).0 =~= belief_table_part4()[9].0);
            assert(clause_view(t@[9]).1[0].2 =~= belief_table_part4()[9].1[0].2);
            assert(clause_view(t@[9]).1[0] == belief_table_part4()[9].1[0]);
            assert(clause_view(t@[9]).1 =~= belief_table_part4()[9].1);
            assert(clause_view(t@[9]) == belief_table_part4()[9]);
        assert(clause_views(t@) =~= belief_table_part4());
    }
    t
}

fn build_part5() -> (r: Vec<Clause>)
    ensures
        clause_views(r@) == belief_table_part5(),
{
    let mut t: Vec<Clause> = Vec::new();
        t.push(Clause { guard: vec![(3u8, 9u8), (8u8, 1u8)], lines: vec![HalfLine { lower: true, incl: true, terms: vec![Term { p: -16, q: 119, v: 9 }, Term { p: 61, q: 119, v: 8 }, Term { p: -45, q: 119, v: 5 }] }] });
        t.push(Clause { guard: vec![(4u8, 9u8), (8u8, 1u8)], lines: vec![HalfLine { lower: true, incl: true, terms: vec![Term { p: -64, q: 851, v: 9 }, Term { p: 369, q: 851, v: 8 }, Term { p: -305, q: 851, v: 5 }] }] });
        t.push(Clause { guard: vec![(4u8, 9u8), (0u8, 6u8), (8u8, 1u8)], lines: vec![HalfLine { lower: true, incl: true, terms: vec![Term { p: -32, q: 273, v: 9 }, Term { p: 123, q: 182, v: 8 }, Term { p: -305, q: 546, v: 6 }] }] });
        t.push(Clause { guard: vec![(1u8, 7u8), (9u8, 2u8)], lines: vec![HalfLine { lower: true, incl: false, terms: vec![Term { p: -1, q: 1, v: 7 }, Term { p: 1, q: 1, v: 8 }] }, HalfLine { lower: true, incl: false, terms: vec![Term { p: 1, q: 1, v: 9 }, Term { p: -1, q: 1, v: 8 }] }] });
        t.push(Clause { guard: vec![(1u8, 7u8), (8u8, 2u8), (6u8, 0u8)], lines: vec![HalfLine { lower: true, incl: true, terms: vec![Term { p: 5, q: 1, v: 8 }, Term { p: -9, q: 1, v: 7 }, Term { p: 4, q: 1, v: 6 }] }] });
        t.push(Clause { guard: vec![(0u8, 6u8), (8u8, 1u8)], lines: vec![HalfLine { lower: true, incl: false, terms: vec![Term { p: 1, q: 1, v: 7 }, Term { p: -1, q: 1, v: 6 }] }, HalfLine { lower: true, incl: false, terms: vec![Term { p: -1, q: 1, v: 7 }, Term { p: 1, q: 1, v: 8 }] }] });
        t.push(Clause { guard: Vec::new(), lines: vec![HalfLine { lower: true, incl: false, terms: Vec::new() }] });
        t.push(Clause { guard: Vec::new(), lines: vec![HalfLine { lower: true, incl: true, terms: vec![Term { p: 1, q: 1, v: 9 }, Term { p: -1, q: 1, v: 8 }] }] });
    proof {
            assert(clause_view(t@[0]).0 =~= belief_table_part5()[0].0);
            assert(clause_view(t@[0]).1[0].2 =~= belief_table_part5()[0].1[0].2);
            assert(clause_view(t@[0]).1[0] == belief_table_part5()[0].1[0]);
            assert(clause_view(t@[0]).1 =~= belief_table_part5()[0].1);
            assert(clause_view(t@[0]) == belief_table_part5()[0]);
            assert(clause_view(t@[1]).0 =~= belief_table_part5()[1].0);
            assert(clause_view(t@[1]).1[0].2 =~= belief_table_part5()[1].1[0].2);
            assert(clause_view(t@[1]).1[0] == belief_table_part5()[1].1[0]);
            assert(clause_view(t@[1]).1 =~= belief_table_part5()[1].1);
            assert(clause_view(t@[1]) == belief_table_part5()[1]);
            assert(clause_view(t@[2]).0 =~= belief_table_part5()[2].0);
            assert(clause_view(t@[2]).1[0].2 =~= belief_table_part5()[2].1[0].2);
            assert(clause_view(t@[2]).1[0] == belief_table_part5()[2].1[0]);
            assert(clause_view(t@[2]).1 =~= belief_table_part5()[2].1);
            assert(clause_view(t@[2]) == belief_table_part5()[2]);
            assert(clause_view(t@[3]).0 =~= belief_table_part5()[3].0);
            assert(clause_view(t@[3]).1[0].2 =~= belief_table_part5()[3].1[0].2);
            assert(clause_view(t@[3]).1[0] == belief_table_part5()[3].1[0]);
            assert(clause_view(t@[3]).1[1].2 =~= belief_table_part5()[3].1[1].2);
            assert(clause_view(t@[3]).1[1] == belief_table_part5()[3].1[1]);
            assert(clause_view(t@[3]).1 =~= belief_table_part5()[3].1);
            assert(clause_view(t@[3]) == belief_table_part5()[3]);
            assert(clause_view(t@[4]).0 =~= belief_table_part5()[4].0);
            assert(clause_view(t@[4]).1[0].2 =~= belief_table_part5()[4].1[0].2);
            assert(clause_view(t@[4]).1[0] == belief_table_part5()[4].1[0]);
            assert(clause_view(t@[4]).1 =~= belief_table_part5()[4].1);
            assert(clause_view(t@[4]) == belief_table_part5()[4]);
            assert(clause_view(t@[5]).0 =~= belief_table_part5()[5].0);
            assert(clause_view(t@[5]).1[0].2 =~= belief_table_part5()[5].1[0].2);
            assert(clause_view(t@[5]).1[0] == belief_table_part5()[5].1[0]);
            assert(clause_view(t@[5]).1[1].2 =~= belief_table_part5()[5].1[1].2);
            assert(clause_view(t@[5]).1[1] == belief_table_part5()[5].1[1]);
            assert(clause_view(t@[5]).1 =~= belief_table_part5()[5].1);
            assert(clause_view(t@[5]) == belief_table_part5()[5]);
            assert(clause_view(t@[6]).0 =~= belief_table_part5()[6].0);
            assert(clause_view(t@[6]).1[0].2 =~= belief_table_part5()[6].1[0].2);
            assert(clause_view(t@[6]).1[0] == belief_table_part5()[6].1[0]);
            assert(clause_view(t@[6]).1 =~= belief_table_part5()[6].1);
            assert(clause_view(t@[6]) == belief_table_part5()[6]);
            assert(clause_view(t@[7]).0 =~= belief_table_part5()[7].0);
            assert(clause_view(t@[7]).1[0].2 =~= belief_table_part5()[7].1[0].2);
            assert(clause_view(t@[7]).1[0] == belief_table_part5()[7].1[0]);
            assert(clause_view(t@[7]).1 =~= belief_table_part5()[7].1);
            assert(clause_view(t@[7]) == belief_table_part5()[7]);
        assert(clause_views(t@) =~= belief_table_part5());
    }
    t
}

/// Build the table; its view is exactly [`belief_table`].
fn build_belief_table() -> (r: Vec<Clause>)
    ensures
        clause_views(r@) == belief_table(),
{
    let mut t: Vec<Clause> = Vec::new();
    let mut p0 = build_part0();
    t.append(&mut p0);
    let mut p1 = build_part1();
    t.append(&mut p1);
    let mut p2 = build_part2();
    t.append(&mut p2);
    let mut p3 = build_part3();
    t.append(&mut p3);
    let mut p4 = build_part4();
    t.append(&mut p4);
    let mut p5 = build_part5();
    t.append(&mut p5);
    proof {
        assert(clause_views(t@) =~= belief_table());
    }
    t
}

/// A representable prefix of an evaluation stays representable.
proof fn lemma_expr_ok_prefix(av: Seq<Rational>, sv: Seq<Rational>, terms: Seq<(int, int, int)>, i: int)
    requires
        0 <= i <= terms.len(),
        expr_ok(av, sv, terms),
    ensures
        expr_ok(av, sv, terms.take(i)),
    decreases terms.len() - i,
{
    if i == terms.len() {
        assert(terms.take(i) =~= terms);
    } else {
        lemma_expr_ok_prefix(av, sv, terms, i + 1);
        assert(terms.take(i + 1).drop_last() =~= terms.take(i));
    }
}

fn var_val(a: &Vec<Rational>, s: &Vec<Rational>, v: u8) -> (r: Rational)
    requires
        inputs_wf(a@, s@),
        v < 10,
    ensures
        r == var_rat(a@, s@, v as int),
        rat_wf(r),
{
    if v < 5 {
        a[v as usize]
    } else {
        s[(v - 5) as usize]
    }
}

/// Evaluate a guard disjunction.
#[verifier::loop_isolation(false)]
fn eval_guard(a: &Vec<Rational>, s: &Vec<Rational>, guard: &Vec<(u8, u8)>) -> (r: bool)
    requires
        inputs_wf(a@, s@),
    ensures
        r == guard_sat(a@, s@, guard@.map_values(|g: (u8, u8)| (g.0 as int, g.1 as int))),
{
    let ghost gv = guard@.map_values(|g: (u8, u8)| (g.0 as int, g.1 as int));
    let n = guard.len();
    let mut i: usize = 0;
    while i < n
        invariant
            0 <= i <= n,
            forall|k: int| 0 <= k < i ==> !atom_sat(a@, s@, #[trigger] gv[k]),
        decreases n - i,
    {
        let (l, r) = guard[i];
        if l < 10 && r < 10 {
            let xl = var_val(a, s, l);
            let xr = var_val(a, s, r);
            if xl.le(&xr) {
                proof {
                    assert(atom_sat(a@, s@, gv[i as int]));
                }
                return true;
            }
        }
        proof {
            assert(!atom_sat(a@, s@, gv[i as int]));
        }
        i = i + 1;
    }
    false
}

/// Evaluate a linear expression exactly; `None` exactly when some step
/// leaves the representable window.
#[verifier::loop_isolation(false)]
fn eval_expr(a: &Vec<Rational>, s: &Vec<Rational>, terms: &Vec<Term>) -> (r: Option<Rational>)
    requires
        inputs_wf(a@, s@),
    ensures
        ({
            let tv = terms@.map_values(|t: Term| term_view(t));
            match r {
                Some(c) => expr_ok(a@, s@, tv) && (c.num as int, c.den as int) == expr_val(
                    a@,
                    s@,
                    tv,
                ) && rat_wf(c),
                None => !expr_ok(a@, s@, tv),
            }
        }),
{
    let ghost tv = terms@.map_values(|t: Term| term_view(t));
    let n = terms.len();
    let mut acc = Rational::zero();
    let mut i: usize = 0;
    proof {
        assert(tv.take(0int) =~= Seq::<(int, int, int)>::empty());
    }
    while i < n
        invariant
            0 <= i <= n,
            rat_wf(acc),
            expr_ok(a@, s@, tv.take(i as int)),
            (acc.num as int, acc.den as int) == expr_val(a@, s@, tv.take(i as int)),
        decreases n - i,
    {
        let t = terms[i];
        proof {
            assert(tv.take(i + 1).drop_last() =~= tv.take(i as int));
            assert(tv.take(i + 1).last() == tv[i as int]);
            assert(tv[i as int] == term_view(t));
        }
        if t.q <= 0 || t.v >= 10 {
            proof {
                assert(!expr_ok(a@, s@, tv.take(i + 1)));
                if expr_ok(a@, s@, tv) {
                    lemma_expr_ok_prefix(a@, s@, tv, i + 1);
                }
            }
            return None;
        }
        let x = var_val(a, s, t.v);
        let scaled = match x.scale_checked(t.p, t.q) {
            Some(sc) => sc,
            None => {
                proof {
                    assert(!term_ok(a@, s@, tv[i as int]));
                    assert(!expr_ok(a@, s@, tv.take(i + 1)));
                    if expr_ok(a@, s@, tv) {
                        lemma_expr_ok_prefix(a@, s@, tv, i + 1);
                    }
                }
                return None;
            },
        };
        let sum = match acc.add_checked(&scaled) {
            Some(c) => c,
            None => {
                proof {
                    assert(!expr_ok(a@, s@, tv.take(i + 1)));
                    if expr_ok(a@, s@, tv) {
                        lemma_expr_ok_prefix(a@, s@, tv, i + 1);
                    }
                }
                return None;
            },
        };
        acc = sum;
        i = i + 1;
    }
    proof {
        assert(tv.take(n as int) =~= tv);
    }
    Some(acc)
}

/// One half-line as an interval set; `None` exactly when its expression
/// leaves the representable window.
fn line_to_list(a: &Vec<Rational>, s: &Vec<Rational>, l: &HalfLine) -> (r: Option<IntervalList>)
    requires
        inputs_wf(a@, s@),
    ensures
        match r {
            Some(il) => expr_ok(a@, s@, line_view(*l).2) && il.wf() && forall|n: int, d: int|
                d > 0 ==> (#[trigger] il.contains(n, d) <==> line_sat(a@, s@, line_view(*l), n, d)),
            None => !expr_ok(a@, s@, line_view(*l).2),
        },
{
    let val = match eval_expr(a, s, &l.terms) {
        Some(v) => v,
        None => {
            return None;
        },
    };
    let b = if l.incl {
        Bnd::Included(val)
    } else {
        Bnd::Excluded(val)
    };
    let il = if l.lower {
        IntervalList::interval_lower(b)
    } else {
        IntervalList::interval_upper(b)
    };
    Some(il)
}

/// Membership of `n/d` in every clause up to `m`.
pub open spec fn beliefs_contain_upto(av: Seq<Rational>, sv: Seq<Rational>, m: int, n: int, d: int) -> bool {
    forall|c: int| 0 <= c < m ==> clause_sat(av, sv, #[trigger] belief_table()[c], n, d)
}

/// Every clause up to `m` evaluates exactly.
pub open spec fn evaluable_upto(av: Seq<Rational>, sv: Seq<Rational>, m: int) -> bool {
    forall|c: int| 0 <= c < m ==> clause_ok(av, sv, #[trigger] belief_table()[c])
}

/// Evaluate the belief table on the observations `a[0..4]`, `s[0..4]`:
/// the set of capacities consistent with every unguarded inequality,
/// starting from the whole line. Returns `None` exactly when some
/// needed intermediate fraction cannot be represented exactly.
#[verifier::loop_isolation(false)]
pub fn get_c_beliefs(a: &Vec<Rational>, s: &Vec<Rational>) -> (res: Option<IntervalList>)
    requires
        inputs_wf(a@, s@),
    ensures
        res is Some <==> beliefs_evaluable(a@, s@),
        res matches Some(l) ==> l.wf() && forall|n: int, d: int|
            d > 0 ==> (#[trigger] l.contains(n, d) <==> beliefs_contain(a@, s@, n, d)),
{
    let table = build_belief_table();
    let nclauses = table.len();
    proof {
        assert(clause_views(table@).len() == belief_table().len());
    }
    let mut ret = IntervalList::unbounded();
    let mut ci: usize = 0;
    while ci < nclauses
        invariant
            0 <= ci <= nclauses,
            ret.wf(),
            evaluable_upto(a@, s@, ci as int),
            forall|n: int, d: int|
                d > 0 ==> (#[trigger] ret.contains(n, d) <==> beliefs_contain_upto(
                    a@,
                    s@,
                    ci as int,
                    n,
                    d,
                )),
        decreases nclauses - ci,
    {
        let clause = &table[ci];
        let ghost cv = belief_table()[ci as int];
        proof {
            assert(clause_views(table@)[ci as int] == belief_table()[ci as int]);
            assert(clause_view(table@[ci as int]) == cv);
        }
        let gsat = eval_guard(a, s, &clause.guard);
        if !gsat {
            let nlines = clause.lines.len();
            let mut lists: Vec<IntervalList> = Vec::new();
            let mut li: usize = 0;
            while li < nlines
                invariant
                    0 <= li <= nlines,
                    lists@.len() == li,
                    forall|k: int|
                        0 <= k < li ==> (#[trigger] lists@[k]).wf(),
                    forall|k: int| 0 <= k < li ==> expr_ok(a@, s@, cv.1[k].2),
                    forall|k: int, n: int, d: int|
                        0 <= k < li && d > 0 ==> (#[trigger] lists@[k].contains(n, d)
                            <==> line_sat(a@, s@, cv.1[k], n, d)),
                decreases nlines - li,
            {
                proof {
                    assert(cv.1[li as int] == line_view(clause.lines@[li as int]));
                }
                let il = match line_to_list(a, s, &clause.lines[li]) {
                    Some(il) => il,
                    None => {
                        proof {
                            assert(!expr_ok(a@, s@, cv.1[li as int].2));
                            assert(!clause_ok(a@, s@, cv));
                            assert(!beliefs_evaluable(a@, s@));
                        }
                        return None;
                    },
                };
                lists.push(il);
                li = li + 1;
            }
            let tmp = IntervalList::from_interval_lists(lists);
            let next = ret.intersection(&tmp);
            proof {
                assert(clause_ok(a@, s@, cv));
                assert forall|n: int, d: int| d > 0 implies (#[trigger] next.contains(n, d)
                    <==> beliefs_contain_upto(a@, s@, ci + 1, n, d)) by {
                    assert(next.contains(n, d) <==> ret.contains(n, d) && tmp.contains(n, d));
                    if tmp.contains(n, d) {
                        assert forall|k: int| 0 <= k < nlines implies line_sat(
                            a@,
                            s@,
                            #[trigger] cv.1[k],
                            n,
                            d,
                        ) by {
                            assert(lists@[k].contains(n, d));
                        }
                    }
                    if forall|k: int| 0 <= k < nlines ==> line_sat(a@, s@, #[trigger] cv.1[k], n, d) {
                        assert forall|k: int| 0 <= k < lists@.len() implies (
                        #[trigger] lists@[k]).contains(n, d) by {
                            assert(line_sat(a@, s@, cv.1[k], n, d));
                        }
                        assert(tmp.contains(n, d));
                    }
                    assert(tmp.contains(n, d) <==> (forall|k: int|
                        0 <= k < nlines ==> line_sat(a@, s@, #[trigger] cv.1[k], n, d)));
                    if next.contains(n, d) {
                        assert(clause_sat(a@, s@, cv, n, d));
                        assert forall|c: int| 0 <= c < ci + 1 implies clause_sat(
                            a@,
                            s@,
                            #[trigger] belief_table()[c],
                            n,
                            d,
                        ) by {
                            if c < ci {
                                assert(beliefs_contain_upto(a@, s@, ci as int, n, d));
                            }
                        }
                    }
                    if beliefs_contain_upto(a@, s@, ci + 1, n, d) {
                        assert(clause_sat(a@, s@, belief_table()[ci as int], n, d));
                        assert(beliefs_contain_upto(a@, s@, ci as int, n, d));
                        assert(ret.contains(n, d));
                        assert(!guard_sat(a@, s@, cv.0));
                        assert(tmp.contains(n, d));
                    }
                }
            }
            ret = next;
        } else {
            proof {
                assert(guard_sat(a@, s@, cv.0));
                assert(clause_ok(a@, s@, cv));
                assert(clause_sat(a@, s@, cv, 0, 1));
                assert forall|n: int, d: int| d > 0 implies (#[trigger] ret.contains(n, d)
                    <==> beliefs_contain_upto(a@, s@, ci + 1, n, d)) by {
                    if ret.contains(n, d) {
                        assert forall|c: int| 0 <= c < ci + 1 implies clause_sat(
                            a@,
                            s@,
                            #[trigger] belief_table()[c],
                            n,
                            d,
                        ) by {
                            if c < ci {
                                assert(beliefs_contain_upto(a@, s@, ci as int, n, d));
                            } else {
                                assert(clause_sat(a@, s@, cv, n, d));
                            }
                        }
                    }
                }
            }
        }
        ci = ci + 1;
    }
    proof {
        assert(beliefs_evaluable(a@, s@));
        assert forall|n: int, d: int| d > 0 implies (#[trigger] ret.contains(n, d)
            <==> beliefs_contain(a@, s@, n, d)) by {
            assert(ret.contains(n, d) <==> beliefs_contain_upto(
                a@,
                s@,
                nclauses as int,
                n,
                d,
            ));
        }
    }
    Some(ret)
}

} // verus!
