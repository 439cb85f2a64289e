//! Exact rational arithmetic, the interval algebra, and the capacity
//! belief table.

use netsim::interval::{Bnd, Interval, IntervalList};
use netsim::ndd_time_belief::get_c_beliefs;
use netsim::rational::Rational;

#[test]
fn rational_comparisons_are_exact() {
    let half = Rational::new(1, 2);
    let third = Rational::new(1, 3);
    let two_quarters = Rational::new(2, 4);
    assert!(third.lt(&half));
    assert!(third.le(&half));
    assert!(!half.lt(&half));
    assert!(half.le(&two_quarters));
    assert!(two_quarters.le(&half));
}

#[test]
fn rational_addition_is_exact() {
    let half = Rational::new(1, 2);
    let third = Rational::new(1, 3);
    let sum = half.add_checked(&third).unwrap();
    assert_eq!(sum.num, 5);
    assert_eq!(sum.den, 6);
    let scaled = sum.scale_checked(-3, 2).unwrap();
    assert_eq!(scaled.num, -15);
    assert_eq!(scaled.den, 12);
}

#[test]
fn rational_overflow_is_detected() {
    let huge = Rational::new(i64::MAX, 1);
    assert!(huge.add_checked(&huge).is_none());
    assert!(huge.scale_checked(2, 1).is_none());
    assert!(huge.scale_checked(1, 1).is_some());
}

#[test]
fn interval_intersection_narrows() {
    let a = IntervalList::new_interval(Interval::new(
        Bnd::Excluded(Rational::from_int(0)),
        Bnd::Included(Rational::from_int(5)),
    ));
    let b = IntervalList::new_interval(Interval::new(
        Bnd::Included(Rational::from_int(3)),
        Bnd::Excluded(Rational::from_int(8)),
    ));
    let both = a.intersection(&b);
    assert!(!both.is_empty());
    let disjoint = IntervalList::new_interval(Interval::new(
        Bnd::Included(Rational::from_int(6)),
        Bnd::Included(Rational::from_int(7)),
    ));
    assert!(both.intersection(&disjoint).is_empty());
}

#[test]
fn empty_intervals_collapse() {
    let degenerate = IntervalList::new_interval(Interval::new(
        Bnd::Excluded(Rational::from_int(2)),
        Bnd::Excluded(Rational::from_int(2)),
    ));
    assert!(degenerate.is_empty());
    let point = IntervalList::new_interval(Interval::new(
        Bnd::Included(Rational::from_int(2)),
        Bnd::Included(Rational::from_int(2)),
    ));
    assert!(!point.is_empty());
}

#[test]
fn all_zero_observations_leave_no_consistent_capacity() {
    // With a = s = 0 the unconditional clauses intersect the open
    // positive half-line with the closed non-positive one: nothing is
    // left.
    let zeros: Vec<Rational> = (0..5).map(|_| Rational::zero()).collect();
    let beliefs = get_c_beliefs(&zeros, &zeros).expect("zero observations evaluate exactly");
    assert!(beliefs.is_empty());
}

#[test]
fn small_observations_evaluate_exactly() {
    let a: Vec<Rational> = (0..5).map(|i| Rational::from_int(100 + i)).collect();
    let s: Vec<Rational> = (0..5).map(|i| Rational::from_int(10 * i)).collect();
    assert!(get_c_beliefs(&a, &s).is_some());
}
