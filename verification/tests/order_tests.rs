use core_simd::Mask;
use std::cmp::Ordering;

#[test]
fn true_lane_orders_before_false_lane() {
    let t = Mask::<i32, 1>::splat(true);
    let f = Mask::<i32, 1>::splat(false);
    assert_eq!(t.partial_cmp(&f), Some(Ordering::Less));
    assert_eq!(f.partial_cmp(&t), Some(Ordering::Greater));
    assert!(t < f);
    assert!(f > t);
}

#[test]
fn first_differing_lane_decides() {
    let a = Mask::<i8, 4>::from_array([false, true, false, false]);
    let b = Mask::<i8, 4>::from_array([false, false, true, true]);
    assert_eq!(a.partial_cmp(&b), Some(Ordering::Less));
    assert_eq!(b.partial_cmp(&a), Some(Ordering::Greater));
    assert_eq!(a.partial_cmp(&a), Some(Ordering::Equal));
    assert!(a <= a);
    assert!(a >= a);
}

#[test]
fn order_is_transitive_on_examples() {
    let a = Mask::<i16, 3>::from_array([true, true, false]);
    let b = Mask::<i16, 3>::from_array([true, false, true]);
    let c = Mask::<i16, 3>::from_array([false, true, true]);
    assert!(a < b);
    assert!(b < c);
    assert!(a < c);
}
