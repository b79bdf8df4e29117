use core_simd::{Mask, Sealed};

#[test]
fn splat_sets_every_lane() {
    let m = Mask::<i32, 4>::splat(true);
    assert_eq!(m.to_array(), [true; 4]);
    let m = Mask::<i8, 8>::splat(false);
    assert_eq!(m.to_array(), [false; 8]);
}

#[test]
fn from_array_to_array_round_trip() {
    let a = [true, false, false, true, true, false, true, false];
    let m = Mask::<i16, 8>::from_array(a);
    assert_eq!(m.to_array(), a);
    let back = Mask::<i16, 8>::from_array(m.to_array());
    assert!(back == m);
}

#[test]
fn to_int_uses_minus_one_and_zero() {
    let m = Mask::<i32, 4>::from_array([true, false, true, false]);
    assert_eq!(m.to_int(), [-1, 0, -1, 0]);
    let m = Mask::<i64, 2>::from_array([false, true]);
    assert_eq!(m.to_int(), [0i64, -1]);
    let m = Mask::<isize, 1>::splat(true);
    assert_eq!(m.to_int(), [-1isize]);
}

#[test]
fn from_int_reads_minus_one_as_true() {
    let m = Mask::<i8, 4>::from_int([0, -1, -1, 0]);
    assert_eq!(m.to_array(), [false, true, true, false]);
    assert_eq!(m.to_int(), [0, -1, -1, 0]);
    let u = Mask::<i16, 2>::from_int_unchecked([-1, 0]);
    assert_eq!(u.to_array(), [true, false]);
}

#[test]
fn valid_accepts_only_zero_and_minus_one() {
    assert!(<i32 as Sealed>::valid([0i32, -1, 0, -1]));
    assert!(!<i32 as Sealed>::valid([0i32, 1, 0, -1]));
    assert!(!<i8 as Sealed>::valid([5i8]));
    assert!(<i64 as Sealed>::valid::<0>([]));
    assert!(!<isize as Sealed>::valid([-1isize, -2]));
}

#[test]
fn cast_keeps_every_lane() {
    let m = Mask::<i8, 4>::from_array([true, false, true, true]);
    let c: Mask<i64, 4> = m.cast();
    assert_eq!(c.to_array(), [true, false, true, true]);
    assert_eq!(c.to_int(), [-1i64, 0, -1, -1]);
    let back: Mask<i8, 4> = c.cast();
    assert!(back == m);
}

#[test]
fn test_and_set_lanes() {
    let mut m = Mask::<i32, 4>::splat(false);
    m.set(2, true);
    assert!(m.test(2));
    assert!(!m.test(0));
    assert!(!m.test(1));
    assert!(!m.test(3));
    m.set_unchecked(0, true);
    assert!(m.test_unchecked(0));
    assert_eq!(m.to_array(), [true, false, true, false]);
    m.set(2, false);
    assert_eq!(m.to_array(), [true, false, false, false]);
}

#[test]
fn any_and_all() {
    let none = Mask::<i8, 4>::splat(false);
    let some = Mask::<i8, 4>::from_array([false, false, true, false]);
    let every = Mask::<i8, 4>::splat(true);
    assert!(!none.any());
    assert!(!none.all());
    assert!(some.any());
    assert!(!some.all());
    assert!(every.any());
    assert!(every.all());
}

#[test]
fn any_all_of_negation() {
    let some = Mask::<i16, 4>::from_array([false, true, true, false]);
    assert_eq!((!some).all(), !some.any());
    assert_eq!((!some).any(), !some.all());
    let every = Mask::<i16, 4>::splat(true);
    assert_eq!((!every).all(), !every.any());
    assert_eq!((!every).any(), !every.all());
}

#[test]
fn default_is_all_false() {
    let m: Mask<i64, 8> = Default::default();
    assert_eq!(m.to_array(), [false; 8]);
    assert!(m == Mask::splat(false));
}

#[test]
fn equality_compares_lanes() {
    let a = Mask::<i32, 4>::from_array([true, false, true, false]);
    let b = Mask::<i32, 4>::from_array([true, false, true, false]);
    let c = Mask::<i32, 4>::from_array([true, false, false, false]);
    assert!(a == b);
    assert!(a != c);
    assert!(!(a == c));
}

#[test]
fn clone_is_the_same_mask() {
    let a = Mask::<i32, 2>::from_array([true, false]);
    let b = a.clone();
    assert!(a == b);
    assert_eq!(b.to_array(), [true, false]);
}
