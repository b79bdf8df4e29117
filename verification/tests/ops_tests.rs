use core_simd::Mask;

fn m4(a: [bool; 4]) -> Mask<i32, 4> {
    Mask::from_array(a)
}

#[test]
fn bitand_is_lanewise_and() {
    let a = m4([true, true, false, false]);
    let b = m4([true, false, true, false]);
    assert_eq!((a & b).to_array(), [true, false, false, false]);
    assert_eq!((a & true).to_array(), [true, true, false, false]);
    assert_eq!((a & false).to_array(), [false; 4]);
    assert_eq!((true & b).to_array(), [true, false, true, false]);
    assert_eq!((false & b).to_array(), [false; 4]);
}

#[test]
fn bitor_is_lanewise_or() {
    let a = m4([true, true, false, false]);
    let b = m4([true, false, true, false]);
    assert_eq!((a | b).to_array(), [true, true, true, false]);
    assert_eq!((a | true).to_array(), [true; 4]);
    assert_eq!((a | false).to_array(), [true, true, false, false]);
    assert_eq!((true | b).to_array(), [true; 4]);
    assert_eq!((false | b).to_array(), [true, false, true, false]);
}

#[test]
fn bitxor_is_lanewise_xor() {
    let a = m4([true, true, false, false]);
    let b = m4([true, false, true, false]);
    assert_eq!((a ^ b).to_array(), [false, true, true, false]);
    assert_eq!((a ^ true).to_array(), [false, false, true, true]);
    assert_eq!((a ^ false).to_array(), [true, true, false, false]);
    assert_eq!((true ^ b).to_array(), [false, true, false, true]);
    assert_eq!((false ^ b).to_array(), [true, false, true, false]);
}

#[test]
fn not_flips_every_lane() {
    let a = m4([true, true, false, false]);
    assert_eq!((!a).to_array(), [false, false, true, true]);
    assert_eq!((!a).to_int(), [0, 0, -1, -1]);
    assert!(!!a == a);
}

#[test]
fn assign_operators_agree_with_binary_ones() {
    let a = m4([true, true, false, false]);
    let b = m4([true, false, true, false]);
    let mut x = a;
    x &= b;
    assert!(x == (a & b));
    let mut x = a;
    x |= b;
    assert!(x == (a | b));
    let mut x = a;
    x ^= b;
    assert!(x == (a ^ b));
    let mut x = a;
    x &= false;
    assert_eq!(x.to_array(), [false; 4]);
    let mut x = a;
    x |= true;
    assert_eq!(x.to_array(), [true; 4]);
    let mut x = a;
    x ^= true;
    assert!(x == !a);
}

#[test]
fn boolean_algebra_on_concrete_masks() {
    let a = m4([true, true, false, false]);
    let b = m4([true, false, true, false]);
    let c = m4([false, true, true, true]);
    assert!(!(a & b) == (!a | !b));
    assert!(!(a | b) == (!a & !b));
    assert!((a & b) == (b & a));
    assert!((a | b) == (b | a));
    assert!((a ^ b) == (b ^ a));
    assert!(((a & b) & c) == (a & (b & c)));
    assert!(((a | b) | c) == (a | (b | c)));
    assert!(((a ^ b) ^ c) == (a ^ (b ^ c)));
    assert!(((a ^ b) ^ b) == a);
    assert_eq!((a ^ a).to_array(), [false; 4]);
    assert_eq!((a & !a).to_array(), [false; 4]);
    assert_eq!((a | !a).to_array(), [true; 4]);
    assert!((a & a) == a);
    assert!((a | a) == a);
}

#[test]
fn operators_on_other_element_types() {
    let a = Mask::<i8, 2>::from_array([true, false]);
    let b = Mask::<i8, 2>::from_array([true, true]);
    assert_eq!((a & b).to_int(), [-1i8, 0]);
    assert_eq!((a ^ b).to_int(), [0i8, -1]);
    let a = Mask::<i64, 2>::from_array([false, false]);
    assert_eq!((!a).to_int(), [-1i64, -1]);
    let a = Mask::<isize, 2>::from_array([false, true]);
    assert_eq!((a | false).to_int(), [0isize, -1]);
    let a = Mask::<i16, 2>::from_array([false, true]);
    assert_eq!((a | true).to_int(), [-1i16, -1]);
}
