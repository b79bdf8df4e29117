use core_simd::Sealed;

#[test]
fn true_and_false_lanes() {
    assert_eq!(<i8 as Sealed>::TRUE, -1i8);
    assert_eq!(<i8 as Sealed>::FALSE, 0i8);
    assert_eq!(<i16 as Sealed>::TRUE, -1i16);
    assert_eq!(<i32 as Sealed>::FALSE, 0i32);
    assert_eq!(<i64 as Sealed>::TRUE, -1i64);
    assert_eq!(<isize as Sealed>::TRUE, -1isize);
}

#[test]
fn lane_equality() {
    assert!(Sealed::eq(-1i32, -1i32));
    assert!(!Sealed::eq(-1i32, 0i32));
    assert!(Sealed::eq(7i64, 7i64));
}

#[test]
fn lane_operations() {
    for a in [0i8, -1] {
        for b in [0i8, -1] {
            let ba = a == -1;
            let bb = b == -1;
            assert_eq!(a.lane_and(b) == -1, ba && bb);
            assert_eq!(a.lane_or(b) == -1, ba || bb);
            assert_eq!(a.lane_xor(b) == -1, ba != bb);
            assert!(a.lane_and(b) == 0 || a.lane_and(b) == -1);
        }
        assert_eq!(a.lane_not() == -1, a == 0);
    }
    assert_eq!((-1i64).lane_and(0), 0);
    assert_eq!((-1isize).lane_or(0), -1);
    assert_eq!((-1i16).lane_xor(-1), 0);
    assert_eq!(0i32.lane_not(), -1);
}
