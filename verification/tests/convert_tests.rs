use core_simd::Mask;

#[test]
fn from_bool_array() {
    let m: Mask<i32, 4> = Mask::from([true, false, false, true]);
    assert_eq!(m.to_array(), [true, false, false, true]);
    let m: Mask<i8, 2> = [false, true].into();
    assert_eq!(m.to_int(), [0, -1]);
}

#[test]
fn into_bool_array() {
    let m = Mask::<i64, 4>::from_array([true, true, false, true]);
    let a: [bool; 4] = m.into();
    assert_eq!(a, [true, true, false, true]);
    let b = <[bool; 4]>::from(m);
    assert_eq!(b, a);
}

#[test]
fn from_mask_of_other_width() {
    let m8 = Mask::<i8, 4>::from_array([true, false, true, false]);
    let m16: Mask<i16, 4> = Mask::from(m8);
    let m32: Mask<i32, 4> = m16.into();
    let m64: Mask<i64, 4> = Mask::from(m32);
    let msz: Mask<isize, 4> = Mask::from(m64);
    let back: Mask<i8, 4> = Mask::from(msz);
    assert_eq!(m16.to_int(), [-1i16, 0, -1, 0]);
    assert_eq!(m32.to_int(), [-1i32, 0, -1, 0]);
    assert_eq!(m64.to_int(), [-1i64, 0, -1, 0]);
    assert_eq!(msz.to_int(), [-1isize, 0, -1, 0]);
    assert!(back == m8);
    let wide: Mask<isize, 2> = Mask::<i16, 2>::from_array([false, true]).into();
    assert_eq!(wide.to_array(), [false, true]);
    let narrow: Mask<i16, 2> = Mask::<isize, 2>::from_array([true, false]).into();
    assert_eq!(narrow.to_array(), [true, false]);
}
