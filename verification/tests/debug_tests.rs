use core_simd::Mask;

#[test]
fn debug_string_lists_the_lanes() {
    let m = Mask::<i32, 4>::from_array([true, false, false, true]);
    assert_eq!(m.debug_string(), "[true, false, false, true]");
    let one = Mask::<i8, 1>::splat(false);
    assert_eq!(one.debug_string(), "[false]");
    let none = Mask::<i8, 0>::splat(true);
    assert_eq!(none.debug_string(), "[]");
}
