# core_simd masks

Boolean masks over the lanes of a SIMD vector, with their contracts proved in
Verus.

A `Mask<T, N>` holds `N` lanes, each stored as an integer of the signed type
`T` (`i8`, `i16`, `i32`, `i64` or `isize`) that is `0` for false and `-1` for
true. Its view is the sequence of its `N` booleans, and every operation is
specified over that view:

- `src/element.rs`: the lane types (`Sealed`, `MaskElement`), their `TRUE` and
  `FALSE` lanes and the lane-wise logic on `0`/`-1` integers.
- `src/mask.rs`: the mask type, its invariant, construction, lane access and
  conversion to and from boolean arrays and integer vectors.
- `src/ops.rs`: `&`, `|`, `^`, `!` and their assigning forms, with the laws of
  the lane-wise boolean algebra.
- `src/convert.rs`: `From` conversions, `Default` and `==`.
- `src/lex.rs`, `src/order.rs`: the order of masks and its laws.
- `src/debug.rs`: the text of a mask as a list of booleans.
