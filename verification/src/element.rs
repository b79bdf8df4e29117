//! The integer types that a mask can be stored in, lane by lane.
use vstd::prelude::*;

verus! {

/// A lane value that stands for a mask element: `0` is false, `-1` is true.
pub open spec fn is_mask_int(x: int) -> bool {
    x == 0 || x == -1
}

/// The boolean a mask lane stands for.
pub open spec fn lane_bool(x: int) -> bool {
    x == -1
}

/// The lane value that stands for a boolean.
pub open spec fn mask_int(b: bool) -> int {
    if b {
        -1
    } else {
        0
    }
}

/// A true lane is `-1` and a false lane is `0`, and the boolean a lane
/// stands for is read back from it.
pub proof fn law_lane_values(b: bool)
    ensures
        mask_int(true) == -1,
        mask_int(false) == 0,
        lane_bool(-1),
        !lane_bool(0),
        lane_bool(mask_int(b)) == b,
        is_mask_int(mask_int(b)),
{
}

/// The operations a mask needs of its lane type.
///
/// Every lane of a mask holds `TRUE` (all bits set, `-1`) or `FALSE` (`0`).
pub trait Sealed: Copy + Sized {
    /// The integer value of a lane.
    spec fn as_int(self) -> int;

    /// Two lanes with the same integer value are the same lane.
    proof fn lemma_as_int_injective(a: Self, b: Self)
        requires
            a.as_int() == b.as_int(),
        ensures
            a == b,
    ;

    /// The lane that stands for `true`.
    const TRUE: Self;

    /// The lane that stands for `false`.
    const FALSE: Self;

    /// `TRUE` is `-1` and `FALSE` is `0`.
    proof fn lemma_true_false()
        ensures
            Self::TRUE.as_int() == -1,
            Self::FALSE.as_int() == 0,
    ;

    /// Whether every one of `values` is a mask lane (`0` or `-1`).
    fn valid<const N: usize>(values: [Self; N]) -> (r: bool)
        ensures
            r == (forall|i: int| 0 <= i < N ==> #[trigger] is_mask_int(values[i].as_int())),
    {
        proof {
            Self::lemma_true_false();
        }
        let mut i: usize = 0;
        while i < N
            invariant
                0 <= i <= N,
                Self::TRUE.as_int() == -1,
                Self::FALSE.as_int() == 0,
                forall|j: int| 0 <= j < i ==> #[trigger] is_mask_int(values[j].as_int()),
            decreases N - i,
        {
            let v = values[i];
            assert(v == values[i as int]);
            if !(Self::eq(v, Self::TRUE) || Self::eq(v, Self::FALSE)) {
                assert(!is_mask_int(values[i as int].as_int()));
                return false;
            }
            i = i + 1;
        }
        true
    }

    /// Lane-wise AND of two mask lanes.
    fn lane_and(self, other: Self) -> (r: Self)
        requires
            is_mask_int(self.as_int()),
            is_mask_int(other.as_int()),
        ensures
            r.as_int() == mask_int(lane_bool(self.as_int()) && lane_bool(other.as_int())),
    ;

    /// Lane-wise OR of two mask lanes.
    fn lane_or(self, other: Self) -> (r: Self)
        requires
            is_mask_int(self.as_int()),
            is_mask_int(other.as_int()),
        ensures
            r.as_int() == mask_int(lane_bool(self.as_int()) || lane_bool(other.as_int())),
    ;

    /// Lane-wise XOR of two mask lanes.
    fn lane_xor(self, other: Self) -> (r: Self)
        requires
            is_mask_int(self.as_int()),
            is_mask_int(other.as_int()),
        ensures
            r.as_int() == mask_int(lane_bool(self.as_int()) != lane_bool(other.as_int())),
    ;

    /// Lane-wise NOT of a mask lane.
    fn lane_not(self) -> (r: Self)
        requires
            is_mask_int(self.as_int()),
        ensures
            r.as_int() == mask_int(!lane_bool(self.as_int())),
    ;

    /// Whether two lanes are equal.
    fn eq(self, other: Self) -> (r: bool)
        ensures
            r == (self.as_int() == other.as_int()),
    ;
}

impl Sealed for i8 {
    open spec fn as_int(self) -> int {
        self as int
    }

    proof fn lemma_as_int_injective(a: Self, b: Self) {
    }

    const TRUE: Self = -1;

    const FALSE: Self = 0;

    proof fn lemma_true_false() {
        assert(Self::TRUE == -1i8);
        assert(Self::FALSE == 0i8);
    }

    fn lane_and(self, other: Self) -> (r: Self) {
        let r = self & other;
        assert(r == (if self == -1 && other == -1 { -1i8 } else { 0i8 })) by (bit_vector)
            requires
                self == 0 || self == -1,
                other == 0 || other == -1,
                r == self & other,
        ;
        r
    }

    fn lane_or(self, other: Self) -> (r: Self) {
        let r = self | other;
        assert(r == (if self == -1 || other == -1 { -1i8 } else { 0i8 })) by (bit_vector)
            requires
                self == 0 || self == -1,
                other == 0 || other == -1,
                r == self | other,
        ;
        r
    }

    fn lane_xor(self, other: Self) -> (r: Self) {
        let r = self ^ other;
        assert(r == (if (self == -1) != (other == -1) { -1i8 } else { 0i8 })) by (bit_vector)
            requires
                self == 0 || self == -1,
                other == 0 || other == -1,
                r == self ^ other,
        ;
        r
    }

    fn lane_not(self) -> (r: Self) {
        let r = !self;
        assert(r == (if self == -1 { 0i8 } else { -1i8 })) by (bit_vector)
            requires
                self == 0 || self == -1,
                r == !self,
        ;
        r
    }

    fn eq(self, other: Self) -> (r: bool) {
        self == other
    }
}

impl Sealed for i16 {
    open spec fn as_int(self) -> int {
        self as int
    }

    proof fn lemma_as_int_injective(a: Self, b: Self) {
    }

    const TRUE: Self = -1;

    const FALSE: Self = 0;

    proof fn lemma_true_false() {
        assert(Self::TRUE == -1i16);
        assert(Self::FALSE == 0i16);
    }

    fn lane_and(self, other: Self) -> (r: Self) {
        let r = self & other;
        assert(r == (if self == -1 && other == -1 { -1i16 } else { 0i16 })) by (bit_vector)
            requires
                self == 0 || self == -1,
                other == 0 || other == -1,
                r == self & other,
        ;
        r
    }

    fn lane_or(self, other: Self) -> (r: Self) {
        let r = self | other;
        assert(r == (if self == -1 || other == -1 { -1i16 } else { 0i16 })) by (bit_vector)
            requires
                self == 0 || self == -1,
                other == 0 || other == -1,
                r == self | other,
        ;
        r
    }

    fn lane_xor(self, other: Self) -> (r: Self) {
        let r = self ^ other;
        assert(r == (if (self == -1) != (other == -1) { -1i16 } else { 0i16 })) by (bit_vector)
            requires
                self == 0 || self == -1,
                other == 0 || other == -1,
                r == self ^ other,
        ;
        r
    }

    fn lane_not(self) -> (r: Self) {
        let r = !self;
        assert(r == (if self == -1 { 0i16 } else { -1i16 })) by (bit_vector)
            requires
                self == 0 || self == -1,
                r == !self,
        ;
        r
    }

    fn eq(self, other: Self) -> (r: bool) {
        self == other
    }
}

impl Sealed for i32 {
    open spec fn as_int(self) -> int {
        self as int
    }

    proof fn lemma_as_int_injective(a: Self, b: Self) {
    }

    const TRUE: Self = -1;

    const FALSE: Self = 0;

    proof fn lemma_true_false() {
        assert(Self::TRUE == -1i32);
        assert(Self::FALSE == 0i32);
    }

    fn lane_and(self, other: Self) -> (r: Self) {
        let r = self & other;
        assert(r == (if self == -1 && other == -1 { -1i32 } else { 0i32 })) by (bit_vector)
            requires
                self == 0 || self == -1,
                other == 0 || other == -1,
                r == self & other,
        ;
        r
    }

    fn lane_or(self, other: Self) -> (r: Self) {
        let r = self | other;
        assert(r == (if self == -1 || other == -1 { -1i32 } else { 0i32 })) by (bit_vector)
            requires
                self == 0 || self == -1,
                other == 0 || other == -1,
                r == self | other,
        ;
        r
    }

    fn lane_xor(self, other: Self) -> (r: Self) {
        let r = self ^ other;
        assert(r == (if (self == -1) != (other == -1) { -1i32 } else { 0i32 })) by (bit_vector)
            requires
                self == 0 || self == -1,
                other == 0 || other == -1,
                r == self ^ other,
        ;
        r
    }

    fn lane_not(self) -> (r: Self) {
        let r = !self;
        assert(r == (if self == -1 { 0i32 } else { -1i32 })) by (bit_vector)
            requires
                self == 0 || self == -1,
                r == !self,
        ;
        r
    }

    fn eq(self, other: Self) -> (r: bool) {
        self == other
    }
}

impl Sealed for i64 {
    open spec fn as_int(self) -> int {
        self as int
    }

    proof fn lemma_as_int_injective(a: Self, b: Self) {
    }

    const TRUE: Self = -1;

    const FALSE: Self = 0;

    proof fn lemma_true_false() {
        assert(Self::TRUE == -1i64);
        assert(Self::FALSE == 0i64);
    }

    fn lane_and(self, other: Self) -> (r: Self) {
        let r = self & other;
        assert(r == (if self == -1 && other == -1 { -1i64 } else { 0i64 })) by (bit_vector)
            requires
                self == 0 || self == -1,
                other == 0 || other == -1,
                r == self & other,
        ;
        r
    }

    fn lane_or(self, other: Self) -> (r: Self) {
        let r = self | other;
        assert(r == (if self == -1 || other == -1 { -1i64 } else { 0i64 })) by (bit_vector)
            requires
                self == 0 || self == -1,
                other == 0 || other == -1,
                r == self | other,
        ;
        r
    }

    fn lane_xor(self, other: Self) -> (r: Self) {
        let r = self ^ other;
        assert(r == (if (self == -1) != (other == -1) { -1i64 } else { 0i64 })) by (bit_vector)
            requires
                self == 0 || self == -1,
                other == 0 || other == -1,
                r == self ^ other,
        ;
        r
    }

    fn lane_not(self) -> (r: Self) {
        let r = !self;
        assert(r == (if self == -1 { 0i64 } else { -1i64 })) by (bit_vector)
            requires
                self == 0 || self == -1,
                r == !self,
        ;
        r
    }

    fn eq(self, other: Self) -> (r: bool) {
        self == other
    }
}

impl Sealed for isize {
    open spec fn as_int(self) -> int {
        self as int
    }

    proof fn lemma_as_int_injective(a: Self, b: Self) {
    }

    const TRUE: Self = -1;

    const FALSE: Self = 0;

    proof fn lemma_true_false() {
        assert(Self::TRUE == -1isize);
        assert(Self::FALSE == 0isize);
    }

    fn lane_and(self, other: Self) -> (r: Self) {
        let r = self & other;
        assert(r == (if self == -1 && other == -1 { -1isize } else { 0isize })) by (bit_vector)
            requires
                self == 0 || self == -1,
                other == 0 || other == -1,
                r == self & other,
        ;
        r
    }

    fn lane_or(self, other: Self) -> (r: Self) {
        let r = self | other;
        assert(r == (if self == -1 || other == -1 { -1isize } else { 0isize })) by (bit_vector)
            requires
                self == 0 || self == -1,
                other == 0 || other == -1,
                r == self | other,
        ;
        r
    }

    fn lane_xor(self, other: Self) -> (r: Self) {
        let r = self ^ other;
        assert(r == (if (self == -1) != (other == -1) { -1isize } else { 0isize })) by (bit_vector)
            requires
                self == 0 || self == -1,
                other == 0 || other == -1,
                r == self ^ other,
        ;
        r
    }

    fn lane_not(self) -> (r: Self) {
        let r = !self;
        assert(r == (if self == -1 { 0isize } else { -1isize })) by (bit_vector)
            requires
                self == 0 || self == -1,
                r == !self,
        ;
        r
    }

    fn eq(self, other: Self) -> (r: bool) {
        self == other
    }
}

/// Marker for the types that may be used as mask elements: the signed
/// integer types.
pub trait MaskElement: Sealed {

}

impl MaskElement for i8 {

}

impl MaskElement for i16 {

}

impl MaskElement for i32 {

}

impl MaskElement for i64 {

}

impl MaskElement for isize {

}

} // verus!
