use vstd::prelude::*;

verus! {

/// A primitive integer type that a space can hold. Each value is modelled by
/// the mathematical integer it denotes; conversions go through `i128`, which
/// holds every value of every implementing type.
pub trait Element: Copy + Sized {
    /// The integer that the value denotes.
    spec fn int_value(&self) -> int;

    /// The least value of the type.
    spec fn min_int() -> int;

    /// The greatest value of the type.
    spec fn max_int() -> int;

    /// Every value lies between the type's least and greatest values, and
    /// those bounds lie within the ranges of `i64` and `u64`.
    proof fn lemma_range(&self)
        ensures
            i64::MIN <= Self::min_int() <= self.int_value() <= Self::max_int() <= u64::MAX,
    ;

    /// The value, widened.
    fn to_wide(&self) -> (r: i128)
        ensures
            r == self.int_value(),
    ;

    /// The value that denotes `w`.
    fn from_wide(w: i128) -> (r: Self)
        requires
            Self::min_int() <= w <= Self::max_int(),
        ensures
            r.int_value() == w,
    ;

    /// The greatest value of the type, widened.
    fn max_wide() -> (r: i128)
        ensures
            r == Self::max_int(),
    ;
}

impl Element for u8 {
    open spec fn int_value(&self) -> int {
        *self as int
    }

    open spec fn min_int() -> int {
        u8::MIN as int
    }

    open spec fn max_int() -> int {
        u8::MAX as int
    }

    proof fn lemma_range(&self) {
    }

    fn to_wide(&self) -> (r: i128) {
        *self as i128
    }

    fn from_wide(w: i128) -> (r: Self) {
        w as u8
    }

    fn max_wide() -> (r: i128) {
        u8::MAX as i128
    }
}

impl Element for u16 {
    open spec fn int_value(&self) -> int {
        *self as int
    }

    open spec fn min_int() -> int {
        u16::MIN as int
    }

    open spec fn max_int() -> int {
        u16::MAX as int
    }

    proof fn lemma_range(&self) {
    }

    fn to_wide(&self) -> (r: i128) {
        *self as i128
    }

    fn from_wide(w: i128) -> (r: Self) {
        w as u16
    }

    fn max_wide() -> (r: i128) {
        u16::MAX as i128
    }
}

impl Element for u32 {
    open spec fn int_value(&self) -> int {
        *self as int
    }

    open spec fn min_int() -> int {
        u32::MIN as int
    }

    open spec fn max_int() -> int {
        u32::MAX as int
    }

    proof fn lemma_range(&self) {
    }

    fn to_wide(&self) -> (r: i128) {
        *self as i128
    }

    fn from_wide(w: i128) -> (r: Self) {
        w as u32
    }

    fn max_wide() -> (r: i128) {
        u32::MAX as i128
    }
}

impl Element for u64 {
    open spec fn int_value(&self) -> int {
        *self as int
    }

    open spec fn min_int() -> int {
        u64::MIN as int
    }

    open spec fn max_int() -> int {
        u64::MAX as int
    }

    proof fn lemma_range(&self) {
    }

    fn to_wide(&self) -> (r: i128) {
        *self as i128
    }

    fn from_wide(w: i128) -> (r: Self) {
        w as u64
    }

    fn max_wide() -> (r: i128) {
        u64::MAX as i128
    }
}

impl Element for usize {
    open spec fn int_value(&self) -> int {
        *self as int
    }

    open spec fn min_int() -> int {
        usize::MIN as int
    }

    open spec fn max_int() -> int {
        usize::MAX as int
    }

    proof fn lemma_range(&self) {
    }

    fn to_wide(&self) -> (r: i128) {
        *self as i128
    }

    fn from_wide(w: i128) -> (r: Self) {
        w as usize
    }

    fn max_wide() -> (r: i128) {
        usize::MAX as i128
    }
}

impl Element for i8 {
    open spec fn int_value(&self) -> int {
        *self as int
    }

    open spec fn min_int() -> int {
        i8::MIN as int
    }

    open spec fn max_int() -> int {
        i8::MAX as int
    }

    proof fn lemma_range(&self) {
    }

    fn to_wide(&self) -> (r: i128) {
        *self as i128
    }

    fn from_wide(w: i128) -> (r: Self) {
        w as i8
    }

    fn max_wide() -> (r: i128) {
        i8::MAX as i128
    }
}

impl Element for i16 {
    open spec fn int_value(&self) -> int {
        *self as int
    }

    open spec fn min_int() -> int {
        i16::MIN as int
    }

    open spec fn max_int() -> int {
        i16::MAX as int
    }

    proof fn lemma_range(&self) {
    }

    fn to_wide(&self) -> (r: i128) {
        *self as i128
    }

    fn from_wide(w: i128) -> (r: Self) {
        w as i16
    }

    fn max_wide() -> (r: i128) {
        i16::MAX as i128
    }
}

impl Element for i32 {
    open spec fn int_value(&self) -> int {
        *self as int
    }

    open spec fn min_int() -> int {
        i32::MIN as int
    }

    open spec fn max_int() -> int {
        i32::MAX as int
    }

    proof fn lemma_range(&self) {
    }

    fn to_wide(&self) -> (r: i128) {
        *self as i128
    }

    fn from_wide(w: i128) -> (r: Self) {
        w as i32
    }

    fn max_wide() -> (r: i128) {
        i32::MAX as i128
    }
}

impl Element for i64 {
    open spec fn int_value(&self) -> int {
        *self as int
    }

    open spec fn min_int() -> int {
        i64::MIN as int
    }

    open spec fn max_int() -> int {
        i64::MAX as int
    }

    proof fn lemma_range(&self) {
    }

    fn to_wide(&self) -> (r: i128) {
        *self as i128
    }

    fn from_wide(w: i128) -> (r: Self) {
        w as i64
    }

    fn max_wide() -> (r: i128) {
        i64::MAX as i128
    }
}

impl Element for isize {
    open spec fn int_value(&self) -> int {
        *self as int
    }

    open spec fn min_int() -> int {
        isize::MIN as int
    }

    open spec fn max_int() -> int {
        isize::MAX as int
    }

    proof fn lemma_range(&self) {
    }

    fn to_wide(&self) -> (r: i128) {
        *self as i128
    }

    fn from_wide(w: i128) -> (r: Self) {
        w as isize
    }

    fn max_wide() -> (r: i128) {
        isize::MAX as i128
    }
}

} // verus!
