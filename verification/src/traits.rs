use vstd::prelude::*;

verus! {

/// Additive identity for a numeric kind: the literal `0` converted into it.
pub trait Zero: Sized {
    spec fn spec_zero() -> Self;

    fn zero() -> (r: Self)
        ensures
            r == Self::spec_zero(),
    ;
}

/// Multiplicative identity for a numeric kind: the literal `1` converted into it.
pub trait One: Sized {
    spec fn spec_one() -> Self;

    fn one() -> (r: Self)
        ensures
            r == Self::spec_one(),
    ;
}

/// The derivative of `self` with respect to `variable`, answered from the two
/// values alone: no operation history is kept, so the rule is purely local.
pub trait Operation<V, O> {
    spec fn spec_backward(&self, variable: &V) -> O;

    fn backward(&self, variable: &V) -> (r: O)
        ensures
            r == self.spec_backward(variable),
    ;
}

/// Primitive arithmetic with exact contracts, supplied by every numeric kind
/// the library supports. The `*_req` conditions exclude exactly the inputs on
/// which the native operator would overflow or trap.
pub trait Numeric: Sized + Copy {
    spec fn add_req(self, other: Self) -> bool;

    spec fn add_spec(self, other: Self) -> Self;

    fn add_val(self, other: Self) -> (r: Self)
        requires
            self.add_req(other),
        ensures
            r == self.add_spec(other),
    ;

    spec fn sub_req(self, other: Self) -> bool;

    spec fn sub_spec(self, other: Self) -> Self;

    fn sub_val(self, other: Self) -> (r: Self)
        requires
            self.sub_req(other),
        ensures
            r == self.sub_spec(other),
    ;

    spec fn mul_req(self, other: Self) -> bool;

    spec fn mul_spec(self, other: Self) -> Self;

    fn mul_val(self, other: Self) -> (r: Self)
        requires
            self.mul_req(other),
        ensures
            r == self.mul_spec(other),
    ;

    spec fn div_req(self, other: Self) -> bool;

    spec fn div_spec(self, other: Self) -> Self;

    fn div_val(self, other: Self) -> (r: Self)
        requires
            self.div_req(other),
        ensures
            r == self.div_spec(other),
    ;

    fn eq_val(&self, other: &Self) -> (r: bool)
        ensures
            r == (*self == *other),
    ;
}

/// Rust's `/` on signed integers truncates toward zero, while `/` in
/// specifications is Euclidean; this is the truncating quotient, written over
/// the mathematical integers.
pub open spec fn trunc_div(a: int, b: int) -> int {
    if a == 0 {
        0int
    } else if a > 0 && b > 0 {
        a / b
    } else if a < 0 && b < 0 {
        (a * -1) / (b * -1)
    } else if a < 0 {
        ((a * -1) / b) * -1
    } else {
        (a / (b * -1)) * -1
    }
}

/// For a signed kind whose range is `-(hi + 1) ..= hi`, the truncating
/// quotient stays in range whenever the division neither divides by zero nor
/// negates the smallest value.
pub proof fn lemma_trunc_div_in_range(x: int, d: int, hi: int)
    requires
        d != 0,
        hi >= 1,
        -(hi + 1) <= x <= hi,
        !(x == -(hi + 1) && d == -1),
    ensures
        -(hi + 1) <= trunc_div(x, d) <= hi,
{
    let output = trunc_div(x, d);
    if x == 0 {
    } else if x > 0 && d > 0 {
        assert(0 <= output <= x) by (nonlinear_arith)
            requires
                x > 0 && d > 0 && output == x / d,
        ;
    } else if x < 0 && d < 0 {
        assert(0 <= output <= x * -1) by (nonlinear_arith)
            requires
                x < 0 && d < 0 && output == (x * -1) / (d * -1),
        ;
        if x * -1 == hi + 1 {
            assert(d <= -2);
            assert(output <= (x * -1) / 2) by (nonlinear_arith)
                requires
                    d <= -2 && x < 0 && output == (x * -1) / (d * -1),
            ;
        }
    } else if x < 0 {
        assert(0 <= output * -1 <= x * -1) by (nonlinear_arith)
            requires
                x < 0 && d > 0 && output == ((x * -1) / d) * -1,
        ;
    } else {
        assert(0 <= output * -1 <= x) by (nonlinear_arith)
            requires
                x > 0 && d < 0 && output == (x / (d * -1)) * -1,
        ;
    }
}

impl Zero for usize {
    open spec fn spec_zero() -> usize {
        0usize
    }

    fn zero() -> (r: usize) {
        0
    }
}

impl One for usize {
    open spec fn spec_one() -> usize {
        1usize
    }

    fn one() -> (r: usize) {
        1
    }
}

impl Numeric for usize {
    open spec fn add_req(self, other: usize) -> bool {
        self + other <= usize::MAX
    }

    open spec fn add_spec(self, other: usize) -> usize {
        (self + other) as usize
    }

    fn add_val(self, other: usize) -> (r: usize) {
        self + other
    }

    open spec fn sub_req(self, other: usize) -> bool {
        other <= self
    }

    open spec fn sub_spec(self, other: usize) -> usize {
        (self - other) as usize
    }

    fn sub_val(self, other: usize) -> (r: usize) {
        self - other
    }

    open spec fn mul_req(self, other: usize) -> bool {
        self * other <= usize::MAX
    }

    open spec fn mul_spec(self, other: usize) -> usize {
        (self * other) as usize
    }

    fn mul_val(self, other: usize) -> (r: usize) {
        self * other
    }

    open spec fn div_req(self, other: usize) -> bool {
        other != 0
    }

    open spec fn div_spec(self, other: usize) -> usize {
        (self as int / other as int) as usize
    }

    fn div_val(self, other: usize) -> (r: usize) {
        self / other
    }

    fn eq_val(&self, other: &usize) -> (r: bool) {
        *self == *other
    }
}

impl Zero for u8 {
    open spec fn spec_zero() -> u8 {
        0u8
    }

    fn zero() -> (r: u8) {
        0
    }
}

impl One for u8 {
    open spec fn spec_one() -> u8 {
        1u8
    }

    fn one() -> (r: u8) {
        1
    }
}

impl Numeric for u8 {
    open spec fn add_req(self, other: u8) -> bool {
        self + other <= u8::MAX
    }

    open spec fn add_spec(self, other: u8) -> u8 {
        (self + other) as u8
    }

    fn add_val(self, other: u8) -> (r: u8) {
        self + other
    }

    open spec fn sub_req(self, other: u8) -> bool {
        other <= self
    }

    open spec fn sub_spec(self, other: u8) -> u8 {
        (self - other) as u8
    }

    fn sub_val(self, other: u8) -> (r: u8) {
        self - other
    }

    open spec fn mul_req(self, other: u8) -> bool {
        self * other <= u8::MAX
    }

    open spec fn mul_spec(self, other: u8) -> u8 {
        (self * other) as u8
    }

    fn mul_val(self, other: u8) -> (r: u8) {
        self * other
    }

    open spec fn div_req(self, other: u8) -> bool {
        other != 0
    }

    open spec fn div_spec(self, other: u8) -> u8 {
        (self as int / other as int) as u8
    }

    fn div_val(self, other: u8) -> (r: u8) {
        self / other
    }

    fn eq_val(&self, other: &u8) -> (r: bool) {
        *self == *other
    }
}

impl Zero for u16 {
    open spec fn spec_zero() -> u16 {
        0u16
    }

    fn zero() -> (r: u16) {
        0
    }
}

impl One for u16 {
    open spec fn spec_one() -> u16 {
        1u16
    }

    fn one() -> (r: u16) {
        1
    }
}

impl Numeric for u16 {
    open spec fn add_req(self, other: u16) -> bool {
        self + other <= u16::MAX
    }

    open spec fn add_spec(self, other: u16) -> u16 {
        (self + other) as u16
    }

    fn add_val(self, other: u16) -> (r: u16) {
        self + other
    }

    open spec fn sub_req(self, other: u16) -> bool {
        other <= self
    }

    open spec fn sub_spec(self, other: u16) -> u16 {
        (self - other) as u16
    }

    fn sub_val(self, other: u16) -> (r: u16) {
        self - other
    }

    open spec fn mul_req(self, other: u16) -> bool {
        self * other <= u16::MAX
    }

    open spec fn mul_spec(self, other: u16) -> u16 {
        (self * other) as u16
    }

    fn mul_val(self, other: u16) -> (r: u16) {
        self * other
    }

    open spec fn div_req(self, other: u16) -> bool {
        other != 0
    }

    open spec fn div_spec(self, other: u16) -> u16 {
        (self as int / other as int) as u16
    }

    fn div_val(self, other: u16) -> (r: u16) {
        self / other
    }

    fn eq_val(&self, other: &u16) -> (r: bool) {
        *self == *other
    }
}

impl Zero for u32 {
    open spec fn spec_zero() -> u32 {
        0u32
    }

    fn zero() -> (r: u32) {
        0
    }
}

impl One for u32 {
    open spec fn spec_one() -> u32 {
        1u32
    }

    fn one() -> (r: u32) {
        1
    }
}

impl Numeric for u32 {
    open spec fn add_req(self, other: u32) -> bool {
        self + other <= u32::MAX
    }

    open spec fn add_spec(self, other: u32) -> u32 {
        (self + other) as u32
    }

    fn add_val(self, other: u32) -> (r: u32) {
        self + other
    }

    open spec fn sub_req(self, other: u32) -> bool {
        other <= self
    }

    open spec fn sub_spec(self, other: u32) -> u32 {
        (self - other) as u32
    }

    fn sub_val(self, other: u32) -> (r: u32) {
        self - other
    }

    open spec fn mul_req(self, other: u32) -> bool {
        self * other <= u32::MAX
    }

    open spec fn mul_spec(self, other: u32) -> u32 {
        (self * other) as u32
    }

    fn mul_val(self, other: u32) -> (r: u32) {
        self * other
    }

    open spec fn div_req(self, other: u32) -> bool {
        other != 0
    }

    open spec fn div_spec(self, other: u32) -> u32 {
        (self as int / other as int) as u32
    }

    fn div_val(self, other: u32) -> (r: u32) {
        self / other
    }

    fn eq_val(&self, other: &u32) -> (r: bool) {
        *self == *other
    }
}

impl Zero for u64 {
    open spec fn spec_zero() -> u64 {
        0u64
    }

    fn zero() -> (r: u64) {
        0
    }
}

impl One for u64 {
    open spec fn spec_one() -> u64 {
        1u64
    }

    fn one() -> (r: u64) {
        1
    }
}

impl Numeric for u64 {
    open spec fn add_req(self, other: u64) -> bool {
        self + other <= u64::MAX
    }

    open spec fn add_spec(self, other: u64) -> u64 {
        (self + other) as u64
    }

    fn add_val(self, other: u64) -> (r: u64) {
        self + other
    }

    open spec fn sub_req(self, other: u64) -> bool {
        other <= self
    }

    open spec fn sub_spec(self, other: u64) -> u64 {
        (self - other) as u64
    }

    fn sub_val(self, other: u64) -> (r: u64) {
        self - other
    }

    open spec fn mul_req(self, other: u64) -> bool {
        self * other <= u64::MAX
    }

    open spec fn mul_spec(self, other: u64) -> u64 {
        (self * other) as u64
    }

    fn mul_val(self, other: u64) -> (r: u64) {
        self * other
    }

    open spec fn div_req(self, other: u64) -> bool {
        other != 0
    }

    open spec fn div_spec(self, other: u64) -> u64 {
        (self as int / other as int) as u64
    }

    fn div_val(self, other: u64) -> (r: u64) {
        self / other
    }

    fn eq_val(&self, other: &u64) -> (r: bool) {
        *self == *other
    }
}

impl Zero for u128 {
    open spec fn spec_zero() -> u128 {
        0u128
    }

    fn zero() -> (r: u128) {
        0
    }
}

impl One for u128 {
    open spec fn spec_one() -> u128 {
        1u128
    }

    fn one() -> (r: u128) {
        1
    }
}

impl Numeric for u128 {
    open spec fn add_req(self, other: u128) -> bool {
        self + other <= u128::MAX
    }

    open spec fn add_spec(self, other: u128) -> u128 {
        (self + other) as u128
    }

    fn add_val(self, other: u128) -> (r: u128) {
        self + other
    }

    open spec fn sub_req(self, other: u128) -> bool {
        other <= self
    }

    open spec fn sub_spec(self, other: u128) -> u128 {
        (self - other) as u128
    }

    fn sub_val(self, other: u128) -> (r: u128) {
        self - other
    }

    open spec fn mul_req(self, other: u128) -> bool {
        self * other <= u128::MAX
    }

    open spec fn mul_spec(self, other: u128) -> u128 {
        (self * other) as u128
    }

    fn mul_val(self, other: u128) -> (r: u128) {
        self * other
    }

    open spec fn div_req(self, other: u128) -> bool {
        other != 0
    }

    open spec fn div_spec(self, other: u128) -> u128 {
        (self as int / other as int) as u128
    }

    fn div_val(self, other: u128) -> (r: u128) {
        self / other
    }

    fn eq_val(&self, other: &u128) -> (r: bool) {
        *self == *other
    }
}

impl Zero for isize {
    open spec fn spec_zero() -> isize {
        0isize
    }

    fn zero() -> (r: isize) {
        0
    }
}

impl One for isize {
    open spec fn spec_one() -> isize {
        1isize
    }

    fn one() -> (r: isize) {
        1
    }
}

impl Numeric for isize {
    open spec fn add_req(self, other: isize) -> bool {
        isize::MIN <= self + other <= isize::MAX
    }

    open spec fn add_spec(self, other: isize) -> isize {
        (self + other) as isize
    }

    fn add_val(self, other: isize) -> (r: isize) {
        self + other
    }

    open spec fn sub_req(self, other: isize) -> bool {
        isize::MIN <= self - other <= isize::MAX
    }

    open spec fn sub_spec(self, other: isize) -> isize {
        (self - other) as isize
    }

    fn sub_val(self, other: isize) -> (r: isize) {
        self - other
    }

    open spec fn mul_req(self, other: isize) -> bool {
        isize::MIN <= self * other <= isize::MAX
    }

    open spec fn mul_spec(self, other: isize) -> isize {
        (self * other) as isize
    }

    fn mul_val(self, other: isize) -> (r: isize) {
        self * other
    }

    open spec fn div_req(self, other: isize) -> bool {
        other != 0 && !(self == isize::MIN && other == -1)
    }

    open spec fn div_spec(self, other: isize) -> isize {
        trunc_div(self as int, other as int) as isize
    }

    fn div_val(self, other: isize) -> (r: isize) {
        proof {
            lemma_trunc_div_in_range(self as int, other as int, isize::MAX as int);
        }
        match self.checked_div(other) {
            Some(q) => q,
            None => 0,
        }
    }

    fn eq_val(&self, other: &isize) -> (r: bool) {
        *self == *other
    }
}

impl Zero for i8 {
    open spec fn spec_zero() -> i8 {
        0i8
    }

    fn zero() -> (r: i8) {
        0
    }
}

impl One for i8 {
    open spec fn spec_one() -> i8 {
        1i8
    }

    fn one() -> (r: i8) {
        1
    }
}

impl Numeric for i8 {
    open spec fn add_req(self, other: i8) -> bool {
        i8::MIN <= self + other <= i8::MAX
    }

    open spec fn add_spec(self, other: i8) -> i8 {
        (self + other) as i8
    }

    fn add_val(self, other: i8) -> (r: i8) {
        self + other
    }

    open spec fn sub_req(self, other: i8) -> bool {
        i8::MIN <= self - other <= i8::MAX
    }

    open spec fn sub_spec(self, other: i8) -> i8 {
        (self - other) as i8
    }

    fn sub_val(self, other: i8) -> (r: i8) {
        self - other
    }

    open spec fn mul_req(self, other: i8) -> bool {
        i8::MIN <= self * other <= i8::MAX
    }

    open spec fn mul_spec(self, other: i8) -> i8 {
        (self * other) as i8
    }

    fn mul_val(self, other: i8) -> (r: i8) {
        self * other
    }

    open spec fn div_req(self, other: i8) -> bool {
        other != 0 && !(self == i8::MIN && other == -1)
    }

    open spec fn div_spec(self, other: i8) -> i8 {
        trunc_div(self as int, other as int) as i8
    }

    fn div_val(self, other: i8) -> (r: i8) {
        proof {
            lemma_trunc_div_in_range(self as int, other as int, i8::MAX as int);
        }
        match self.checked_div(other) {
            Some(q) => q,
            None => 0,
        }
    }

    fn eq_val(&self, other: &i8) -> (r: bool) {
        *self == *other
    }
}

impl Zero for i16 {
    open spec fn spec_zero() -> i16 {
        0i16
    }

    fn zero() -> (r: i16) {
        0
    }
}

impl One for i16 {
    open spec fn spec_one() -> i16 {
        1i16
    }

    fn one() -> (r: i16) {
        1
    }
}

impl Numeric for i16 {
    open spec fn add_req(self, other: i16) -> bool {
        i16::MIN <= self + other <= i16::MAX
    }

    open spec fn add_spec(self, other: i16) -> i16 {
        (self + other) as i16
    }

    fn add_val(self, other: i16) -> (r: i16) {
        self + other
    }

    open spec fn sub_req(self, other: i16) -> bool {
        i16::MIN <= self - other <= i16::MAX
    }

    open spec fn sub_spec(self, other: i16) -> i16 {
        (self - other) as i16
    }

    fn sub_val(self, other: i16) -> (r: i16) {
        self - other
    }

    open spec fn mul_req(self, other: i16) -> bool {
        i16::MIN <= self * other <= i16::MAX
    }

    open spec fn mul_spec(self, other: i16) -> i16 {
        (self * other) as i16
    }

    fn mul_val(self, other: i16) -> (r: i16) {
        self * other
    }

    open spec fn div_req(self, other: i16) -> bool {
        other != 0 && !(self == i16::MIN && other == -1)
    }

    open spec fn div_spec(self, other: i16) -> i16 {
        trunc_div(self as int, other as int) as i16
    }

    fn div_val(self, other: i16) -> (r: i16) {
        proof {
            lemma_trunc_div_in_range(self as int, other as int, i16::MAX as int);
        }
        match self.checked_div(other) {
            Some(q) => q,
            None => 0,
        }
    }

    fn eq_val(&self, other: &i16) -> (r: bool) {
        *self == *other
    }
}

impl Zero for i32 {
    open spec fn spec_zero() -> i32 {
        0i32
    }

    fn zero() -> (r: i32) {
        0
    }
}

impl One for i32 {
    open spec fn spec_one() -> i32 {
        1i32
    }

    fn one() -> (r: i32) {
        1
    }
}

impl Numeric for i32 {
    open spec fn add_req(self, other: i32) -> bool {
        i32::MIN <= self + other <= i32::MAX
    }

    open spec fn add_spec(self, other: i32) -> i32 {
        (self + other) as i32
    }

    fn add_val(self, other: i32) -> (r: i32) {
        self + other
    }

    open spec fn sub_req(self, other: i32) -> bool {
        i32::MIN <= self - other <= i32::MAX
    }

    open spec fn sub_spec(self, other: i32) -> i32 {
        (self - other) as i32
    }

    fn sub_val(self, other: i32) -> (r: i32) {
        self - other
    }

    open spec fn mul_req(self, other: i32) -> bool {
        i32::MIN <= self * other <= i32::MAX
    }

    open spec fn mul_spec(self, other: i32) -> i32 {
        (self * other) as i32
    }

    fn mul_val(self, other: i32) -> (r: i32) {
        self * other
    }

    open spec fn div_req(self, other: i32) -> bool {
        other != 0 && !(self == i32::MIN && other == -1)
    }

    open spec fn div_spec(self, other: i32) -> i32 {
        trunc_div(self as int, other as int) as i32
    }

    fn div_val(self, other: i32) -> (r: i32) {
        proof {
            lemma_trunc_div_in_range(self as int, other as int, i32::MAX as int);
        }
        match self.checked_div(other) {
            Some(q) => q,
            None => 0,
        }
    }

    fn eq_val(&self, other: &i32) -> (r: bool) {
        *self == *other
    }
}

impl Zero for i64 {
    open spec fn spec_zero() -> i64 {
        0i64
    }

    fn zero() -> (r: i64) {
        0
    }
}

impl One for i64 {
    open spec fn spec_one() -> i64 {
        1i64
    }

    fn one() -> (r: i64) {
        1
    }
}

impl Numeric for i64 {
    open spec fn add_req(self, other: i64) -> bool {
        i64::MIN <= self + other <= i64::MAX
    }

    open spec fn add_spec(self, other: i64) -> i64 {
        (self + other) as i64
    }

    fn add_val(self, other: i64) -> (r: i64) {
        self + other
    }

    open spec fn sub_req(self, other: i64) -> bool {
        i64::MIN <= self - other <= i64::MAX
    }

    open spec fn sub_spec(self, other: i64) -> i64 {
        (self - other) as i64
    }

    fn sub_val(self, other: i64) -> (r: i64) {
        self - other
    }

    open spec fn mul_req(self, other: i64) -> bool {
        i64::MIN <= self * other <= i64::MAX
    }

    open spec fn mul_spec(self, other: i64) -> i64 {
        (self * other) as i64
    }

    fn mul_val(self, other: i64) -> (r: i64) {
        self * other
    }

    open spec fn div_req(self, other: i64) -> bool {
        other != 0 && !(self == i64::MIN && other == -1)
    }

    open spec fn div_spec(self, other: i64) -> i64 {
        trunc_div(self as int, other as int) as i64
    }

    fn div_val(self, other: i64) -> (r: i64) {
        proof {
            lemma_trunc_div_in_range(self as int, other as int, i64::MAX as int);
        }
        match self.checked_div(other) {
            Some(q) => q,
            None => 0,
        }
    }

    fn eq_val(&self, other: &i64) -> (r: bool) {
        *self == *other
    }
}

impl Zero for i128 {
    open spec fn spec_zero() -> i128 {
        0i128
    }

    fn zero() -> (r: i128) {
        0
    }
}

impl One for i128 {
    open spec fn spec_one() -> i128 {
        1i128
    }

    fn one() -> (r: i128) {
        1
    }
}

impl Numeric for i128 {
    open spec fn add_req(self, other: i128) -> bool {
        i128::MIN <= self + other <= i128::MAX
    }

    open spec fn add_spec(self, other: i128) -> i128 {
        (self + other) as i128
    }

    fn add_val(self, other: i128) -> (r: i128) {
        self + other
    }

    open spec fn sub_req(self, other: i128) -> bool {
        i128::MIN <= self - other <= i128::MAX
    }

    open spec fn sub_spec(self, other: i128) -> i128 {
        (self - other) as i128
    }

    fn sub_val(self, other: i128) -> (r: i128) {
        self - other
    }

    open spec fn mul_req(self, other: i128) -> bool {
        i128::MIN <= self * other <= i128::MAX
    }

    open spec fn mul_spec(self, other: i128) -> i128 {
        (self * other) as i128
    }

    fn mul_val(self, other: i128) -> (r: i128) {
        self * other
    }

    open spec fn div_req(self, other: i128) -> bool {
        other != 0 && !(self == i128::MIN && other == -1)
    }

    open spec fn div_spec(self, other: i128) -> i128 {
        trunc_div(self as int, other as int) as i128
    }

    fn div_val(self, other: i128) -> (r: i128) {
        proof {
            lemma_trunc_div_in_range(self as int, other as int, i128::MAX as int);
        }
        match self.checked_div(other) {
            Some(q) => q,
            None => 0,
        }
    }

    fn eq_val(&self, other: &i128) -> (r: bool) {
        *self == *other
    }
}

} // verus!
