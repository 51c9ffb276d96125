use auto_diff::One;
use auto_diff::Zero;

#[test]
fn zero_and_one_usize() {
    assert_eq!(0usize, <usize as Zero>::zero());
    assert_eq!(1usize, <usize as One>::one());
}

#[test]
fn zero_and_one_u8() {
    assert_eq!(0u8, <u8 as Zero>::zero());
    assert_eq!(1u8, <u8 as One>::one());
}

#[test]
fn zero_and_one_u16() {
    assert_eq!(0u16, <u16 as Zero>::zero());
    assert_eq!(1u16, <u16 as One>::one());
}

#[test]
fn zero_and_one_u32() {
    assert_eq!(0u32, <u32 as Zero>::zero());
    assert_eq!(1u32, <u32 as One>::one());
}

#[test]
fn zero_and_one_u64() {
    assert_eq!(0u64, <u64 as Zero>::zero());
    assert_eq!(1u64, <u64 as One>::one());
}

#[test]
fn zero_and_one_u128() {
    assert_eq!(0u128, <u128 as Zero>::zero());
    assert_eq!(1u128, <u128 as One>::one());
}

#[test]
fn zero_and_one_isize() {
    assert_eq!(0isize, <isize as Zero>::zero());
    assert_eq!(1isize, <isize as One>::one());
}

#[test]
fn zero_and_one_i8() {
    assert_eq!(0i8, <i8 as Zero>::zero());
    assert_eq!(1i8, <i8 as One>::one());
}

#[test]
fn zero_and_one_i16() {
    assert_eq!(0i16, <i16 as Zero>::zero());
    assert_eq!(1i16, <i16 as One>::one());
}

#[test]
fn zero_and_one_i32() {
    assert_eq!(0i32, <i32 as Zero>::zero());
    assert_eq!(1i32, <i32 as One>::one());
}

#[test]
fn zero_and_one_i64() {
    assert_eq!(0i64, <i64 as Zero>::zero());
    assert_eq!(1i64, <i64 as One>::one());
}

#[test]
fn zero_and_one_i128() {
    assert_eq!(0i128, <i128 as Zero>::zero());
    assert_eq!(1i128, <i128 as One>::one());
}

