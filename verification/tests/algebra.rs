use auto_diff::Const;
use auto_diff::Operator;
use auto_diff::Var;
use auto_diff::Variable;

#[test]
fn test_operations() {
    let x = Variable::Const(2i32);
    let y = Variable::Var("var", 10i32);
    assert_eq!(Variable::Var("var", 34), x.mul_raw(2).add(Variable::raw_mul(3, y)));
}

#[test]
fn tag_table_add() {
    assert_eq!(Variable::Const(5u8), Variable::Const(2u8).add(Variable::Const(3u8)));
    assert_eq!(Variable::Var("n", 5u8), Variable::Const(2u8).add(Variable::Var("n", 3u8)));
    assert_eq!(Variable::Var("n", 5u8), Variable::Var("n", 2u8).add(Variable::Const(3u8)));
    assert_eq!(Variable::Var("a", 5u8), Variable::Var("a", 2u8).add(Variable::Var("b", 3u8)));
}

#[test]
fn tag_table_sub() {
    assert_eq!(Variable::Const(4i16), Variable::Const(7i16).sub(Variable::Const(3i16)));
    assert_eq!(Variable::Var("n", 4i16), Variable::Const(7i16).sub(Variable::Var("n", 3i16)));
    assert_eq!(Variable::Var("n", 4i16), Variable::Var("n", 7i16).sub(Variable::Const(3i16)));
    assert_eq!(Variable::Var("a", 4i16), Variable::Var("a", 7i16).sub(Variable::Var("b", 3i16)));
}

#[test]
fn tag_table_mul() {
    assert_eq!(Variable::Const(12u32), Variable::Const(4u32).mul(Variable::Const(3u32)));
    assert_eq!(Variable::Var("n", 12u32), Variable::Const(4u32).mul(Variable::Var("n", 3u32)));
    assert_eq!(Variable::Var("n", 12u32), Variable::Var("n", 4u32).mul(Variable::Const(3u32)));
    assert_eq!(Variable::Var("a", 12u32), Variable::Var("a", 4u32).mul(Variable::Var("b", 3u32)));
}

#[test]
fn tag_table_div() {
    assert_eq!(Variable::Const(4i64), Variable::Const(12i64).div(Variable::Const(3i64)));
    assert_eq!(Variable::Var("n", 4i64), Variable::Const(12i64).div(Variable::Var("n", 3i64)));
    assert_eq!(Variable::Var("n", 4i64), Variable::Var("n", 12i64).div(Variable::Const(3i64)));
    assert_eq!(Variable::Var("a", 4i64), Variable::Var("a", 12i64).div(Variable::Var("b", 3i64)));
}

#[test]
fn mixed_raw_keeps_variant_and_name() {
    assert_eq!(Variable::Var("v", 9u64), Variable::Var("v", 4u64).add_raw(5));
    assert_eq!(Variable::Var("v", 9u64), Variable::raw_add(5, Variable::Var("v", 4u64)));
    assert_eq!(Variable::Const(9u64), Variable::Const(4u64).add_raw(5));
    assert_eq!(Variable::Const(1u64), Variable::raw_sub(5, Variable::Const(4u64)));
    assert_eq!(Variable::Var("v", 3i8), Variable::Var("v", 7i8).sub_raw(4));
    assert_eq!(Variable::Var("v", 20i8), Variable::Var("v", 4i8).mul_raw(5));
    assert_eq!(Variable::Var("v", 20i8), Variable::raw_mul(5, Variable::Var("v", 4i8)));
    assert_eq!(Variable::Var("v", 2u16), Variable::Var("v", 11u16).div_raw(5));
    assert_eq!(Variable::Var("v", 5u16), Variable::raw_div(60, Variable::Var("v", 12u16)));
}

#[test]
fn two_variables_keep_left_name_only() {
    let left = Variable::Var("kept", 8i32);
    let right = Variable::Var("discarded", 2i32);
    assert_eq!(Variable::Var("kept", 10), left.add(right));
    assert_eq!(Variable::Var("kept", 6), left.sub(right));
    assert_eq!(Variable::Var("kept", 16), left.mul(right));
    assert_eq!(Variable::Var("kept", 4), left.div(right));
    assert_eq!(Some("kept"), left.add(right).name());
}

#[test]
fn signed_division_truncates_toward_zero() {
    assert_eq!(Variable::Const(-3i32), Variable::Const(-7i32).div(Variable::Const(2i32)));
    assert_eq!(Variable::Const(-3i32), Variable::Const(7i32).div(Variable::Const(-2i32)));
    assert_eq!(Variable::Const(3i32), Variable::Const(-7i32).div(Variable::Const(-2i32)));
    assert_eq!(Variable::Const(i64::MIN), Variable::Const(i64::MIN).div(Variable::Const(1i64)));
    assert_eq!(Variable::Const(i64::MIN / 2), Variable::Const(i64::MIN).div(Variable::Const(2i64)));
    assert_eq!(Variable::Const(i64::MAX), Variable::Const(-i64::MAX).div(Variable::Const(-1i64)));
}

#[test]
fn unsigned_boundaries() {
    assert_eq!(Variable::Const(255u8), Variable::Const(250u8).add(Variable::Const(5u8)));
    assert_eq!(Variable::Const(0u8), Variable::Const(5u8).sub(Variable::Const(5u8)));
    assert_eq!(Variable::Const(u128::MAX), Variable::Const(u128::MAX).mul(Variable::Const(1u128)));
    assert_eq!(Variable::Const(0usize), Variable::Const(3usize).div(Variable::Const(4usize)));
}

#[test]
fn variable_accessors() {
    let c = Variable::Const(41u64);
    assert_eq!(None, c.name());
    assert_eq!(&41u64, c.value());
    let v = Variable::Var("speed", 9u64);
    assert_eq!(Some("speed"), v.name());
    assert_eq!(&9u64, v.value());
}

#[test]
fn const_struct_operations() {
    let a = Const::init(20u32);
    let b = Const::init(4u32);
    assert_eq!(&20u32, a.value());
    assert_eq!(Const::init(24u32), a.add(b));
    assert_eq!(Const::init(16u32), a.sub(b));
    assert_eq!(Const::init(80u32), a.mul(b));
    assert_eq!(Const::init(5u32), a.div(b));
    assert_eq!(Const::init(30u32), a.add_raw(10));
    assert_eq!(Const::init(2u32), Const::raw_div(40, a));
}

#[test]
fn var_struct_operations() {
    let a = Var::init("left", 20i64);
    let b = Var::init("right", 4i64);
    assert_eq!("left", a.name());
    assert_eq!(&20i64, a.value());
    assert_eq!(Var::init("left", 24), a.add(b));
    assert_eq!(Var::init("left", 16), a.sub(b));
    assert_eq!(Var::init("left", 80), a.mul(b));
    assert_eq!(Var::init("left", 5), a.div(b));
    assert_eq!(Var::init("left", 10), a.sub_raw(10));
    assert_eq!(Var::init("right", 24), Var::raw_add(20, b));
}

#[test]
fn operator_accessors() {
    let s = Operator::Sum(1u8, 2u8);
    assert_eq!(&1u8, s.left());
    assert_eq!(&2u8, s.right());
    let d = Operator::Div("num", 7i32);
    assert_eq!(&"num", d.left());
    assert_eq!(&7i32, d.right());
    let m = Operator::Mul(3u16, 4u16);
    assert_eq!(&3u16, m.left());
    let b = Operator::Sub(9i8, 5i8);
    assert_eq!(&5i8, b.right());
}
