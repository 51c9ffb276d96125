use auto_diff::Const;
use auto_diff::Operation;
use auto_diff::Var;
use auto_diff::Variable;
use auto_diff::text_eq;

#[test]
fn test_backward() {
    let x = Variable::Const(-5);
    let y = Variable::Var("y", 10);
    assert_eq!(0, x.backward(&x));
    assert_eq!(0, x.backward(&y));
    assert_eq!(1, y.backward(&y));
    assert_eq!(0, y.backward(&x));
}

#[test]
fn backward_needs_name_and_value() {
    let v = Variable::Var("x", 3u32);
    assert_eq!(1, v.backward(&Variable::Var("x", 3u32)));
    assert_eq!(0, v.backward(&Variable::Var("x", 4u32)));
    assert_eq!(0, v.backward(&Variable::Var("z", 3u32)));
    assert_eq!(0, v.backward(&Variable::Const(3u32)));
}

#[test]
fn backward_const_struct() {
    let c = Const::init(5i16);
    assert_eq!(0, c.backward(&Const::init(5i16)));
    assert_eq!(0, c.backward(&Var::init("x", 5i16)));
    assert_eq!(0i16, c.backward(&"anything"));
}

#[test]
fn backward_var_struct() {
    let v = Var::init("x", 3i64);
    assert_eq!(0, v.backward(&Const::init(3i64)));
    assert_eq!(1, v.backward(&Var::init("x", 3i64)));
    assert_eq!(0, v.backward(&Var::init("x", 4i64)));
    assert_eq!(0, v.backward(&Var::init("w", 3i64)));
}

#[test]
fn backward_result_is_fresh_leaf() {
    let y = Variable::Var("y", 10i32);
    let doubled = y.mul_raw(2);
    assert_eq!(Variable::Var("y", 20), doubled);
    assert_eq!(0, doubled.backward(&y));
    assert_eq!(1, doubled.backward(&doubled));
}

#[test]
fn text_eq_compares_characters() {
    assert!(text_eq("abc", "abc"));
    assert!(!text_eq("abc", "abd"));
    assert!(!text_eq("abc", "abcd"));
    assert!(text_eq("", ""));
}

#[test]
fn structural_equality() {
    let v = Variable::Var("x", 3u32);
    assert!(v.equals(&Variable::Var("x", 3u32)));
    assert!(!v.equals(&Variable::Var("x", 4u32)));
    assert!(!v.equals(&Variable::Var("q", 3u32)));
    assert!(!v.equals(&Variable::Const(3u32)));
    assert!(Variable::Const(3u32).equals(&Variable::Const(3u32)));
    assert!(!Variable::Const(3u32).equals(&Variable::Const(4u32)));
    assert!(Const::init(2i8).equals(&Const::init(2i8)));
    assert!(!Const::init(2i8).equals(&Const::init(3i8)));
    assert!(Var::init("n", 2i8).equals(&Var::init("n", 2i8)));
    assert!(!Var::init("n", 2i8).equals(&Var::init("m", 2i8)));
}
