use vstd::prelude::*;

use crate::traits::Numeric;

verus! {

/// An anonymous numeric quantity.
#[derive(Debug, PartialEq, Clone, Copy)]
pub struct Const<T> {
    value: T,
}

impl<T> Const<T> {
    /// The wrapped value, for use in contracts.
    pub closed spec fn spec_value(self) -> T {
        self.value
    }

    pub fn init(value: T) -> (r: Self)
        ensures
            r.spec_value() == value,
    {
        Self { value }
    }

    pub fn value(&self) -> (r: &T)
        ensures
            *r == self.spec_value(),
    {
        &self.value
    }
}

/// A numeric quantity bound to a name that is borrowed from longer-lived
/// storage; neither the name nor the value is ever mutated.
#[derive(Debug, PartialEq, Clone, Copy)]
pub struct Var<'a, T> {
    name: &'a str,
    value: T,
}

impl<'a, T> Var<'a, T> {
    /// The name's characters, for use in contracts.
    pub closed spec fn spec_name(self) -> Seq<char> {
        self.name@
    }

    /// The wrapped value, for use in contracts.
    pub closed spec fn spec_value(self) -> T {
        self.value
    }

    pub fn init(name: &'a str, value: T) -> (r: Self)
        ensures
            r.spec_name() == name@,
            r.spec_value() == value,
    {
        Self { name, value }
    }

    pub fn name(&self) -> (r: &'a str)
        ensures
            r@ == self.spec_name(),
    {
        self.name
    }

    pub fn value(&self) -> (r: &T)
        ensures
            *r == self.spec_value(),
    {
        &self.value
    }
}

/// A tagged scalar: either an anonymous constant or a named variable. The tag
/// and name of a value never change; arithmetic always builds a fresh value.
#[derive(Debug, PartialEq, Clone, Copy)]
pub enum Variable<'a, T> {
    Const(T),
    Var(&'a str, T),
}

/// Character-for-character equality of two string slices.
pub fn text_eq(a: &str, b: &str) -> (r: bool)
    ensures
        r == (a@ == b@),
{
    let n = a.unicode_len();
    if n != b.unicode_len() {
        proof {
            assert(a@.len() != b@.len());
        }
        return false;
    }
    let mut i: usize = 0;
    while i < n
        invariant
            n == a@.len(),
            n == b@.len(),
            i <= n,
            forall|j: int| 0 <= j < i ==> a@[j] == b@[j],
        decreases n - i,
    {
        if a.get_char(i) != b.get_char(i) {
            return false;
        }
        i = i + 1;
    }
    proof {
        assert(a@ =~= b@);
    }
    true
}

impl<'a, T> Variable<'a, T> {
    /// Whether this scalar is a named variable.
    pub open spec fn is_var(self) -> bool {
        self matches Variable::Var(_, _)
    }

    /// The name's characters when this scalar is a named variable.
    pub open spec fn spec_name(self) -> Option<Seq<char>> {
        match self {
            Variable::Const(_) => None,
            Variable::Var(name, _) => Some(name@),
        }
    }

    /// The numeric value, present in either variant.
    pub open spec fn spec_value(self) -> T {
        match self {
            Variable::Const(value) => value,
            Variable::Var(_, value) => value,
        }
    }

    /// The tag rule for a binary operation whose result is `value`: the
    /// result is a variable exactly when an operand is one, named after the
    /// left operand when that is a variable, else after the right. When both
    /// operands are variables the right name is discarded by design.
    pub open spec fn combined(self, other: Self, value: T) -> Self {
        match self {
            Variable::Var(name, _) => Variable::Var(name, value),
            Variable::Const(_) => match other {
                Variable::Var(name, _) => Variable::Var(name, value),
                Variable::Const(_) => Variable::Const(value),
            },
        }
    }

    /// The same variant and name as `self`, holding `value` instead.
    pub open spec fn with_value(self, value: T) -> Self {
        match self {
            Variable::Const(_) => Variable::Const(value),
            Variable::Var(name, _) => Variable::Var(name, value),
        }
    }

    pub fn name(&self) -> (r: Option<&'a str>)
        ensures
            match r {
                Some(s) => self.is_var() && Some(s@) == self.spec_name(),
                None => !self.is_var(),
            },
    {
        if let Variable::Var(name, _) = self {
            Some(name)
        } else {
            None
        }
    }

    pub fn value(&self) -> (r: &T)
        ensures
            *r == self.spec_value(),
    {
        match self {
            Variable::Const(value) => value,
            Variable::Var(_, value) => value,
        }
    }
}

impl<'a, T: Numeric> Variable<'a, T> {
    /// Structural equality of two tagged scalars: the same variant, the same
    /// name for variables, and the same value.
    pub fn equals<'b>(&self, other: &Variable<'b, T>) -> (r: bool)
        ensures
            r == same_scalar(*self, *other),
    {
        match self {
            Variable::Const(value) => match other {
                Variable::Const(other_value) => value.eq_val(other_value),
                Variable::Var(_, _) => false,
            },
            Variable::Var(name, value) => match other {
                Variable::Var(other_name, other_value) => text_eq(name, other_name)
                    && value.eq_val(other_value),
                Variable::Const(_) => false,
            },
        }
    }

    /// The sum of two tagged scalars, tagged by the propagation rule.
    pub fn add(self, other: Self) -> (r: Self)
        requires
            self.spec_value().add_req(other.spec_value()),
        ensures
            r == self.combined(other, self.spec_value().add_spec(other.spec_value())),
    {
        match self {
            Variable::Const(c0) => match other {
                Variable::Var(name, var) => Variable::Var(name, c0.add_val(var)),
                Variable::Const(c1) => Variable::Const(c0.add_val(c1)),
            },
            Variable::Var(name1, var1) => match other {
                Variable::Var(_, var2) => Variable::Var(name1, var1.add_val(var2)),
                Variable::Const(c) => Variable::Var(name1, var1.add_val(c)),
            },
        }
    }

    /// The sum of this scalar and a raw value; the variant and name stay.
    pub fn add_raw(self, other: T) -> (r: Self)
        requires
            self.spec_value().add_req(other),
        ensures
            r == self.with_value(self.spec_value().add_spec(other)),
    {
        match self {
            Variable::Const(c) => Variable::Const(c.add_val(other)),
            Variable::Var(name, value) => Variable::Var(name, value.add_val(other)),
        }
    }

    /// The sum of a raw value and a tagged scalar; the variant and name stay.
    pub fn raw_add(left: T, right: Self) -> (r: Self)
        requires
            left.add_req(right.spec_value()),
        ensures
            r == right.with_value(left.add_spec(right.spec_value())),
    {
        match right {
            Variable::Const(c) => Variable::Const(left.add_val(c)),
            Variable::Var(name, value) => Variable::Var(name, left.add_val(value)),
        }
    }

    /// The difference of two tagged scalars, tagged by the propagation rule.
    pub fn sub(self, other: Self) -> (r: Self)
        requires
            self.spec_value().sub_req(other.spec_value()),
        ensures
            r == self.combined(other, self.spec_value().sub_spec(other.spec_value())),
    {
        match self {
            Variable::Const(c0) => match other {
                Variable::Var(name, var) => Variable::Var(name, c0.sub_val(var)),
                Variable::Const(c1) => Variable::Const(c0.sub_val(c1)),
            },
            Variable::Var(name1, var1) => match other {
                Variable::Var(_, var2) => Variable::Var(name1, var1.sub_val(var2)),
                Variable::Const(c) => Variable::Var(name1, var1.sub_val(c)),
            },
        }
    }

    /// The difference of this scalar minus a raw value; the variant and name stay.
    pub fn sub_raw(self, other: T) -> (r: Self)
        requires
            self.spec_value().sub_req(other),
        ensures
            r == self.with_value(self.spec_value().sub_spec(other)),
    {
        match self {
            Variable::Const(c) => Variable::Const(c.sub_val(other)),
            Variable::Var(name, value) => Variable::Var(name, value.sub_val(other)),
        }
    }

    /// The difference of a raw value minus a tagged scalar; the variant and name stay.
    pub fn raw_sub(left: T, right: Self) -> (r: Self)
        requires
            left.sub_req(right.spec_value()),
        ensures
            r == right.with_value(left.sub_spec(right.spec_value())),
    {
        match right {
            Variable::Const(c) => Variable::Const(left.sub_val(c)),
            Variable::Var(name, value) => Variable::Var(name, left.sub_val(value)),
        }
    }

    /// The product of two tagged scalars, tagged by the propagation rule.
    pub fn mul(self, other: Self) -> (r: Self)
        requires
            self.spec_value().mul_req(other.spec_value()),
        ensures
            r == self.combined(other, self.spec_value().mul_spec(other.spec_value())),
    {
        match self {
            Variable::Const(c0) => match other {
                Variable::Var(name, var) => Variable::Var(name, c0.mul_val(var)),
                Variable::Const(c1) => Variable::Const(c0.mul_val(c1)),
            },
            Variable::Var(name1, var1) => match other {
                Variable::Var(_, var2) => Variable::Var(name1, var1.mul_val(var2)),
                Variable::Const(c) => Variable::Var(name1, var1.mul_val(c)),
            },
        }
    }

    /// The product of this scalar times a raw value; the variant and name stay.
    pub fn mul_raw(self, other: T) -> (r: Self)
        requires
            self.spec_value().mul_req(other),
        ensures
            r == self.with_value(self.spec_value().mul_spec(other)),
    {
        match self {
            Variable::Const(c) => Variable::Const(c.mul_val(other)),
            Variable::Var(name, value) => Variable::Var(name, value.mul_val(other)),
        }
    }

    /// The product of a raw value times a tagged scalar; the variant and name stay.
    pub fn raw_mul(left: T, right: Self) -> (r: Self)
        requires
            left.mul_req(right.spec_value()),
        ensures
            r == right.with_value(left.mul_spec(right.spec_value())),
    {
        match right {
            Variable::Const(c) => Variable::Const(left.mul_val(c)),
            Variable::Var(name, value) => Variable::Var(name, left.mul_val(value)),
        }
    }

    /// The quotient of two tagged scalars, tagged by the propagation rule.
    pub fn div(self, other: Self) -> (r: Self)
        requires
            self.spec_value().div_req(other.spec_value()),
        ensures
            r == self.combined(other, self.spec_value().div_spec(other.spec_value())),
    {
        match self {
            Variable::Const(c0) => match other {
                Variable::Var(name, var) => Variable::Var(name, c0.div_val(var)),
                Variable::Const(c1) => Variable::Const(c0.div_val(c1)),
            },
            Variable::Var(name1, var1) => match other {
                Variable::Var(_, var2) => Variable::Var(name1, var1.div_val(var2)),
                Variable::Const(c) => Variable::Var(name1, var1.div_val(c)),
            },
        }
    }

    /// The quotient of this scalar over a raw value; the variant and name stay.
    pub fn div_raw(self, other: T) -> (r: Self)
        requires
            self.spec_value().div_req(other),
        ensures
            r == self.with_value(self.spec_value().div_spec(other)),
    {
        match self {
            Variable::Const(c) => Variable::Const(c.div_val(other)),
            Variable::Var(name, value) => Variable::Var(name, value.div_val(other)),
        }
    }

    /// The quotient of a raw value over a tagged scalar; the variant and name stay.
    pub fn raw_div(left: T, right: Self) -> (r: Self)
        requires
            left.div_req(right.spec_value()),
        ensures
            r == right.with_value(left.div_spec(right.spec_value())),
    {
        match right {
            Variable::Const(c) => Variable::Const(left.div_val(c)),
            Variable::Var(name, value) => Variable::Var(name, left.div_val(value)),
        }
    }

}

impl<T: Numeric> Const<T> {
    /// Structural equality of two constants: the same value.
    pub fn equals(&self, other: &Const<T>) -> (r: bool)
        ensures
            r == (self.spec_value() == other.spec_value()),
    {
        self.value.eq_val(&other.value)
    }

    /// The sum of two constants.
    pub fn add(self, other: Const<T>) -> (r: Const<T>)
        requires
            self.spec_value().add_req(other.spec_value()),
        ensures
            r.spec_value() == self.spec_value().add_spec(other.spec_value()),
    {
        Const { value: self.value.add_val(other.value) }
    }

    /// The sum of this constant and a raw value.
    pub fn add_raw(self, other: T) -> (r: Const<T>)
        requires
            self.spec_value().add_req(other),
        ensures
            r.spec_value() == self.spec_value().add_spec(other),
    {
        Const { value: self.value.add_val(other) }
    }

    /// The sum of a raw value and a constant.
    pub fn raw_add(left: T, right: Const<T>) -> (r: Const<T>)
        requires
            left.add_req(right.spec_value()),
        ensures
            r.spec_value() == left.add_spec(right.spec_value()),
    {
        Const { value: left.add_val(right.value) }
    }

    /// The difference of two constants.
    pub fn sub(self, other: Const<T>) -> (r: Const<T>)
        requires
            self.spec_value().sub_req(other.spec_value()),
        ensures
            r.spec_value() == self.spec_value().sub_spec(other.spec_value()),
    {
        Const { value: self.value.sub_val(other.value) }
    }

    /// The difference of this constant minus a raw value.
    pub fn sub_raw(self, other: T) -> (r: Const<T>)
        requires
            self.spec_value().sub_req(other),
        ensures
            r.spec_value() == self.spec_value().sub_spec(other),
    {
        Const { value: self.value.sub_val(other) }
    }

    /// The difference of a raw value minus a constant.
    pub fn raw_sub(left: T, right: Const<T>) -> (r: Const<T>)
        requires
            left.sub_req(right.spec_value()),
        ensures
            r.spec_value() == left.sub_spec(right.spec_value()),
    {
        Const { value: left.sub_val(right.value) }
    }

    /// The product of two constants.
    pub fn mul(self, other: Const<T>) -> (r: Const<T>)
        requires
            self.spec_value().mul_req(other.spec_value()),
        ensures
            r.spec_value() == self.spec_value().mul_spec(other.spec_value()),
    {
        Const { value: self.value.mul_val(other.value) }
    }

    /// The product of this constant times a raw value.
    pub fn mul_raw(self, other: T) -> (r: Const<T>)
        requires
            self.spec_value().mul_req(other),
        ensures
            r.spec_value() == self.spec_value().mul_spec(other),
    {
        Const { value: self.value.mul_val(other) }
    }

    /// The product of a raw value times a constant.
    pub fn raw_mul(left: T, right: Const<T>) -> (r: Const<T>)
        requires
            left.mul_req(right.spec_value()),
        ensures
            r.spec_value() == left.mul_spec(right.spec_value()),
    {
        Const { value: left.mul_val(right.value) }
    }

    /// The quotient of two constants.
    pub fn div(self, other: Const<T>) -> (r: Const<T>)
        requires
            self.spec_value().div_req(other.spec_value()),
        ensures
            r.spec_value() == self.spec_value().div_spec(other.spec_value()),
    {
        Const { value: self.value.div_val(other.value) }
    }

    /// The quotient of this constant over a raw value.
    pub fn div_raw(self, other: T) -> (r: Const<T>)
        requires
            self.spec_value().div_req(other),
        ensures
            r.spec_value() == self.spec_value().div_spec(other),
    {
        Const { value: self.value.div_val(other) }
    }

    /// The quotient of a raw value over a constant.
    pub fn raw_div(left: T, right: Const<T>) -> (r: Const<T>)
        requires
            left.div_req(right.spec_value()),
        ensures
            r.spec_value() == left.div_spec(right.spec_value()),
    {
        Const { value: left.div_val(right.value) }
    }

}

impl<'a, T: Numeric> Var<'a, T> {
    /// Structural equality of two named variables: the same name and value.
    pub fn equals<'b>(&self, other: &Var<'b, T>) -> (r: bool)
        ensures
            r == (self.spec_name() == other.spec_name() && self.spec_value()
                == other.spec_value()),
    {
        text_eq(self.name, other.name) && self.value.eq_val(&other.value)
    }

    /// The sum of two named variables; the result keeps this one's name.
    pub fn add(self, other: Var<'a, T>) -> (r: Var<'a, T>)
        requires
            self.spec_value().add_req(other.spec_value()),
        ensures
            r.spec_name() == self.spec_name(),
            r.spec_value() == self.spec_value().add_spec(other.spec_value()),
    {
        Var { name: self.name, value: self.value.add_val(other.value) }
    }

    /// The sum of this variable and a raw value; the name stays.
    pub fn add_raw(self, other: T) -> (r: Var<'a, T>)
        requires
            self.spec_value().add_req(other),
        ensures
            r.spec_name() == self.spec_name(),
            r.spec_value() == self.spec_value().add_spec(other),
    {
        Var { name: self.name, value: self.value.add_val(other) }
    }

    /// The sum of a raw value and a named variable; the name stays.
    pub fn raw_add(left: T, right: Var<'a, T>) -> (r: Var<'a, T>)
        requires
            left.add_req(right.spec_value()),
        ensures
            r.spec_name() == right.spec_name(),
            r.spec_value() == left.add_spec(right.spec_value()),
    {
        Var { name: right.name, value: left.add_val(right.value) }
    }

    /// The difference of two named variables; the result keeps this one's name.
    pub fn sub(self, other: Var<'a, T>) -> (r: Var<'a, T>)
        requires
            self.spec_value().sub_req(other.spec_value()),
        ensures
            r.spec_name() == self.spec_name(),
            r.spec_value() == self.spec_value().sub_spec(other.spec_value()),
    {
        Var { name: self.name, value: self.value.sub_val(other.value) }
    }

    /// The difference of this variable minus a raw value; the name stays.
    pub fn sub_raw(self, other: T) -> (r: Var<'a, T>)
        requires
            self.spec_value().sub_req(other),
        ensures
            r.spec_name() == self.spec_name(),
            r.spec_value() == self.spec_value().sub_spec(other),
    {
        Var { name: self.name, value: self.value.sub_val(other) }
    }

    /// The difference of a raw value minus a named variable; the name stays.
    pub fn raw_sub(left: T, right: Var<'a, T>) -> (r: Var<'a, T>)
        requires
            left.sub_req(right.spec_value()),
        ensures
            r.spec_name() == right.spec_name(),
            r.spec_value() == left.sub_spec(right.spec_value()),
    {
        Var { name: right.name, value: left.sub_val(right.value) }
    }

    /// The product of two named variables; the result keeps this one's name.
    pub fn mul(self, other: Var<'a, T>) -> (r: Var<'a, T>)
        requires
            self.spec_value().mul_req(other.spec_value()),
        ensures
            r.spec_name() == self.spec_name(),
            r.spec_value() == self.spec_value().mul_spec(other.spec_value()),
    {
        Var { name: self.name, value: self.value.mul_val(other.value) }
    }

    /// The product of this variable times a raw value; the name stays.
    pub fn mul_raw(self, other: T) -> (r: Var<'a, T>)
        requires
            self.spec_value().mul_req(other),
        ensures
            r.spec_name() == self.spec_name(),
            r.spec_value() == self.spec_value().mul_spec(other),
    {
        Var { name: self.name, value: self.value.mul_val(other) }
    }

    /// The product of a raw value times a named variable; the name stays.
    pub fn raw_mul(left: T, right: Var<'a, T>) -> (r: Var<'a, T>)
        requires
            left.mul_req(right.spec_value()),
        ensures
            r.spec_name() == right.spec_name(),
            r.spec_value() == left.mul_spec(right.spec_value()),
    {
        Var { name: right.name, value: left.mul_val(right.value) }
    }

    /// The quotient of two named variables; the result keeps this one's name.
    pub fn div(self, other: Var<'a, T>) -> (r: Var<'a, T>)
        requires
            self.spec_value().div_req(other.spec_value()),
        ensures
            r.spec_name() == self.spec_name(),
            r.spec_value() == self.spec_value().div_spec(other.spec_value()),
    {
        Var { name: self.name, value: self.value.div_val(other.value) }
    }

    /// The quotient of this variable over a raw value; the name stays.
    pub fn div_raw(self, other: T) -> (r: Var<'a, T>)
        requires
            self.spec_value().div_req(other),
        ensures
            r.spec_name() == self.spec_name(),
            r.spec_value() == self.spec_value().div_spec(other),
    {
        Var { name: self.name, value: self.value.div_val(other) }
    }

    /// The quotient of a raw value over a named variable; the name stays.
    pub fn raw_div(left: T, right: Var<'a, T>) -> (r: Var<'a, T>)
        requires
            left.div_req(right.spec_value()),
        ensures
            r.spec_name() == right.spec_name(),
            r.spec_value() == left.div_spec(right.spec_value()),
    {
        Var { name: right.name, value: left.div_val(right.value) }
    }

}

/// A recorded binary operation over two operands; purely structural, with
/// accessors for the two sides.
#[derive(Debug, PartialEq, Clone, Copy)]
pub enum Operator<X, Y> {
    Sum(X, Y),
    Sub(X, Y),
    Mul(X, Y),
    Div(X, Y),
}

impl<X, Y> Operator<X, Y> {
    /// The left operand, whichever the operation is.
    pub open spec fn spec_left(self) -> X {
        match self {
            Operator::Sum(x, _) => x,
            Operator::Sub(x, _) => x,
            Operator::Mul(x, _) => x,
            Operator::Div(x, _) => x,
        }
    }

    /// The right operand, whichever the operation is.
    pub open spec fn spec_right(self) -> Y {
        match self {
            Operator::Sum(_, y) => y,
            Operator::Sub(_, y) => y,
            Operator::Mul(_, y) => y,
            Operator::Div(_, y) => y,
        }
    }

    pub fn left(&self) -> (r: &X)
        ensures
            *r == self.spec_left(),
    {
        match self {
            Self::Sum(x, _) => x,
            Self::Sub(x, _) => x,
            Self::Mul(x, _) => x,
            Self::Div(x, _) => x,
        }
    }

    pub fn right(&self) -> (r: &Y)
        ensures
            *r == self.spec_right(),
    {
        match self {
            Self::Sum(_, y) => y,
            Self::Sub(_, y) => y,
            Self::Mul(_, y) => y,
            Self::Div(_, y) => y,
        }
    }
}

/// Full structural equality of two tagged scalars, stated over their views:
/// the same variant, the same name (for variables), and the same value.
pub open spec fn same_scalar<'a, 'b, T>(a: Variable<'a, T>, b: Variable<'b, T>) -> bool {
    &&& a.is_var() == b.is_var()
    &&& a.spec_name() == b.spec_name()
    &&& a.spec_value() == b.spec_value()
}

/// The tag-propagation table: a binary operation's result holds the computed
/// value, is a variable exactly when an operand is one, takes the left
/// operand's name when the left is a variable and otherwise the right's, and
/// is a constant when both operands are constants.
pub proof fn lemma_tag_propagation<'a, T>(left: Variable<'a, T>, right: Variable<'a, T>, value: T)
    ensures
        left.combined(right, value).spec_value() == value,
        left.combined(right, value).is_var() == (left.is_var() || right.is_var()),
        left.is_var() ==> left.combined(right, value).spec_name() == left.spec_name(),
        !left.is_var() && right.is_var() ==> left.combined(right, value).spec_name()
            == right.spec_name(),
        !left.is_var() && !right.is_var() ==> !left.combined(right, value).is_var(),
{
}

/// A mixed operation with a raw operand keeps the tagged operand's variant
/// and name, and holds the computed value.
pub proof fn lemma_mixed_preserves_tag<'a, T>(x: Variable<'a, T>, value: T)
    ensures
        x.with_value(value).is_var() == x.is_var(),
        x.with_value(value).spec_name() == x.spec_name(),
        x.with_value(value).spec_value() == value,
{
}

/// Operating two variables keeps only the left operand's name; the right
/// name is discarded even when the two differ. This asymmetry is deliberate.
pub proof fn lemma_right_name_discarded<'a, T>(left: Variable<'a, T>, right: Variable<'a, T>, value: T)
    requires
        left.is_var(),
        right.is_var(),
    ensures
        left.combined(right, value).is_var(),
        left.combined(right, value).spec_name() == left.spec_name(),
{
}

} // verus!
