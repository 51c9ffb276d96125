use vstd::prelude::*;

use crate::node::Const;
use crate::node::Var;
use crate::node::Variable;
use crate::node::same_scalar;
use crate::node::text_eq;
use crate::traits::Numeric;
use crate::traits::One;
use crate::traits::Operation;
use crate::traits::Zero;

verus! {

/// A constant's derivative is zero with respect to anything.
impl<V, T: Zero> Operation<V, T> for Const<T> {
    open spec fn spec_backward(&self, variable: &V) -> T {
        T::spec_zero()
    }

    fn backward(&self, variable: &V) -> (r: T) {
        T::zero()
    }
}

/// A variable's derivative with respect to an anonymous constant is zero.
impl<'a, C, T: Zero + One + Numeric> Operation<Const<C>, T> for Var<'a, T> {
    open spec fn spec_backward(&self, variable: &Const<C>) -> T {
        T::spec_zero()
    }

    fn backward(&self, variable: &Const<C>) -> (r: T) {
        T::zero()
    }
}

/// A variable's derivative with respect to a variable is one exactly when the
/// two agree on both name and value, else zero.
impl<'a, 'b, T: Zero + One + Numeric> Operation<Var<'b, T>, T> for Var<'a, T> {
    open spec fn spec_backward(&self, variable: &Var<'b, T>) -> T {
        if self.spec_name() == variable.spec_name() && self.spec_value() == variable.spec_value() {
            T::spec_one()
        } else {
            T::spec_zero()
        }
    }

    fn backward(&self, variable: &Var<'b, T>) -> (r: T) {
        if text_eq(self.name(), variable.name()) && self.value().eq_val(variable.value()) {
            T::one()
        } else {
            T::zero()
        }
    }
}

/// The derivative of one tagged scalar with respect to another: zero when
/// either side is a constant, and otherwise one exactly when the two
/// variables agree on both name and value.
impl<'a, 'b, T: Zero + One + Numeric> Operation<Variable<'b, T>, T> for Variable<'a, T> {
    open spec fn spec_backward(&self, variable: &Variable<'b, T>) -> T {
        match *self {
            Variable::Const(_) => T::spec_zero(),
            Variable::Var(name, value) => match *variable {
                Variable::Const(_) => T::spec_zero(),
                Variable::Var(target_name, target_value) => {
                    if name@ == target_name@ && value == target_value {
                        T::spec_one()
                    } else {
                        T::spec_zero()
                    }
                },
            },
        }
    }

    fn backward(&self, variable: &Variable<'b, T>) -> (r: T) {
        match self {
            Variable::Const(_) => T::zero(),
            Variable::Var(name, value) => match variable {
                Variable::Const(_) => T::zero(),
                Variable::Var(target_name, target_value) => {
                    if text_eq(name, target_name) && value.eq_val(target_value) {
                        T::one()
                    } else {
                        T::zero()
                    }
                },
            },
        }
    }
}

/// A constant tagged scalar has derivative zero with respect to any target.
pub proof fn lemma_constant_derivative_is_zero<'a, 'b, T: Zero + One + Numeric>(
    c: Variable<'a, T>,
    target: Variable<'b, T>,
)
    requires
        !c.is_var(),
    ensures
        c.spec_backward(&target) == T::spec_zero(),
{
}

/// A variable tagged scalar has derivative one with respect to a target that
/// equals it by full structural equality, and zero with respect to any other.
pub proof fn lemma_variable_derivative<'a, 'b, T: Zero + One + Numeric>(
    v: Variable<'a, T>,
    target: Variable<'b, T>,
)
    requires
        v.is_var(),
    ensures
        v.spec_backward(&target) == if same_scalar(v, target) {
            T::spec_one()
        } else {
            T::spec_zero()
        },
{
}

} // verus!
