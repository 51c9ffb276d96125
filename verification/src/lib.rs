//! Tagged numeric scalars: a value is either an anonymous constant or a
//! named variable, arithmetic propagates the variable tag, and a local rule
//! answers first-order derivatives from the two scalars alone.

mod diff;
mod node;
mod traits;

pub use node::Const;
pub use node::Operator;
pub use node::Var;
pub use node::Variable;
pub use node::same_scalar;
pub use node::text_eq;
pub use traits::Numeric;
pub use traits::One;
pub use traits::Operation;
pub use traits::Zero;
