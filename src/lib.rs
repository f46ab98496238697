//! Lowering of the `Slice` operator of an imported computation graph into
//! generated Rust code, with the value descriptors and the liveness scope
//! that the lowering relies on.
mod types;

pub use types::{ScalarKind, ScalarType, ShapeType, TensorKind, TensorType, Type, TypeView};
mod scope;

pub use scope::{AccessMode, Scope};
mod literal;

pub use literal::{digit, digits, int_text};
mod code;

pub use code::{AxisRange, Bound, BoundRead, BoundView, Fragment, FragmentView, RangeView, Side, ValueUse};
mod slice;

pub use slice::{SliceError, SliceNode, SliceParam};
pub mod laws;
