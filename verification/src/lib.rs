//! A small, statically verified core for running pre-planned tensor
//! computations on a caller-supplied, fixed-size memory arena.
//!
//! The crate binds three independently built pieces into one long-lived
//! execution object:
//!
//! - [`Model`]: a zero-copy, validated view over a serialized model blob,
//! - [`MutableOpResolver`]: a capacity-bounded, append-only registry of
//!   enabled operators,
//! - a caller-owned byte arena, the sole memory for every tensor.
//!
//! [`MicroInterpreter::new`] performs a one-time, fallible allocation
//! planning phase; afterwards every tensor sits at a fixed arena offset and
//! no allocation happens during `input` / `invoke` / `output` cycles.

use vstd::prelude::*;

mod micro_interpreter;
mod micro_op_resolver;
mod model;
mod opcodes;
mod operators;
mod tensor;

pub use micro_interpreter::MicroInterpreter;
pub use micro_op_resolver::MutableOpResolver;
pub use model::Model;
pub use model::OpRecord;
pub use model::TensorRecord;
pub use micro_op_resolver::OpCode;
pub use micro_op_resolver::TFLITE_REGISTRATIONS_MAX;
pub use tensor::encode_all;
pub use tensor::ElemTypeOf;
pub use tensor::ElementType;
pub use tensor::Tensor;
pub use tensor::TensorInfo;

verus! {

/// Everything that can go wrong while building or feeding an interpreter.
#[derive(Clone, Copy, Debug, PartialEq, Eq, Structural)]
pub enum Error {
    /// The model blob failed structural validation.
    ModelSchemaError,
    /// The interpreter could not be initialized from the model.
    InterpreterInitError,
    /// The allocation-planning phase failed: an operator could not be
    /// resolved against the registry, or the arena is too small.
    AllocateTensorsError,
    /// The data handed to `input` does not have one element per declared
    /// tensor element.
    InputDataLenMismatch,
    /// A tensor's element type tag has no local representation.
    ElementTypeUnimplemented,
}

/// Status of a model invocation.
#[derive(Clone, Copy, Debug, PartialEq, Eq, Structural)]
pub enum Status {
    Success,
    /// An operator failed while executing.
    Error,
    DelegateError,
}

} // verus!
