//! Error taxonomy for the binding core.
//!
//! Conversion and binding errors are recoverable and surface as host-visible
//! exceptions at the call boundary; build errors are programmer errors that
//! abort module construction.

use vstd::prelude::*;

verus! {

/// Raised by the conversion engine when a host value cannot be read as the
/// requested native type.
#[derive(Debug, Clone, Copy, PartialEq, Eq, Structural)]
pub enum ConversionError {
    /// The value's tag (or an object's class identity) does not match the
    /// requested type and no coercion applies.
    TypeMismatch,
    /// The value is numeric but does not fit the requested integer width.
    OutOfRange,
    /// A null value was supplied where the requested type is not nullable.
    NullNotAllowed,
}

/// Raised by the argument binder; once one of these fires the native handler
/// is never invoked.
#[derive(Debug, Clone, PartialEq, Eq)]
pub enum BindError {
    /// The call's positional count is outside the declared `[min, max]` range.
    Arity { got: usize, min: usize, max: usize },
    /// A slot failed conversion against its argument descriptor.
    Argument { name: Vec<u8>, reason: ConversionError },
}

/// Raised during module construction. These are programmer errors and fail
/// the build step outright.
#[derive(Debug, Clone, PartialEq, Eq)]
pub enum BindingError {
    /// A declared name cannot be handed to the host: it contains an embedded
    /// terminator byte, or it collides with a name already declared in the
    /// same scope.
    InvalidName,
    /// A single-use build step was invoked a second time, or state already
    /// consumed by a build was touched again.
    AlreadyBuilt,
    /// A declaration arrived out of the mandated registration order.
    OrderingViolation(String),
}

} // verus!
