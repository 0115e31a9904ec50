//! Marshalling and extension-descriptor-construction engine for exposing
//! native code to a dynamically-typed host script runtime.
//!
//! The crate covers: bidirectional conversion between the host's tagged
//! value representation and statically-typed native values; binding of a
//! call's positional values against a function's argument descriptors;
//! construction of the fixed-layout descriptor tables (module, class,
//! function, constant) that the host loader consumes; a request-scoped
//! allocation model; and the registration sequencer that orders module
//! lifecycle declarations.

pub mod errors;
pub mod value;
pub mod convert;
pub mod args;
pub mod function;
pub mod class;
pub mod module;
pub mod registry;
pub mod constant;
pub mod allocator;
