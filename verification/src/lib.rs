//! A safety layer between a host program and a native tensor-execution engine
//! that is reached only through a C calling convention.
//!
//! The verified core models the boundary contract: the closed sets of status
//! and type codes of the native interface, the structured error taxonomy every
//! native outcome is translated into, validated tensor views built from the
//! plain values read back across the boundary, and the allocation state
//! machine of an interpreter.  The raw calls themselves, and the owning
//! wrappers that hold the native handles, live outside the verified core and
//! hand plain values in and out.

pub mod delegate;
pub mod error;
pub mod interpreter;
pub mod minimal_bindings;
pub mod model;
pub mod tensor;

pub use error::{Error, ErrorKind};
