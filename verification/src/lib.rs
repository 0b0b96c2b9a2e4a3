//! Minimal process runtime for a freestanding userland: startup capture of
//! argument/environment vectors, lazy views over them, a termination protocol
//! mapping entry-point outcomes to exit codes, an abnormal-termination record,
//! and a batched variable-length system-information query protocol.
//!
//! The kernel itself (the introspection call, the exception-raise primitive,
//! raw pointer walks over the loader-supplied vectors) is reached only from
//! the unverified binary shell around this crate; everything here works on
//! plain decoded values and is verified.

pub mod arch;
pub mod errors;
pub mod fault;
pub mod help;
pub mod query;
pub mod start;
pub mod term;
pub mod text;
pub mod uname;
