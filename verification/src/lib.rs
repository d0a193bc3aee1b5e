//! A single-pass semantic analyzer that flags one class of unintended
//! implicit conversion: a reference expression whose post-conversion type is
//! "reference to the universal any-capability object", but whose declared
//! type is some other reference that itself unwraps, through a chain of
//! indirection-removal steps, to that very capability-object type. In that
//! situation the programmer most likely meant to dereference through the
//! indirection rather than to convert the outer reference.
//!
//! The analyzer is a pure function of one typed expression at a time:
//! it keeps no state across invocations and never mutates the type model.

pub mod chain;
pub mod classifier;
pub mod detector;
pub mod render;
pub mod suggestion;
pub mod types;
