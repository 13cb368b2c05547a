//! A call-chain tracer: six named operations that delegate to one another
//! along a fixed call graph, each recording its own label once per
//! invocation, either after or before it delegates.
//!
//! The operations write to a [`transcript::Transcript`] instead of a stream,
//! so that what they emit is a value that contracts can speak of.

pub mod operation;
pub mod transcript;
pub mod tracer;
pub mod laws;
