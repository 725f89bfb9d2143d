//! Tracing instrumentation for recursive-descent parsers.
//!
//! A parser value is wrapped, together with a display name, into a tracer.
//! Each invocation of the wrapped parser records an enter event and a
//! matching exit event (carrying the classified severity of the outcome)
//! in an explicitly threaded trace context, while passing the parser's
//! result through unchanged.

pub mod context;
pub mod digits;
pub mod error;
pub mod event;
pub mod laws;
pub mod parser;
pub mod render;
pub mod severity;
pub mod stream;
pub mod toggle;
pub mod tracer;
