//! Reader for a fixed-layout telemetry record published into shared memory
//! by an external racing simulator.
//!
//! The library decodes an untyped little-endian byte buffer into a typed
//! snapshot, validates the producer's schema version before trusting any
//! other field, and detects reads torn by the concurrently writing producer
//! via the record's sequence counter.  Floating-point fields are carried as
//! their raw IEEE-754 bit patterns (`u32`); the unverified shell around the
//! library converts them to `f32` for display.

pub mod codec;
pub mod reader;
pub mod record;
pub mod states;
pub mod text;
