//! Boundary layer between a managed host runtime and the Oniguruma regular
//! expression engine.
//!
//! Compiled patterns and interned text buffers are owned here and handed to
//! the host as opaque integer handles; `0` always means "none". The host
//! compiles patterns, stages text, runs matches that report capture-group
//! byte spans as a flat offset array, and releases each handle exactly once.
//! Every fallible step reports through one local error type, so the outermost
//! caller can translate failures into host exceptions instead of letting any
//! fault unwind across the boundary.

pub mod bridge;
pub mod engine;
pub mod errors;
pub mod store;
