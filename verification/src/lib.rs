//! Resolution of a motion-control device's operating limits from three
//! partially overlapping sources: a local base document, a remote device's
//! live settings, and user-supplied `key:value` point overrides, applied in
//! that order with strictly increasing precedence.
//!
//! Every limit is a fixed-point count of micro-units, and an override
//! value is a plain nonnegative decimal literal — narrower than a general
//! floating-point literal, since these values bound hardware motion.

pub mod alias;
pub mod laws;
pub mod model;
pub mod loader;
pub mod local;
pub mod numbers;
pub mod overrides;
pub mod remote;
pub mod text;
