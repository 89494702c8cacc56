//! Verified core of C bindings for the taffy layout engine.
pub mod codes;
pub mod laws;
pub mod lists;
pub mod paths;
pub mod style;
pub mod style_laws;
pub mod taffy_api;
pub mod tree;
