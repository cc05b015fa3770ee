//! Audits zip archives against their extracted directories: size accounting,
//! byte-exact verification of an extraction, and deletion gated on that
//! verification.

pub mod text;
pub mod naming;
pub mod archive;
pub mod engine;
pub mod inspect;
pub mod laws;
