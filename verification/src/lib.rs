//! Engine for inspecting clinical documentation configuration files.
//!
//! The crate models a configuration document holding property catalogues,
//! data catalogues, forms and subforms, resolves the name-based requirement
//! relations between them, derives a dependency-aware emission order,
//! validates the document against a catalogue of known consistency rules and
//! compares two documents for drift.

pub mod checks;
pub mod diff;
pub mod digest;
pub mod file_io;
pub mod fingerprint;
pub mod model;
pub mod profile;
pub mod sorting;
pub mod text;
