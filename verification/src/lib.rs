//! Building blocks of an interactive wizard that collects the description of a
//! containerised environment and writes it down as an INI-style manifest.
//!
//! The crate holds the rules of the wizard: the closed vocabulary of feature
//! flags, the length rule for typed answers, the manifest record and its text
//! form, and the finite-state flow that a front end drives by performing one
//! action after another. Asking questions on a terminal and writing files is
//! left to the program that uses the crate.

pub mod dispatch;
pub mod flag;
pub mod manifest;
pub mod report;
pub mod selection;
pub mod text;
pub mod validate;
pub mod wizard;
