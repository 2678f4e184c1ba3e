//! Weather-conditioned audio sample selection.
//!
//! A declarative configuration document maps (music set, hour label) slots to
//! either one uniform sample file or a per-weather-condition variant set.
//! This crate parses such documents into an immutable [`catalog::Collection`]
//! and resolves a concrete file name from a classified weather reading.

pub mod catalog;
pub mod json;
pub mod laws;
pub mod load;
pub mod weather;
