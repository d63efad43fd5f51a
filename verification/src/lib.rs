//! A minimal paste-storage service: clients upload a text blob and receive a
//! generated identifier; a later fetch with that identifier returns the blob
//! verbatim. The store maps identifiers to paste bodies; identifiers are
//! random 128-bit values rendered in their canonical text form.

pub mod config;
pub mod ids;
pub mod laws;
pub mod service;
pub mod startup;
pub mod store;
