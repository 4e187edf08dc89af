//! Link availability and Subresource Integrity monitoring: digest parsing and
//! verification, per-resource check outcomes, and webhook notification payloads.

pub mod checker;
pub mod config;
pub mod cycle;
pub mod json;
pub mod notify;
pub mod sri;
pub mod surface;
pub mod text;
