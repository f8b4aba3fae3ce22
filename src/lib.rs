//! Lifecycle coordination for a single, exclusively owned compute resource
//! that is loaded into and released from an external engine on demand.

pub mod catalog;
pub mod lifecycle;
pub mod laws;
pub mod params;
pub mod api;
