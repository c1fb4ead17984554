//! A sensor dashboard core for server management controllers.
//!
//! The crate holds the decisions of a dashboard that polls power and thermal
//! sensors over a Redfish-style HTTPS API: which requests to send, how a
//! response body becomes a reading, how one poll cycle becomes a snapshot, what
//! each panel shows, and when the render loop ends. Network, terminal and
//! scheduling are left to the caller, which hands in plain values.

pub mod dashboard;
pub mod json;
pub mod poll;
pub mod reading;
pub mod render_loop;
pub mod request;
pub mod session;
pub mod snapshot;
pub mod text;
