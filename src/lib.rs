//! Authentication and session core of a small note-taking web service.
//!
//! The library holds the one-time login correlation store, the phases of the
//! OpenID-Connect authorization-code callback, and the session cache with its
//! revalidation rules. Network calls to the identity provider are made by the
//! caller, which hands their outcomes to the phases as plain values.

pub mod correlation;
pub mod flow;
pub mod fragments;
pub mod ids;
pub mod laws;
pub mod model;
pub mod navigation;
pub mod sessions;
