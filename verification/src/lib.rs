//! Mediation layer of a desktop screen-capture portal.
//!
//! The library holds the verified core of the service: the session and
//! request lifecycle state machines, source-selection validation and
//! matching, the per-source negotiation of `Start` with its rollback,
//! and the per-stream capture-loop pipeline that stamps frames with
//! strictly increasing sequence numbers.  The inter-process transport,
//! the compositor protocol and the streaming transport stay outside:
//! the unverified rim drives them and exchanges plain values with the
//! functions here.

pub mod capture;
pub mod registry;
pub mod request;
pub mod response;
pub mod screencast;
pub mod session;
pub mod sources;
