//! Verified core of a URL-shortening service.
//!
//! The library covers the parts with real logic: the random identifier
//! generator, an in-memory model of the persistence gateway with its
//! uniqueness invariant, the shortening service with its bounded
//! collision-retry policy, the resolution service, and the timestamp
//! display formatting.  The HTTP layer and the relational datastore are
//! collaborators; the hosting program wires them to these functions.

pub mod idgen;
pub mod model;
pub mod service;
pub mod store;
pub mod timefmt;
