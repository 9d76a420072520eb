//! A small nutrition/pantry/dish backend core: stateless token-based
//! authentication and a concurrency-safe collection store.
//!
//! The two security-sensitive pieces are verified here: the token service
//! ([`auth`]), which mints and checks signed, time-bound bearer tokens, and
//! the store discipline ([`guard`] over [`store`]), which serializes every
//! read and write of the shared collection store behind one exclusive gate.
//! The HTTP plumbing and the physical storage engine live outside this
//! library and talk to it in plain values.

use vstd::prelude::*;

pub mod auth;
pub mod dishes;
pub mod guard;
pub mod ingredients;
pub mod pantry;
pub mod store;
pub mod users;

verus! {

/// What the liveness endpoint reports: a timestamp and the service version.
#[derive(Debug, Clone, PartialEq, Eq)]
pub struct ServerInfo {
    /// The instant the report was made, as text.
    pub ts: String,
    /// Version of the service.
    pub version: String,
}

} // verus!
