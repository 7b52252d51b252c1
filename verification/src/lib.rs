//! Coordination core of a replicated, peer-to-peer ledger.
//!
//! Every participating process ("site") holds a full local copy of the
//! accounts database. Mutating operations are serialized by a distributed,
//! timestamp-ordered mutual-exclusion protocol, propagated to every site by an
//! echo wave, and applied idempotently under a `(lamport, origin_site)` key.
//! A Chandy-Lamport style snapshot captures a causally consistent global
//! state.
//!
//! Sites are identified by their rank in the globally known, totally ordered
//! roster of peers. Front ends map between ranks and human-readable site
//! names or network endpoints.

pub mod clock;
pub mod control;
pub mod message;
pub mod mutex;
pub mod site;
pub mod snapshot;
pub mod store;
pub mod wave;
