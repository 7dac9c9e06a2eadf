//! A persistence layer for records keyed by a unique identifier.
//!
//! - [`sql`], [`params`] and [`model`] generate, from the field list of a
//!   record type, its table definition, its parameterized statements and the
//!   parameters that bind a record to them.
//! - [`store`] is the mathematical model of a repository; [`ports`] is the
//!   capability that every backend offers, with the laws that follow from it.
//! - [`memory`] and [`in_memory`] are the backends that live in memory.
//! - [`rds_client`], [`rds`], [`json`] and [`decode`] are the remote backend:
//!   the requests that go to the statement-execution service and the reading
//!   of what comes back.
//! - [`models`], [`domain`], [`apigateway`], [`card`], [`settings`] and
//!   [`deploy`] are the bank that is built on the repositories.
//!
//! The library neither sends a request nor takes a lock: its callers do, and
//! hand it what came back.

pub mod apigateway;
pub mod card;
pub mod decode;
pub mod deploy;
pub mod domain;
pub mod error;
pub mod ident;
pub mod in_memory;
pub mod json;
pub mod memory;
pub mod model;
pub mod models;
pub mod params;
pub mod ports;
pub mod rds;
pub mod rds_client;
pub mod settings;
pub mod sql;
pub mod store;
pub mod text;

pub use crate::model::QuerySet;
use std::hash::Hash;
use vstd::prelude::*;

verus! {

/// What a key of a keyed store must offer.
pub trait Key: Default + Eq + Hash + Send + Sync + Clone {

}

impl<T> Key for T where T: Default + Eq + Hash + Send + Sync + Clone {

}

/// What a stored value must offer.
pub trait Val: Default + Send + Sync + Clone {

}

impl<T> Val for T where T: Default + Send + Sync + Clone {

}

/// Defines the primary key of a type. `K` is the type of the key.
pub trait PrimaryKey<K> {
    /// The key under which the value is stored.
    spec fn pk(&self) -> K;

    fn get_pk(&self) -> (key: K)
        ensures
            key == self.pk(),
    ;
}

} // verus!
