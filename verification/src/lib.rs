//! A small content-hosting core: entries (files, links, text snippets) stored
//! under short identifiers, with ownership-checked deletion, password hashing,
//! and HTTP Basic credential checking. The store handle lives in memory and
//! models the atomic operations of a durable key-value store; keeping its
//! contents on disk belongs to the program around the library.

use vstd::prelude::*;

pub mod auth;
pub mod config;
pub mod db;
pub mod handlers;
pub mod models;
pub mod queries;
pub mod reject;
pub mod routes;
pub mod setup;
pub mod store;
pub mod util;

verus! {

/// Date and time range
pub type DateTimeRange = (Option<i32>, Option<i32>);

/// Date and time range specifying ranges for creation and update
pub struct SelectRange {
    /// Creation time range
    pub created: DateTimeRange,
    /// Update time range
    pub updated: DateTimeRange,
}

} // verus!
