//! The relational records behind the three entry kinds, as persisted by a
//! table-per-kind backend: each row keyed by an `i32` whose base 36 writing
//! is the entry's URL segment.

use vstd::prelude::*;

verus! {

/// An entry from the `files` table.
pub struct File {
    /// Primary key, its radix 36 value is used as an url
    pub id: i32,
    /// Path to the file to serve relative to the static files root
    pub filepath: String,
    /// Creation date and time as a UNIX timestamp
    pub created: i32,
}

/// A new entry to the `files` table.
pub struct NewFile<'a> {
    /// Primary key, its radix 36 value is used as an url
    pub id: i32,
    /// Path to the file to serve relative to the static files root
    pub filepath: &'a str,
}

/// An entry from the `links` table.
pub struct Link {
    /// Primary key, its radix 36 value is used as an url
    pub id: i32,
    /// URL this link forwards to
    pub forward: String,
    /// Creation date and time as a UNIX timestamp
    pub created: i32,
}

/// A new entry to the `links` table.
pub struct NewLink<'a> {
    /// Primary key, its radix 36 value is used as an url
    pub id: i32,
    /// URL this link forwards to
    pub forward: &'a str,
}

/// An entry from the `texts` table.
pub struct Text {
    /// Primary key, its radix 36 value is used as an url
    pub id: i32,
    /// Text contents
    pub contents: String,
    /// Creation date and time as a UNIX timestamp
    pub created: i32,
}

/// A new entry to the `texts` table.
pub struct NewText<'a> {
    /// Primary key, its radix 36 value is used as an url
    pub id: i32,
    /// Text contents
    pub contents: &'a str,
}

} // verus!
