//! Small shared helpers: string building and comparison, and the
//! `DefaultExt` convenience for default-valued configuration pieces.

use crate::config::{DatabaseMode, PasswordConfig, RuntimeConfig};
use vstd::prelude::*;

verus! {

/// Relies on `String::push`: appends exactly the one character.
#[verifier::external_body]
pub(crate) fn push_char(s: &mut String, c: char)
    ensures
        final(s)@ == old(s)@ + seq![c],
{
    s.push(c);
}

/// Character-for-character equality of two string slices.
pub fn str_eq(a: &str, b: &str) -> (r: bool)
    ensures
        r == (a@ == b@),
{
    let sa = a.to_owned();
    let sb = b.to_owned();
    sa == sb
}

/// Asks a value whether it still equals its type's default.
pub trait DefaultExt {
    fn is_default(&self) -> bool;
}

impl DefaultExt for RuntimeConfig {
    /// Whether no thread count has been set.
    fn is_default(&self) -> (r: bool)
        ensures
            r == (*self == (RuntimeConfig { core_threads: None, max_threads: None })),
    {
        self.core_threads.is_none() && self.max_threads.is_none()
    }
}

impl DefaultExt for PasswordConfig {
    /// Whether every hash parameter is left to its algorithm default.
    fn is_default(&self) -> (r: bool)
        ensures
            r == (*self == PasswordConfig::spec_default()),
    {
        self.hash_length.is_none() && self.salt_length.is_none() && self.lanes.is_none()
            && self.memory_cost.is_none() && self.time_cost.is_none() && self.secret.is_none()
    }
}

impl DefaultExt for DatabaseMode {
    /// Whether the mode is the space-saving default.
    fn is_default(&self) -> (r: bool)
        ensures
            r == (*self == DatabaseMode::Space),
    {
        match self {
            DatabaseMode::Space => true,
            DatabaseMode::Throughput => false,
        }
    }
}

} // verus!
