//! Query-string shapes for listing entries, and the filters derived from
//! them. Running the listing itself against a relational backend is
//! storage plumbing outside this library.

use vstd::prelude::*;

verus! {

/// Query string for SELECT queries.
pub struct SelectQuery {
    /// Left creation bounder timestamp
    pub from: Option<i32>,
    /// Right creation bounder timestamp
    pub to: Option<i32>,
    /// Query size limit
    pub limit: Option<i64>,
    /// Whether to sort the results in ascending order
    pub asc: Option<bool>,
}

/// Filters for SELECT queries.
pub struct SelectFilters {
    /// Creation and update date and time ranges
    pub range: (Option<i32>, Option<i32>),
    /// Query size limit
    pub limit: Option<i64>,
    /// Whether to sort the results in ascending order
    pub asc: bool,
}

impl vstd::std_specs::convert::FromSpecImpl<SelectQuery> for SelectFilters {
    open spec fn obeys_from_spec() -> bool {
        true
    }

    open spec fn from_spec(query: SelectQuery) -> SelectFilters {
        SelectFilters {
            range: (query.from, query.to),
            limit: query.limit,
            asc: match query.asc {
                Some(b) => b,
                None => false,
            },
        }
    }
}

impl From<SelectQuery> for SelectFilters {
    /// Carries the bounds and limit over; an unset order means descending.
    fn from(query: SelectQuery) -> (r: SelectFilters) {
        SelectFilters {
            range: (query.from, query.to),
            limit: query.limit,
            asc: match query.asc {
                Some(b) => b,
                None => false,
            },
        }
    }
}

} // verus!
