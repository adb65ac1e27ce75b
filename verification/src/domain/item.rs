use vstd::prelude::*;

use crate::domain::id::{is_time_ordered_id, lemma_time_ordered_below_max, max_id, uuid_max};

verus! {

/// The number of items a page holds when the request names no limit.
pub const DEFAULT_LIMIT: i64 = 20;

/// The smallest page size.
pub const MIN_LIMIT: i64 = 1;

/// The largest page size.
pub const MAX_LIMIT: i64 = 50;

/// The identifier of one item, as it appears in a request path.
#[derive(Debug, Clone, PartialEq, Eq)]
pub struct ItemId {
    pub item_id: u128,
}

/// A page request: the items whose identifiers lie strictly below `before`,
/// newest first, at most `limit` of them.
#[derive(Debug, Clone, PartialEq, Eq)]
pub struct ItemRange {
    pub before: Option<u128>,
    pub limit: Option<i64>,
}

/// `limit` brought into `MIN_LIMIT..=MAX_LIMIT`.
pub open spec fn clamp_limit(limit: i64) -> i64 {
    if limit < MIN_LIMIT {
        MIN_LIMIT
    } else if limit > MAX_LIMIT {
        MAX_LIMIT
    } else {
        limit
    }
}

impl ItemRange {
    /// The upper bound a page request stands for: the given one, or the
    /// largest identifier.
    pub open spec fn spec_before(self) -> u128 {
        match self.before {
            Some(b) => b,
            None => max_id(),
        }
    }

    /// The page size a page request stands for: the given one (or the
    /// default) brought into the allowed range.
    pub open spec fn spec_limit(self) -> i64 {
        match self.limit {
            Some(l) => clamp_limit(l),
            None => DEFAULT_LIMIT,
        }
    }

    /// The bound and the page size of this request.
    pub fn extract(&self) -> (r: (u128, i64))
        ensures
            r.0 == self.spec_before(),
            r.1 == self.spec_limit(),
            MIN_LIMIT <= r.1 <= MAX_LIMIT,
    {
        let before = match self.before {
            Some(b) => b,
            None => uuid_max(),
        };
        let requested = match self.limit {
            Some(l) => l,
            None => DEFAULT_LIMIT,
        };
        let limit = if requested < MIN_LIMIT {
            MIN_LIMIT
        } else if requested > MAX_LIMIT {
            MAX_LIMIT
        } else {
            requested
        };
        (before, limit)
    }
}

/// A stored item. Timestamps are nanoseconds since the Unix epoch.
#[derive(Debug, Clone, PartialEq, Eq)]
pub struct Item {
    pub id: u128,
    pub title: String,
    pub url: String,
    pub thumbnail: String,
    pub created_at: i64,
    pub updated_at: i64,
}

/// What a client sends to create or change an item.
#[derive(Debug, Clone, PartialEq, Eq)]
pub struct ItemParams {
    pub title: String,
    pub url: String,
    pub thumbnail: String,
}

/// A page request without a bound reaches every item whose identifier was
/// made fresh: time-ordered identifiers lie below the default bound.
pub proof fn lemma_default_bound_covers_new_ids(range: ItemRange, id: u128)
    requires
        range.before is None,
        is_time_ordered_id(id),
    ensures
        id < range.spec_before(),
{
    lemma_time_ordered_below_max(id);
}

} // verus!
