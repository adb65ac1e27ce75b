pub mod item;
pub mod query;
pub mod request;
pub mod response;

use vstd::prelude::*;

use self::response::{AppError, NotFound};

verus! {

/// The reply to a request that matches no route: the not-found error.
pub fn not_found() -> (r: AppError)
    ensures
        r.is_not_found(),
{
    AppError::from_not_found(NotFound)
}

} // verus!
