//! Ingress bounds of the client interface.

use vstd::prelude::*;

verus! {

/// Ceiling of a thread page.
pub const MAX_THREAD_PAGE: u32 = 200;

/// The page size for the one that a client asks for.
pub open spec fn page_for(limit: u32) -> u32 {
    if limit <= MAX_THREAD_PAGE {
        limit
    } else {
        MAX_THREAD_PAGE
    }
}

/// Clamps the page size that a client asks for to the ceiling.
pub fn clamp_thread_page(limit: u32) -> (page: u32)
    ensures
        page == page_for(limit),
{
    if limit <= MAX_THREAD_PAGE {
        limit
    } else {
        MAX_THREAD_PAGE
    }
}

/// A page is as large as asked for, up to the ceiling, and asking for a page of that
/// size gives it again.
pub proof fn pages_are_as_asked(limit: u32)
    ensures
        page_for(limit) <= limit,
        page_for(limit) <= MAX_THREAD_PAGE,
        page_for(limit) == limit || page_for(limit) == MAX_THREAD_PAGE,
        page_for(page_for(limit)) == page_for(limit),
{
}

} // verus!
