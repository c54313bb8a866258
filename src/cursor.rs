use vstd::prelude::*;

verus! {

/// The page (counted from 1) on which the entity at zero-based `offset` lies,
/// when every page holds `page_size` entities.
pub open spec fn page_of(offset: nat, page_size: nat) -> nat
    recommends
        page_size > 0,
{
    1 + offset / page_size
}

/// The page the crawl must fetch next: the probe page 1 while the page size is
/// unknown (zero), else the page that holds the first entity not yet queued.
pub open spec fn spec_next_page(next_offset: nat, queued: nat, page_size: nat) -> nat {
    if page_size == 0 {
        1
    } else {
        page_of(next_offset + queued, page_size)
    }
}

/// Which page must be fetched next, given how many entities were emitted,
/// how many are still queued and the page size (zero while unknown).
pub fn next_page_to_fetch(next_offset: usize, queued: usize, page_size: usize) -> (r: usize)
    requires
        next_offset + queued < usize::MAX,
    ensures
        r == spec_next_page(next_offset as nat, queued as nat, page_size as nat),
        r >= 1,
{
    if page_size == 0 {
        1
    } else {
        let target: usize = next_offset + queued;
        1 + target / page_size
    }
}

/// Whether `current_page` is the page that holds the entity at `next_offset`
/// (with nothing queued), under the page size `page_size` (zero while unknown).
pub fn page_matches_target(next_offset: usize, current_page: usize, page_size: usize) -> (r: bool)
    ensures
        r == (spec_next_page(next_offset as nat, 0, page_size as nat) == current_page),
{
    if page_size == 0 {
        current_page == 1
    } else if current_page == 0 {
        false
    } else {
        next_offset / page_size == current_page - 1
    }
}

} // verus!
