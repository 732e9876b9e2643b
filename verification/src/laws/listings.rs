//! Pages of a list.

use crate::list::page;
use vstd::prelude::*;

verus! {

/// A page is no longer than was asked for, and holds what the list holds from its start on.
pub proof fn pages_are_parts_of_the_list<T>(all: Seq<T>, start: u32, limit: u32)
    ensures
        page(all, start, limit).len() <= limit,
        forall|i: int|
            0 <= i < page(all, start, limit).len() ==> start + i < all.len() && #[trigger] page(
                all,
                start,
                limit,
            )[i] == all[start + i],
        page(all, start, limit).len() < limit ==> start + page(all, start, limit).len()
            >= all.len(),
{
}

/// Two pages in a row are one longer page: walking through the pages of a list misses nothing and
/// repeats nothing.
pub proof fn pages_join<T>(all: Seq<T>, start: u32, first: u32, second: u32)
    requires
        start + first <= u32::MAX,
        first + second <= u32::MAX,
    ensures
        page(all, start, first) + page(all, (start + first) as u32, second) == page(
            all,
            start,
            (first + second) as u32,
        ),
{
    assert(page(all, start, first) + page(all, (start + first) as u32, second) =~= page(
        all,
        start,
        (first + second) as u32,
    ));
}

/// A page that begins at the start and is long enough is the whole list.
pub proof fn one_page_can_hold_all<T>(all: Seq<T>, limit: u32)
    requires
        all.len() <= limit,
    ensures
        page(all, 0, limit) == all,
{
    assert(page(all, 0, limit) =~= all);
}

} // verus!
