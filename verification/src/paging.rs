//! Pages.
//!
//! A page is a window on a sequence of results: the first `skip` are passed
//! over and up to `max` of the rest are taken.

use vstd::prelude::*;

verus! {

/// The page of `all` that follows the first `skip` items and holds up to
/// `max` of them.
pub open spec fn page_of<T>(all: Seq<T>, skip: int, max: int) -> Seq<T> {
    if all.len() <= skip {
        Seq::empty()
    } else if all.len() - skip <= max {
        all.skip(skip)
    } else {
        all.subrange(skip, skip + max)
    }
}

/// A page is never longer than was asked for; a page that has room is full
/// exactly when enough items follow the first `skip`; and it holds those items
/// in their order.
pub proof fn lemma_page_len<T>(all: Seq<T>, skip: int, max: int)
    requires
        0 <= skip,
        0 <= max,
    ensures
        page_of(all, skip, max).len() <= max,
        max > 0 ==> (page_of(all, skip, max).len() == max <==> all.len() >= skip + max),
        forall|i: int|
            0 <= i < page_of(all, skip, max).len() ==> #[trigger] page_of(all, skip, max)[i]
                == all[skip + i],
{
}

/// Cuts the page out of `items`.
pub fn take_page<T>(items: Vec<T>, skip: u32, max: u32) -> (page: Vec<T>)
    ensures
        page@ == page_of(items@, skip as int, max as int),
{
    let ghost all = items@;
    let mut items = items;
    let skip = skip as usize;
    let max = max as usize;
    if items.len() <= skip {
        let page: Vec<T> = Vec::new();
        assert(page@ =~= Seq::<T>::empty());
        return page;
    }
    let mut page = items.split_off(skip);
    assert(page@ =~= all.skip(skip as int));
    page.truncate(max);
    assert(page@ =~= page_of(all, skip as int, max as int));
    page
}

} // verus!
