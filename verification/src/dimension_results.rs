//! Handing found dimensions back in portions.

use crate::manga_loader::{DimResult, PageDimensions, DIM_RESULT_CHUNK_SIZE};
use rayon::slice::ParallelSliceMut;
use vstd::prelude::*;

verus! {

/// The items are in ascending order of their pages.
pub open spec fn in_page_order(items: Seq<(usize, PageDimensions)>) -> bool {
    forall|i: int, j: int|
        0 <= i <= j < items.len() ==> (#[trigger] items[i]).0 <= (#[trigger] items[j]).0
}

/// `rayon`'s `par_sort_unstable_by_key`: the same items in ascending order of their
/// pages.  The order of items for the same page is left open.
#[verifier::external_body]
fn sort_by_page(items: &mut Vec<(usize, PageDimensions)>)
    ensures
        final(items)@.to_multiset() == old(items)@.to_multiset(),
        in_page_order(final(items)@),
{
    items.par_sort_unstable_by_key(|item| item.0)
}

/// The items of the first `count` portions, one after the other.
pub open spec fn joined(portions: Seq<DimResult>, count: int) -> Seq<(usize, PageDimensions)>
    decreases count,
{
    if count <= 0 {
        Seq::empty()
    } else {
        joined(portions, count - 1) + portions[count - 1].items@
    }
}

/// The portions together are `items`, each is as large as it may be, and each says
/// which generation of requests it answers.
pub open spec fn are_portions(
    portions: Seq<DimResult>,
    items: Seq<(usize, PageDimensions)>,
    generation: usize,
) -> bool {
    &&& joined(portions, portions.len() as int) == items
    &&& forall|i: int|
        0 <= i < portions.len() ==> {
            &&& (#[trigger] portions[i]).generation == generation
            &&& 0 < portions[i].items@.len() <= DIM_RESULT_CHUNK_SIZE
            &&& i < portions.len() - 1 ==> portions[i].items@.len() == DIM_RESULT_CHUNK_SIZE
        }
}

proof fn lemma_joined_prefix(a: Seq<DimResult>, b: Seq<DimResult>, count: int)
    requires
        0 <= count <= a.len(),
        count <= b.len(),
        forall|i: int| 0 <= i < count ==> a[i] == b[i],
    ensures
        joined(a, count) == joined(b, count),
    decreases count,
{
    if count > 0 {
        lemma_joined_prefix(a, b, count - 1);
    }
}

/// The found dimensions in the order of the pages, in portions.
pub fn portion_results(generation: usize, found: Vec<(usize, PageDimensions)>) -> (portions: Vec<
    DimResult,
>)
    ensures
        exists|items: Seq<(usize, PageDimensions)>|
            items.to_multiset() == found@.to_multiset() && in_page_order(items)
                && #[trigger] are_portions(portions@, items, generation),
{
    let mut items = found;
    sort_by_page(&mut items);
    let mut portions: Vec<DimResult> = Vec::new();
    let mut start: usize = 0;
    assert(items@.take(0) =~= Seq::<(usize, PageDimensions)>::empty());
    while start < items.len()
        invariant
            start <= items@.len(),
            are_portions(portions@, items@.take(start as int), generation),
            start < items@.len() ==> forall|i: int|
                0 <= i < portions@.len() ==> (#[trigger] portions@[i]).items@.len()
                    == DIM_RESULT_CHUNK_SIZE,
        decreases items@.len() - start,
    {
        let end: usize = if items.len() - start > DIM_RESULT_CHUNK_SIZE {
            start + DIM_RESULT_CHUNK_SIZE
        } else {
            items.len()
        };
        let mut portion: Vec<(usize, PageDimensions)> = Vec::new();
        let mut i: usize = start;
        while i < end
            invariant
                start <= i <= end <= items@.len(),
                portion@ == items@.subrange(start as int, i as int),
            decreases end - i,
        {
            portion.push(items[i]);
            assert(portion@ =~= items@.subrange(start as int, i + 1));
            i = i + 1;
        }
        let ghost previous = portions@;
        portions.push(DimResult { generation, items: portion });
        proof {
            lemma_joined_prefix(previous, portions@, previous.len() as int);
            assert(items@.take(start as int) + items@.subrange(start as int, end as int)
                =~= items@.take(end as int));
        }
        start = end;
    }
    assert(items@.take(items@.len() as int) =~= items@);
    assert(are_portions(portions@, items@, generation));
    portions
}

/// The portions hold what was found, no more and no less, and in the order of the
/// pages, within a portion and from one to the next; each but the last is full.
pub proof fn law_portions_hold_what_was_found(
    generation: usize,
    found: Vec<(usize, PageDimensions)>,
    portions: Vec<DimResult>,
    earlier: int,
    later: int,
    i: int,
    j: int,
)
    requires
        call_ensures(portion_results, (generation, found), portions),
        0 <= earlier <= later < portions@.len(),
        0 <= i < portions@[earlier].items@.len(),
        0 <= j < portions@[later].items@.len(),
        earlier < later || i <= j,
    ensures
        portions@[earlier].items@[i].0 <= portions@[later].items@[j].0,
        found@.to_multiset().contains(portions@[later].items@[j]),
        portions@[later].generation == generation,
        0 < portions@[later].items@.len() <= 64,
        earlier < later ==> portions@[earlier].items@.len() == 64,
{
    let items = choose|items: Seq<(usize, PageDimensions)>|
        items.to_multiset() == found@.to_multiset() && in_page_order(items)
            && #[trigger] are_portions(portions@, items, generation);
    lemma_joined_item(portions@, earlier, i, portions@.len() as int);
    lemma_joined_item(portions@, later, j, portions@.len() as int);
    lemma_joined_grows(portions@, earlier, later);
    let a = joined(portions@, earlier).len() + i;
    let b = joined(portions@, later).len() + j;
    if earlier < later {
        lemma_joined_grows(portions@, earlier + 1, later);
    }
    assert(items[a].0 <= items[b].0);
    items.to_multiset_ensures();
    assert(items.contains(items[b]));
}

/// Every dimension that was found is in some portion.
pub proof fn law_portions_leave_nothing_out(
    generation: usize,
    found: Vec<(usize, PageDimensions)>,
    portions: Vec<DimResult>,
    item: (usize, PageDimensions),
)
    requires
        call_ensures(portion_results, (generation, found), portions),
        found@.contains(item),
    ensures
        exists|k: int|
            0 <= k < portions@.len() && (#[trigger] portions@[k]).items@.contains(item),
{
    let items = choose|items: Seq<(usize, PageDimensions)>|
        items.to_multiset() == found@.to_multiset() && in_page_order(items)
            && #[trigger] are_portions(portions@, items, generation);
    items.to_multiset_ensures();
    found@.to_multiset_ensures();
    assert(found@.to_multiset().contains(item));
    assert(items.contains(item));
    lemma_joined_source(portions@, item, portions@.len() as int);
}

proof fn lemma_joined_source(portions: Seq<DimResult>, item: (usize, PageDimensions), count: int)
    requires
        0 <= count <= portions.len(),
        joined(portions, count).contains(item),
    ensures
        exists|k: int| 0 <= k < count && (#[trigger] portions[k]).items@.contains(item),
    decreases count,
{
    if count > 0 {
        let before = joined(portions, count - 1);
        let last = portions[count - 1].items@;
        let i = choose|i: int| 0 <= i < (before + last).len() && (before + last)[i] == item;
        if i < before.len() {
            assert(before[i] == item);
            lemma_joined_source(portions, item, count - 1);
        } else {
            assert(last[i - before.len()] == item);
            assert(portions[count - 1].items@.contains(item));
        }
    }
}

proof fn lemma_joined_grows(portions: Seq<DimResult>, a: int, b: int)
    requires
        0 <= a <= b <= portions.len(),
    ensures
        joined(portions, a).len() <= joined(portions, b).len(),
        a < b ==> joined(portions, a).len() + portions[a].items@.len() <= joined(portions, b).len(),
    decreases b - a,
{
    if a < b {
        lemma_joined_grows(portions, a, b - 1);
    }
}

proof fn lemma_joined_item(portions: Seq<DimResult>, k: int, i: int, count: int)
    requires
        0 <= k < count <= portions.len(),
        0 <= i < portions[k].items@.len(),
    ensures
        joined(portions, k).len() + i < joined(portions, count).len(),
        joined(portions, count)[joined(portions, k).len() + i] == portions[k].items@[i],
    decreases count,
{
    if k < count - 1 {
        lemma_joined_item(portions, k, i, count - 1);
    }
}

} // verus!
