//! Sorting of page numbers.

use vstd::prelude::*;

verus! {

pub open spec fn ascending(s: Seq<usize>) -> bool {
    forall|i: int, j: int| 0 <= i <= j < s.len() ==> s[i] <= s[j]
}

pub open spec fn strictly_ascending(s: Seq<usize>) -> bool {
    forall|i: int, j: int| 0 <= i < j < s.len() ==> s[i] < s[j]
}

/// `slice::sort_unstable` on page numbers: the same numbers, in ascending order.
#[verifier::external_body]
fn sort_unstable(pages: &mut Vec<usize>)
    ensures
        final(pages)@.to_multiset() == old(pages)@.to_multiset(),
        ascending(final(pages)@),
{
    pages.sort_unstable()
}

/// The given pages, each once and in ascending order.
pub fn sorted_unique(pages: Vec<usize>) -> (unique: Vec<usize>)
    ensures
        strictly_ascending(unique@),
        forall|page: usize| unique@.contains(page) <==> pages@.contains(page),
{
    let ghost given = pages@;
    let mut sorted = pages;
    sort_unstable(&mut sorted);
    proof {
        given.to_multiset_ensures();
        sorted@.to_multiset_ensures();
        assert forall|page: usize| sorted@.contains(page) <==> given.contains(page) by {
            assert(given.contains(page) <==> given.to_multiset().count(page) > 0);
            assert(sorted@.contains(page) <==> sorted@.to_multiset().count(page) > 0);
        }
    }
    let mut unique: Vec<usize> = Vec::new();
    let mut i: usize = 0;
    while i < sorted.len()
        invariant
            i <= sorted@.len(),
            ascending(sorted@),
            strictly_ascending(unique@),
            forall|k: int| 0 <= k < unique@.len() ==> sorted@.contains(#[trigger] unique@[k]),
            forall|k: int| 0 <= k < i ==> unique@.contains(#[trigger] sorted@[k]),
            i > 0 ==> unique@.len() > 0 && unique@.last() == sorted@[i - 1],
            i == 0 ==> unique@.len() == 0,
        decreases sorted@.len() - i,
    {
        let page: usize = sorted[i];
        let ghost before = unique@;
        if unique.len() == 0 || unique[unique.len() - 1] != page {
            unique.push(page);
            assert(unique@[unique@.len() - 1] == page);
            assert forall|k: int| 0 <= k < i implies unique@.contains(#[trigger] sorted@[k]) by {
                assert(before.contains(sorted@[k]));
                let m = choose|m: int| 0 <= m < before.len() && before[m] == sorted@[k];
                assert(unique@[m] == sorted@[k]);
            }
            assert forall|k: int| 0 <= k < unique@.len() implies sorted@.contains(
                #[trigger] unique@[k],
            ) by {
                if k == before.len() {
                    assert(sorted@[i as int] == unique@[k]);
                } else {
                    assert(sorted@.contains(before[k]));
                }
            }
        } else {
            assert(unique@[unique@.len() - 1] == page);
        }
        i = i + 1;
    }
    proof {
        assert forall|page: usize| unique@.contains(page) <==> sorted@.contains(page) by {
            if sorted@.contains(page) {
                let k = choose|k: int| 0 <= k < sorted@.len() && sorted@[k] == page;
                assert(unique@.contains(sorted@[k]));
            }
            if unique@.contains(page) {
                let k = choose|k: int| 0 <= k < unique@.len() && unique@[k] == page;
                assert(sorted@.contains(unique@[k]));
            }
        }
    }
    unique
}

/// Two neighbours in the outcome have nothing of the given pages between them.
pub proof fn law_sorted_pages_are_the_given_ones(
    pages: Vec<usize>,
    unique: Vec<usize>,
    page: usize,
    i: int,
)
    requires
        call_ensures(sorted_unique, (pages,), unique),
        0 <= i < unique@.len() - 1,
    ensures
        unique@[i] < unique@[i + 1],
        unique@.contains(page) <==> pages@.contains(page),
        unique@[i] < page < unique@[i + 1] ==> !pages@.contains(page),
{
    if pages@.contains(page) {
        assert(unique@.contains(page));
        let k = choose|k: int| 0 <= k < unique@.len() && unique@[k] == page;
        if k < i {
            assert(unique@[k] < unique@[i]);
        }
        if k > i + 1 {
            assert(unique@[i + 1] < unique@[k]);
        }
    }
}

} // verus!
