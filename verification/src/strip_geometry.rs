//! Which pages of a strip are where on screen.

use crate::coordinate::Coordinate;
use vstd::prelude::*;

verus! {

/// Where a page begins and ends, from top to bottom.
#[derive(Clone, Copy, Debug, PartialEq, Eq, Structural)]
pub struct Span {
    pub top: Coordinate,
    pub bottom: Coordinate,
}

pub open spec fn is_visible(span: Span, top: Coordinate, bottom: Coordinate) -> bool {
    span.top < bottom && span.bottom > top
}

/// The pages that are visible between `top` and `bottom`, of the first `count`.
/// Numbering begins with `first`.
pub open spec fn visible_pages(
    spans: Seq<Span>,
    first: int,
    top: Coordinate,
    bottom: Coordinate,
    count: int,
) -> Seq<usize>
    decreases count,
{
    if count <= 0 {
        Seq::empty()
    } else {
        let before = visible_pages(spans, first, top, bottom, count - 1);
        if is_visible(spans[count - 1], top, bottom) {
            before.push((first + count - 1) as usize)
        } else {
            before
        }
    }
}

/// The pages that are visible between `top` and `bottom`, in order.  `spans` holds
/// the pages from `first` on.
pub fn collect_visible(spans: &Vec<Span>, first: usize, top: Coordinate, bottom: Coordinate) -> (pages:
    Vec<usize>)
    requires
        first + spans@.len() <= usize::MAX,
    ensures
        pages@ == visible_pages(spans@, first as int, top, bottom, spans@.len() as int),
{
    let mut pages: Vec<usize> = Vec::new();
    let mut i: usize = 0;
    while i < spans.len()
        invariant
            i <= spans@.len(),
            first + spans@.len() <= usize::MAX,
            pages@ == visible_pages(spans@, first as int, top, bottom, i as int),
        decreases spans@.len() - i,
    {
        if spans[i].top < bottom && spans[i].bottom > top {
            pages.push(first + i);
        }
        i = i + 1;
    }
    pages
}

/// A page is collected if and only if it is visible.
pub proof fn law_collected_pages_are_the_visible_ones(
    spans: Seq<Span>,
    first: int,
    top: Coordinate,
    bottom: Coordinate,
    page: usize,
)
    requires
        0 <= first,
        first + spans.len() <= usize::MAX,
    ensures
        visible_pages(spans, first, top, bottom, spans.len() as int).contains(page) <==> first <= page
            < first + spans.len() && is_visible(spans[page - first], top, bottom),
{
    lemma_visible_pages(spans, first, top, bottom, spans.len() as int, page);
}

proof fn lemma_visible_pages(
    spans: Seq<Span>,
    first: int,
    top: Coordinate,
    bottom: Coordinate,
    count: int,
    page: usize,
)
    requires
        0 <= first,
        first + spans.len() <= usize::MAX,
        0 <= count <= spans.len(),
    ensures
        visible_pages(spans, first, top, bottom, count).contains(page) <==> first <= page < first
            + count && is_visible(spans[page - first], top, bottom),
    decreases count,
{
    if count > 0 {
        lemma_visible_pages(spans, first, top, bottom, count - 1, page);
        let before = visible_pages(spans, first, top, bottom, count - 1);
        let last = (first + count - 1) as usize;
        if is_visible(spans[count - 1], top, bottom) {
            assert(before.push(last)[before.len() as int] == last);
            if before.contains(page) {
                let i = choose|i: int| 0 <= i < before.len() && before[i] == page;
                assert(before.push(last)[i] == page);
            }
            if before.push(last).contains(page) && page != last {
                let i = choose|i: int| 0 <= i < before.push(last).len() && before.push(last)[i] == page;
                assert(before[i] == page);
            }
        }
    }
}

/// The pages begin one below the other.
pub open spec fn is_ordered(starts: Seq<Coordinate>) -> bool {
    forall|i: int, j: int| 0 <= i <= j < starts.len() ==> starts[i] <= starts[j]
}

/// The page is the last one that begins at or above `y`; the first one if all begin
/// below.
pub open spec fn page_at(starts: Seq<Coordinate>, y: Coordinate, page: int) -> bool {
    &&& 0 <= page < starts.len()
    &&& forall|i: int| page < i < starts.len() ==> (#[trigger] starts[i]) > y
    &&& page > 0 ==> starts[page] <= y
}

/// The page at a position of a long strip, by halving.
pub fn page_at_y(starts: &Vec<Coordinate>, y: Coordinate) -> (page: usize)
    requires
        starts@.len() > 0,
        is_ordered(starts@),
    ensures
        page_at(starts@, y, page as int),
{
    let mut low: usize = 0;
    let mut high: usize = starts.len();
    while low < high
        invariant
            low <= high <= starts@.len(),
            is_ordered(starts@),
            forall|i: int| 0 <= i < low ==> (#[trigger] starts@[i]) <= y,
            forall|i: int| high <= i < starts@.len() ==> (#[trigger] starts@[i]) > y,
        decreases high - low,
    {
        let middle: usize = low + (high - low) / 2;
        if starts[middle] <= y {
            low = middle + 1;
        } else {
            high = middle;
        }
    }
    if low == 0 {
        0
    } else {
        low - 1
    }
}

/// The position, moved into the strip; its start if there is no such position.
pub open spec fn within_strip(y: Option<Coordinate>, total: Coordinate) -> Coordinate {
    match y {
        None => 0,
        Some(y) => if y < 0 || total < 0 {
            0
        } else if y > total {
            total
        } else {
            y
        },
    }
}

/// The page at a position of a long strip that is `total` long.  A position outside
/// counts as the nearest end.
pub fn manga_index_at_y(starts: &Vec<Coordinate>, total: Coordinate, y: Option<Coordinate>) -> (page:
    usize)
    requires
        starts@.len() > 0,
        is_ordered(starts@),
    ensures
        page_at(starts@, within_strip(y, total), page as int),
{
    let inside: Coordinate = match y {
        None => 0,
        Some(y) => {
            if y < 0 || total < 0 {
                0
            } else if y > total {
                total
            } else {
                y
            }
        },
    };
    page_at_y(starts, inside)
}

/// How many pages are visible; at least one counts as such.
pub fn manga_calculate_visible_page_count(
    spans: &Vec<Span>,
    first: usize,
    top: Coordinate,
    bottom: Coordinate,
) -> (count: usize)
    requires
        first + spans@.len() <= usize::MAX,
    ensures
        ({
            let visible = visible_pages(spans@, first as int, top, bottom, spans@.len() as int).len();
            count == (if visible == 0 {
                1
            } else {
                visible
            })
        }),
{
    let visible: usize = collect_visible(spans, first, top, bottom).len();
    if visible == 0 {
        1
    } else {
        visible
    }
}

/// There is one page only at a position.
pub proof fn law_page_at_is_unique(starts: Seq<Coordinate>, y: Coordinate, a: int, b: int)
    requires
        page_at(starts, y, a),
        page_at(starts, y, b),
    ensures
        a == b,
{
    if a < b {
        assert(starts[b] > y);
    } else if b < a {
        assert(starts[a] > y);
    }
}

/// The first of the smallest values.
pub open spec fn is_first_smallest(values: Seq<Coordinate>, at: int) -> bool {
    &&& 0 <= at < values.len()
    &&& forall|i: int| 0 <= i < at ==> (#[trigger] values[i]) > values[at]
    &&& forall|i: int| at <= i < values.len() ==> (#[trigger] values[i]) >= values[at]
}

/// The column of a masonry layout that the next page goes to: the first of the
/// shortest ones.
pub fn shortest_column(heights: &Vec<Coordinate>) -> (column: usize)
    requires
        heights@.len() > 0,
    ensures
        is_first_smallest(heights@, column as int),
{
    let mut column: usize = 0;
    let mut i: usize = 1;
    while i < heights.len()
        invariant
            1 <= i <= heights@.len(),
            column < i,
            is_first_smallest(heights@.take(i as int), column as int),
        decreases heights@.len() - i,
    {
        proof {
            assert(heights@.take(i as int)[column as int] == heights@[column as int]);
            assert forall|k: int| 0 <= k < column implies heights@[k] > heights@[column as int] by {
                assert(heights@.take(i as int)[k] == heights@[k]);
            }
            assert forall|k: int| column <= k < i implies heights@[k] >= heights@[column as int] by {
                assert(heights@.take(i as int)[k] == heights@[k]);
            }
        }
        if heights[i] < heights[column] {
            column = i;
        }
        i = i + 1;
    }
    assert(heights@.take(heights@.len() as int) =~= heights@);
    column
}

/// A page as it is laid out on screen.
#[derive(Clone, Copy, Debug)]
pub struct PlacedPage {
    pub left: Coordinate,
    pub top: Coordinate,
    pub right: Coordinate,
    pub bottom: Coordinate,
}

pub open spec fn covers(page: PlacedPage, x: Coordinate, y: Coordinate) -> bool {
    page.left <= x <= page.right && page.top <= y <= page.bottom
}

/// The page is the first one that covers the point.
pub open spec fn first_covering(pages: Seq<PlacedPage>, x: Coordinate, y: Coordinate, at: int) -> bool {
    &&& 0 <= at < pages.len()
    &&& covers(pages[at], x, y)
    &&& forall|i: int| 0 <= i < at ==> !covers(#[trigger] pages[i], x, y)
}

/// No page covers the point.
pub open spec fn is_bare(pages: Seq<PlacedPage>, x: Coordinate, y: Coordinate) -> bool {
    forall|i: int| 0 <= i < pages.len() ==> !covers(#[trigger] pages[i], x, y)
}

/// The page under a point of the screen.
pub fn index_at_screen_pos(pages: &Vec<PlacedPage>, x: Coordinate, y: Coordinate) -> (page: Option<
    usize,
>)
    ensures
        page matches Some(i) ==> first_covering(pages@, x, y, i as int),
        page is None <==> forall|i: int|
            #![trigger pages@[i]]
            0 <= i < pages@.len() ==> !covers(pages@[i], x, y),
        page is None <==> is_bare(pages@, x, y),
{
    let mut i: usize = 0;
    while i < pages.len()
        invariant
            i <= pages@.len(),
            forall|k: int| 0 <= k < i ==> !covers(#[trigger] pages@[k], x, y),
        decreases pages@.len() - i,
    {
        let page = pages[i];
        if page.left <= x && x <= page.right && page.top <= y && y <= page.bottom {
            assert(covers(pages@[i as int], x, y));
            return Some(i);
        }
        i = i + 1;
    }
    None
}

/// Some position lies both between `a` and `b` and between `c` and `d`.
pub open spec fn share_a_position(a: Coordinate, b: Coordinate, c: Coordinate, d: Coordinate) -> bool {
    exists|y: Coordinate| #[trigger] lies_between(y, a, b) && lies_between(y, c, d)
}

pub open spec fn lies_between(y: Coordinate, start: Coordinate, end: Coordinate) -> bool {
    start <= y < end
}

/// A page that is not empty is collected exactly when some position of it is on a
/// screen that is not empty.
pub proof fn law_visible_pages_share_a_position_with_the_screen(
    spans: Seq<Span>,
    first: int,
    top: Coordinate,
    bottom: Coordinate,
    i: int,
)
    requires
        0 <= first,
        first + spans.len() <= usize::MAX,
        0 <= i < spans.len(),
        spans[i].top < spans[i].bottom,
        top < bottom,
    ensures
        visible_pages(spans, first, top, bottom, spans.len() as int).contains((first + i) as usize)
            <==> share_a_position(spans[i].top, spans[i].bottom, top, bottom),
{
    let page = (first + i) as usize;
    lemma_visible_pages(spans, first, top, bottom, spans.len() as int, page);
    let span = spans[i];
    if span.top < bottom && span.bottom > top {
        let y = if span.top < top {
            top
        } else {
            span.top
        };
        assert(lies_between(y, span.top, span.bottom) && lies_between(y, top, bottom));
    }
}

/// A page that covers the screen is collected, and so is one that lies on it; one that
/// ends at the upper edge or begins at the lower edge is not.
pub proof fn law_covering_pages_are_visible(
    spans: Seq<Span>,
    first: int,
    top: Coordinate,
    bottom: Coordinate,
    i: int,
)
    requires
        0 <= first,
        first + spans.len() <= usize::MAX,
        0 <= i < spans.len(),
        spans[i].top < spans[i].bottom,
        top < bottom,
    ensures
        ({
            let pages = visible_pages(spans, first, top, bottom, spans.len() as int);
            let page = (first + i) as usize;
            &&& spans[i].top <= top && bottom <= spans[i].bottom ==> pages.contains(page)
            &&& top <= spans[i].top && spans[i].bottom <= bottom ==> pages.contains(page)
            &&& spans[i].bottom <= top || bottom <= spans[i].top ==> !pages.contains(page)
        }),
{
    lemma_visible_pages(spans, first, top, bottom, spans.len() as int, (first + i) as usize);
}

/// The visible pages are collected in the order of the strip, each once, and all of
/// them lie in the part of it that was looked at.
pub proof fn law_visible_pages_ascend(
    spans: Seq<Span>,
    first: int,
    top: Coordinate,
    bottom: Coordinate,
    count: int,
)
    requires
        0 <= first,
        first + spans.len() <= usize::MAX,
        0 <= count <= spans.len(),
    ensures
        ({
            let pages = visible_pages(spans, first, top, bottom, count);
            &&& forall|i: int| 0 <= i < pages.len() ==> first <= #[trigger] pages[i] < first + count
            &&& forall|i: int, j: int| 0 <= i < j < pages.len() ==> pages[i] < pages[j]
        }),
    decreases count,
{
    if count > 0 {
        law_visible_pages_ascend(spans, first, top, bottom, count - 1);
        let before = visible_pages(spans, first, top, bottom, count - 1);
        let pages = visible_pages(spans, first, top, bottom, count);
        assert forall|i: int| 0 <= i < pages.len() implies first <= #[trigger] pages[i] < first
            + count by {
            if i < before.len() {
                assert(pages[i] == before[i]);
            }
        }
        assert forall|i: int, j: int| 0 <= i < j < pages.len() implies pages[i] < pages[j] by {
            assert(pages[i] == before[i]);
            if j < before.len() {
                assert(pages[j] == before[j]);
            }
        }
    }
}

/// A higher screen never shows fewer pages.
pub proof fn law_larger_screens_show_more(
    spans: Seq<Span>,
    first: int,
    inner: (Coordinate, Coordinate),
    outer: (Coordinate, Coordinate),
    page: usize,
)
    requires
        0 <= first,
        first + spans.len() <= usize::MAX,
        outer.0 <= inner.0,
        inner.1 <= outer.1,
        visible_pages(spans, first, inner.0, inner.1, spans.len() as int).contains(page),
    ensures
        visible_pages(spans, first, outer.0, outer.1, spans.len() as int).contains(page),
{
    lemma_visible_pages(spans, first, inner.0, inner.1, spans.len() as int, page);
    lemma_visible_pages(spans, first, outer.0, outer.1, spans.len() as int, page);
}

/// The page at a position begins at or above it, and the next one begins below it.
/// Above the first page it is the first one.
pub proof fn law_page_at_holds_the_position(starts: Seq<Coordinate>, y: Coordinate, page: int)
    requires
        is_ordered(starts),
        page_at(starts, y, page),
    ensures
        0 <= page < starts.len(),
        starts[0] <= y ==> starts[page] <= y,
        page + 1 < starts.len() ==> y < starts[page + 1],
        y < starts[0] ==> page == 0,
{
    if y < starts[0] && page > 0 {
        assert(starts[0] <= starts[page]);
    }
}

/// Further down the strip comes a later page, or the same one.
pub proof fn law_pages_follow_positions(
    starts: Seq<Coordinate>,
    upper: Coordinate,
    lower: Coordinate,
    a: int,
    b: int,
)
    requires
        page_at(starts, upper, a),
        page_at(starts, lower, b),
        upper <= lower,
    ensures
        a <= b,
{
    if b < a {
        assert(starts[a] > lower);
    }
}

/// A position in the strip stays as it is; one above it counts as the start and one
/// below it as the end.
pub proof fn law_positions_are_moved_into_the_strip(y: Coordinate, total: Coordinate)
    requires
        0 <= total,
    ensures
        0 <= within_strip(Some(y), total) <= total,
        0 <= y <= total ==> within_strip(Some(y), total) == y,
        y < 0 ==> within_strip(Some(y), total) == 0,
        y > total ==> within_strip(Some(y), total) == total,
        within_strip(None, total) == 0,
{
}

/// The next page goes to a column than which none is shorter, and of those to the
/// leftmost.
pub proof fn law_no_column_is_shorter(heights: Seq<Coordinate>, column: int, other: int)
    requires
        is_first_smallest(heights, column),
        0 <= other < heights.len(),
    ensures
        heights[column] <= heights[other],
        heights[other] == heights[column] ==> column <= other,
{
}

/// A page that is found under a point holds it, borders included, and no page before
/// it does.
pub proof fn law_found_page_holds_the_point(
    pages: Seq<PlacedPage>,
    x: Coordinate,
    y: Coordinate,
    at: int,
    other: int,
)
    requires
        first_covering(pages, x, y, at),
    ensures
        0 <= at < pages.len(),
        pages[at].left <= x <= pages[at].right,
        pages[at].top <= y <= pages[at].bottom,
        0 <= other < at ==> x < pages[other].left || pages[other].right < x || y < pages[other].top
            || pages[other].bottom < y,
{
    if 0 <= other < at {
        assert(!covers(pages[other], x, y));
    }
}

/// A page covers every point between its borders, and no other.
pub proof fn law_pages_cover_what_lies_between_their_borders(
    page: PlacedPage,
    x: Coordinate,
    y: Coordinate,
)
    ensures
        covers(page, x, y) <==> !(x < page.left || page.right < x || y < page.top || page.bottom < y),
        page.left <= page.right && page.top <= page.bottom ==> covers(page, page.left, page.top)
            && covers(page, page.right, page.bottom),
{
}

/// A page is among those that are collected exactly when it begins above the lower edge
/// of the screen and ends below the upper one.  They come in the order of the strip, and
/// each once.
pub proof fn law_collected_pages_are_on_screen(
    spans: &Vec<Span>,
    first: usize,
    top: Coordinate,
    bottom: Coordinate,
    pages: Vec<usize>,
    i: int,
    j: int,
    k: int,
)
    requires
        first + spans@.len() <= usize::MAX,
        call_ensures(collect_visible, (spans, first, top, bottom), pages),
        0 <= i < spans@.len(),
    ensures
        pages@.contains((first + i) as usize) <==> spans@[i].top < bottom && top < spans@[i].bottom,
        0 <= j < k < pages@.len() ==> pages@[j] < pages@[k],
        0 <= k < pages@.len() ==> first <= pages@[k] < first + spans@.len(),
{
    lemma_visible_pages(
        spans@,
        first as int,
        top,
        bottom,
        spans@.len() as int,
        (first + i) as usize,
    );
    law_visible_pages_ascend(spans@, first as int, top, bottom, spans@.len() as int);
}

/// A screen that ends where another begins and that one show together what a screen of
/// both heights shows.
pub proof fn law_screens_add_up(
    spans: &Vec<Span>,
    first: usize,
    top: Coordinate,
    middle: Coordinate,
    bottom: Coordinate,
    whole: Vec<usize>,
    upper: Vec<usize>,
    lower: Vec<usize>,
    page: usize,
)
    requires
        first + spans@.len() <= usize::MAX,
        top <= middle <= bottom,
        forall|i: int| 0 <= i < spans@.len() ==> (#[trigger] spans@[i]).top < spans@[i].bottom,
        call_ensures(collect_visible, (spans, first, top, bottom), whole),
        call_ensures(collect_visible, (spans, first, top, middle), upper),
        call_ensures(collect_visible, (spans, first, middle, bottom), lower),
    ensures
        whole@.contains(page) <==> upper@.contains(page) || lower@.contains(page),
{
    let n = spans@.len() as int;
    lemma_visible_pages(spans@, first as int, top, bottom, n, page);
    lemma_visible_pages(spans@, first as int, top, middle, n, page);
    lemma_visible_pages(spans@, first as int, middle, bottom, n, page);
    if first <= page < first + n {
        assert(spans@[page - first].top < spans@[page - first].bottom);
    }
}

/// As many pages count as visible as are collected, and one where none is.
pub proof fn law_visible_pages_are_counted(
    spans: &Vec<Span>,
    first: usize,
    top: Coordinate,
    bottom: Coordinate,
    pages: Vec<usize>,
    count: usize,
)
    requires
        call_ensures(collect_visible, (spans, first, top, bottom), pages),
        call_ensures(manga_calculate_visible_page_count, (spans, first, top, bottom), count),
    ensures
        pages@.len() > 0 ==> count == pages@.len(),
        pages@.len() == 0 ==> count == 1,
{
}

/// The page at a position of the strip begins at or above it, and the next one below it.
pub proof fn law_index_holds_the_position(
    starts: &Vec<Coordinate>,
    total: Coordinate,
    y: Coordinate,
    page: usize,
)
    requires
        call_ensures(manga_index_at_y, (starts, total, Some(y)), page),
        is_ordered(starts@),
        starts@.len() > 0,
        starts@[0] == 0,
        0 <= y <= total,
    ensures
        page < starts@.len(),
        starts@[page as int] <= y,
        page + 1 < starts@.len() ==> y < starts@[page + 1],
{
}

/// Positions before the strip belong to the first page, and positions behind it to the
/// page that its end belongs to.
pub proof fn law_outer_positions_belong_to_the_ends(
    starts: &Vec<Coordinate>,
    total: Coordinate,
    y: Coordinate,
    page: usize,
    end_page: usize,
)
    requires
        call_ensures(manga_index_at_y, (starts, total, Some(y)), page),
        call_ensures(manga_index_at_y, (starts, total, Some(total)), end_page),
        is_ordered(starts@),
        starts@.len() > 0,
        0 <= total,
    ensures
        y < 0 && 0 <= starts@[0] && (starts@.len() > 1 ==> starts@[1] > 0) ==> page == 0,
        y >= total ==> page == end_page,
        y <= total ==> page <= end_page,
{
    if y >= total {
        law_page_at_is_unique(starts@, total, page as int, end_page as int);
    } else {
        let inside = if y < 0 {
            0
        } else {
            y
        };
        law_pages_follow_positions(starts@, inside, total, page as int, end_page as int);
    }
    if y < 0 && 0 <= starts@[0] && (starts@.len() > 1 ==> starts@[1] > 0) && page > 0 {
        assert(starts@[1] <= starts@[page as int]);
    }
}

/// By halving, the page is found that begins last at or above a position.
pub proof fn law_halving_finds_the_page(starts: &Vec<Coordinate>, y: Coordinate, page: usize, i: int)
    requires
        call_ensures(page_at_y, (starts, y), page),
        0 <= i < starts@.len(),
    ensures
        page < starts@.len(),
        i > page ==> starts@[i] > y,
        page > 0 ==> starts@[page as int] <= y,
{
}

/// The next page goes to the leftmost of the shortest columns.
pub proof fn law_next_page_goes_to_the_shortest_column(
    heights: &Vec<Coordinate>,
    column: usize,
    other: int,
)
    requires
        call_ensures(shortest_column, (heights,), column),
        0 <= other < heights@.len(),
    ensures
        column < heights@.len(),
        heights@[column as int] <= heights@[other],
        other < column ==> heights@[column as int] < heights@[other],
{
}

/// A page is found under every point that one holds, and the one that is found holds it.
pub proof fn law_point_leads_to_its_page(
    pages: &Vec<PlacedPage>,
    x: Coordinate,
    y: Coordinate,
    page: Option<usize>,
    i: int,
)
    requires
        call_ensures(index_at_screen_pos, (pages, x, y), page),
        0 <= i < pages@.len(),
    ensures
        page matches Some(p) ==> {
            &&& p < pages@.len()
            &&& pages@[p as int].left <= x <= pages@[p as int].right
            &&& pages@[p as int].top <= y <= pages@[p as int].bottom
        },
        pages@[i].left <= x <= pages@[i].right && pages@[i].top <= y <= pages@[i].bottom ==> (
        page matches Some(p) && p <= i),
{
    if page is Some && i < page->0 {
        assert(!covers(pages@[i], x, y));
    }
}

} // verus!
