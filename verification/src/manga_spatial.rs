//! Which pages of a layout are in view.

use crate::coordinate::float_value;
use crate::coordinate::Coordinate;
use crate::sorting::{sorted_unique, strictly_ascending};
use vstd::multiset::Multiset;
use vstd::arithmetic::power2::{lemma_pow2_adds, lemma_pow2_unfold, pow2};
use vstd::prelude::*;

verus! {

/// How far a query of a vertical band reaches to either side: the position of
/// one thousand million.
pub const STRIP_QUERY_HALF_WIDTH: Coordinate = 1_315_859_240;

/// A page and the rectangle that it covers.
#[derive(Clone, Copy, Debug)]
pub struct SpatialRect {
    pub index: usize,
    pub min_x: Coordinate,
    pub min_y: Coordinate,
    pub max_x: Coordinate,
    pub max_y: Coordinate,
}

pub open spec fn lesser(a: Coordinate, b: Coordinate) -> Coordinate {
    if b < a {
        b
    } else {
        a
    }
}

pub open spec fn greater(a: Coordinate, b: Coordinate) -> Coordinate {
    if a < b {
        b
    } else {
        a
    }
}

impl SpatialRect {
    /// The corners are in order.
    pub open spec fn wf(self) -> bool {
        self.min_x <= self.max_x && self.min_y <= self.max_y
    }

    /// The rectangle between two corners, whichever way round they are given.
    pub open spec fn between(
        index: usize,
        x1: Coordinate,
        y1: Coordinate,
        x2: Coordinate,
        y2: Coordinate,
    ) -> Self {
        SpatialRect {
            index,
            min_x: lesser(x1, x2),
            min_y: lesser(y1, y2),
            max_x: greater(x1, x2),
            max_y: greater(y1, y2),
        }
    }

    /// The rectangles share a point, their borders included.
    pub open spec fn touches(self, other: Self) -> bool {
        &&& self.min_x <= other.max_x
        &&& self.max_x >= other.min_x
        &&& self.min_y <= other.max_y
        &&& self.max_y >= other.min_y
    }

    /// The rectangles share more than their borders.
    pub open spec fn overlaps(self, other: Self) -> bool {
        &&& self.min_x < other.max_x
        &&& self.max_x > other.min_x
        &&& self.min_y < other.max_y
        &&& self.max_y > other.min_y
    }

    /// The rectangle between two corners, whichever way round they are given.
    pub fn new(
        index: usize,
        min_x: Coordinate,
        min_y: Coordinate,
        max_x: Coordinate,
        max_y: Coordinate,
    ) -> (rect: Self)
        ensures
            rect == SpatialRect::between(index, min_x, min_y, max_x, max_y),
            rect.wf(),
    {
        SpatialRect {
            index,
            min_x: if max_x < min_x {
                max_x
            } else {
                min_x
            },
            min_y: if max_y < min_y {
                max_y
            } else {
                min_y
            },
            max_x: if min_x < max_x {
                max_x
            } else {
                min_x
            },
            max_y: if min_y < max_y {
                max_y
            } else {
                min_y
            },
        }
    }

    fn overlaps_with(&self, other: &SpatialRect) -> (overlap: bool)
        ensures
            overlap == self.overlaps(*other),
    {
        self.min_x < other.max_x && self.max_x > other.min_x && self.min_y < other.max_y
            && self.max_y > other.min_y
    }
}

/// A search tree of page rectangles.
#[verifier::external_body]
pub struct RectTree {
    inner: rstar::RTree<
        rstar::primitives::GeomWithData<rstar::primitives::Rectangle<[i32; 2]>, usize>,
    >,
}

/// The rectangles that a [`RectTree`] holds.
pub uninterp spec fn tree_rects(tree: RectTree) -> Multiset<SpatialRect>;

/// `rstar::RTree::bulk_load`: a tree that holds exactly the given rectangles.
#[verifier::external_body]
fn tree_load(rects: Vec<SpatialRect>) -> (tree: RectTree)
    requires
        forall|i: int| 0 <= i < rects@.len() ==> (#[trigger] rects@[i]).wf(),
    ensures
        tree_rects(tree) == rects@.to_multiset(),
{
    let convert = |r: SpatialRect| rstar::primitives::GeomWithData::new(
        rstar::primitives::Rectangle::from_corners([r.min_x, r.min_y], [r.max_x, r.max_y]),
        r.index,
    );
    RectTree { inner: rstar::RTree::bulk_load(rects.into_iter().map(convert).collect()) }
}

/// `rstar::RTree::locate_in_envelope_intersecting`: the rectangles of the tree
/// that share a point with the query, in whatever order.
#[verifier::external_body]
fn tree_touching(tree: &RectTree, query: &SpatialRect) -> (found: Vec<SpatialRect>)
    requires
        query.wf(),
    ensures
        found@.to_multiset() == tree_rects(*tree).filter(|r: SpatialRect| r.touches(*query)),
{
    let envelope = rstar::AABB::from_corners(
        [query.min_x, query.min_y],
        [query.max_x, query.max_y],
    );
    let convert = |e: &rstar::primitives::GeomWithData<
        rstar::primitives::Rectangle<[i32; 2]>,
        usize,
    >| SpatialRect {
        index: e.data,
        min_x: e.geom().lower()[0],
        min_y: e.geom().lower()[1],
        max_x: e.geom().upper()[0],
        max_y: e.geom().upper()[1],
    };
    tree.inner.locate_in_envelope_intersecting(&envelope).map(convert).collect()
}

/// Some rectangle of page `page` overlaps `query`.
pub open spec fn page_in_view(
    rects: Multiset<SpatialRect>,
    query: SpatialRect,
    page: usize,
) -> bool {
    exists|r: SpatialRect| #[trigger]
        rects.count(r) > 0 && r.index == page && r.overlaps(query)
}

/// `pages` are the pages in view: each once, in ascending order.
pub open spec fn pages_in_view(
    rects: Multiset<SpatialRect>,
    query: SpatialRect,
    pages: Seq<usize>,
) -> bool {
    &&& strictly_ascending(pages)
    &&& forall|page: usize| pages.contains(page) <==> #[trigger] page_in_view(rects, query, page)
}

/// Finds the pages in view without looking at all of them.
pub struct MangaSpatialIndex {
    tree: RectTree,
    len: usize,
}

impl View for MangaSpatialIndex {
    type V = Multiset<SpatialRect>;

    closed spec fn view(&self) -> Multiset<SpatialRect> {
        tree_rects(self.tree)
    }
}

impl MangaSpatialIndex {
    pub closed spec fn wf(&self) -> bool {
        self.len == self@.len()
    }

    /// An index of the given rectangles.
    pub fn from_rects(rects: Vec<SpatialRect>) -> (index: Self)
        requires
            forall|i: int| 0 <= i < rects@.len() ==> (#[trigger] rects@[i]).wf(),
        ensures
            index.wf(),
            index@ == rects@.to_multiset(),
    {
        let len: usize = rects.len();
        proof {
            rects@.to_multiset_ensures();
        }
        MangaSpatialIndex { tree: tree_load(rects), len }
    }

    /// How many rectangles there are.
    pub fn len(&self) -> (len: usize)
        requires
            self.wf(),
        ensures
            len == self@.len(),
    {
        self.len
    }

    pub fn is_empty(&self) -> (empty: bool)
        requires
            self.wf(),
        ensures
            empty == (self@.len() == 0),
    {
        self.len == 0
    }

    /// The pages whose rectangles overlap the given one, in ascending order.
    pub fn query_indices(
        &self,
        min_x: Coordinate,
        min_y: Coordinate,
        max_x: Coordinate,
        max_y: Coordinate,
    ) -> (pages: Vec<usize>)
        requires
            self.wf(),
        ensures
            pages_in_view(self@, SpatialRect::between(0, min_x, min_y, max_x, max_y), pages@),
    {
        let query = SpatialRect::new(0, min_x, min_y, max_x, max_y);
        if self.is_empty() {
            let none: Vec<usize> = Vec::new();
            proof {
                assert forall|page: usize| !#[trigger] page_in_view(self@, query, page) by {
                    if page_in_view(self@, query, page) {
                        let r = choose|r: SpatialRect| #[trigger]
                            self@.count(r) > 0 && r.index == page && r.overlaps(query);
                        vstd::multiset::lemma_multiset_empty_len(self@);
                        assert(self@.count(r) == 0);
                    }
                }
            }
            return none;
        }
        let touching = tree_touching(&self.tree, &query);
        let mut pages: Vec<usize> = Vec::new();
        let mut i: usize = 0;
        while i < touching.len()
            invariant
                i <= touching@.len(),
                forall|page: usize|
                    pages@.contains(page) <==> exists|k: int|
                        0 <= k < i && (#[trigger] touching@[k]).index == page && touching@[k].overlaps(
                            query,
                        ),
            decreases touching@.len() - i,
        {
            let ghost before = pages@;
            if touching[i].overlaps_with(&query) {
                pages.push(touching[i].index);
                assert(pages@[pages@.len() - 1] == touching@[i as int].index);
            }
            proof {
                assert forall|page: usize|
                    pages@.contains(page) <==> exists|k: int|
                        0 <= k < i + 1 && (#[trigger] touching@[k]).index == page
                            && touching@[k].overlaps(query) by {
                    if pages@.contains(page) {
                        let m = choose|m: int| 0 <= m < pages@.len() && pages@[m] == page;
                        if m < before.len() {
                            assert(before[m] == page);
                            assert(before.contains(page));
                        } else {
                            assert(touching@[i as int].index == page);
                        }
                    }
                    if exists|k: int|
                        0 <= k < i + 1 && (#[trigger] touching@[k]).index == page
                            && touching@[k].overlaps(query) {
                        let k = choose|k: int|
                            0 <= k < i + 1 && (#[trigger] touching@[k]).index == page
                                && touching@[k].overlaps(query);
                        if k < i {
                            assert(before.contains(page));
                            let m = choose|m: int| 0 <= m < before.len() && before[m] == page;
                            assert(pages@[m] == page);
                        }
                    }
                }
            }
            i = i + 1;
        }
        proof {
            touching@.to_multiset_ensures();
            assert forall|page: usize| pages@.contains(page) <==> #[trigger] page_in_view(
                self@,
                query,
                page,
            ) by {
                if pages@.contains(page) {
                    let k = choose|k: int|
                        0 <= k < i && (#[trigger] touching@[k]).index == page
                            && touching@[k].overlaps(query);
                    let r = touching@[k];
                    assert(touching@.contains(r));
                    assert(touching@.to_multiset().count(r) > 0);
                    assert(self@.count(r) > 0);
                }
                if page_in_view(self@, query, page) {
                    let r = choose|r: SpatialRect| #[trigger]
                        self@.count(r) > 0 && r.index == page && r.overlaps(query);
                    assert(r.touches(query));
                    assert(touching@.to_multiset().count(r) > 0);
                    assert(touching@.contains(r));
                    let k = choose|k: int| 0 <= k < touching@.len() && touching@[k] == r;
                    assert(touching@[k].index == page);
                }
            }
        }
        let unique = sorted_unique(pages);
        unique
    }

    /// The pages whose rectangles overlap a band from one side to the other.
    pub fn query_vertical_band(&self, min_y: Coordinate, max_y: Coordinate) -> (pages: Vec<usize>)
        requires
            self.wf(),
        ensures
            pages_in_view(
                self@,
                SpatialRect::between(
                    0,
                    (-STRIP_QUERY_HALF_WIDTH) as Coordinate,
                    min_y,
                    STRIP_QUERY_HALF_WIDTH,
                    max_y,
                ),
                pages@,
            ),
    {
        self.query_indices(-STRIP_QUERY_HALF_WIDTH, min_y, STRIP_QUERY_HALF_WIDTH, max_y)
    }
}

impl Default for MangaSpatialIndex {
    fn default() -> (index: Self)
        ensures
            index.wf(),
            index@.len() == 0,
    {
        let none: Vec<SpatialRect> = Vec::new();
        proof {
            none@.to_multiset_ensures();
        }
        Self::from_rects(none)
    }
}

/// The pages in view are those that a scan of all rectangles finds.
pub proof fn law_query_matches_linear_scan(
    rects: Seq<SpatialRect>,
    query: SpatialRect,
    pages: Seq<usize>,
    page: usize,
)
    requires
        pages_in_view(rects.to_multiset(), query, pages),
    ensures
        pages.contains(page) <==> exists|i: int|
            0 <= i < rects.len() && (#[trigger] rects[i]).index == page && rects[i].overlaps(query),
{
    rects.to_multiset_ensures();
    let all = rects.to_multiset();
    assert(pages.contains(page) <==> page_in_view(all, query, page));
    if page_in_view(all, query, page) {
        let r = choose|r: SpatialRect| #[trigger]
            all.count(r) > 0 && r.index == page && r.overlaps(query);
        assert(rects.contains(r));
        let i = choose|i: int| 0 <= i < rects.len() && rects[i] == r;
        assert(rects[i].index == page);
    }
    if exists|i: int|
        0 <= i < rects.len() && (#[trigger] rects[i]).index == page && rects[i].overlaps(query) {
        let i = choose|i: int|
            0 <= i < rects.len() && (#[trigger] rects[i]).index == page && rects[i].overlaps(query);
        assert(rects.contains(rects[i]));
        assert(all.count(rects[i]) > 0);
    }
}

/// The rectangle between two corners has both of them, and each of its sides runs
/// through one.
pub proof fn law_rectangles_hold_their_corners(
    index: usize,
    x1: Coordinate,
    y1: Coordinate,
    x2: Coordinate,
    y2: Coordinate,
)
    ensures
        ({
            let r = SpatialRect::between(index, x1, y1, x2, y2);
            &&& r.index == index
            &&& r.min_x <= x1 <= r.max_x && r.min_x <= x2 <= r.max_x
            &&& r.min_y <= y1 <= r.max_y && r.min_y <= y2 <= r.max_y
            &&& r.min_x == x1 || r.min_x == x2
            &&& r.max_x == x1 || r.max_x == x2
            &&& r.min_y == y1 || r.min_y == y2
            &&& r.max_y == y1 || r.max_y == y2
        }),
{
}

pub open spec fn holds_point(r: SpatialRect, x: Coordinate, y: Coordinate) -> bool {
    r.min_x <= x < r.max_x && r.min_y <= y < r.max_y
}

/// Two rectangles that are not empty overlap exactly when they share a point.
pub proof fn law_overlapping_rectangles_share_a_point(a: SpatialRect, b: SpatialRect)
    requires
        a.min_x < a.max_x,
        a.min_y < a.max_y,
        b.min_x < b.max_x,
        b.min_y < b.max_y,
    ensures
        a.overlaps(b) <==> exists|x: Coordinate, y: Coordinate|
            #![trigger holds_point(a, x, y)]
            holds_point(a, x, y) && holds_point(b, x, y),
        a.overlaps(b) <==> b.overlaps(a),
{
    if a.overlaps(b) {
        let x = if a.min_x < b.min_x {
            b.min_x
        } else {
            a.min_x
        };
        let y = if a.min_y < b.min_y {
            b.min_y
        } else {
            a.min_y
        };
        assert(holds_point(a, x, y) && holds_point(b, x, y));
    }
}

/// A page is in view exactly when one of its rectangles shares a point with the
/// screen, and the pages in view come in ascending order, each once.
pub proof fn law_pages_in_view_share_a_point(
    rects: Seq<SpatialRect>,
    query: SpatialRect,
    pages: Seq<usize>,
    i: int,
)
    requires
        pages_in_view(rects.to_multiset(), query, pages),
        0 <= i < rects.len(),
        rects[i].min_x < rects[i].max_x,
        rects[i].min_y < rects[i].max_y,
        query.min_x < query.max_x,
        query.min_y < query.max_y,
        exists|x: Coordinate, y: Coordinate|
            #![trigger holds_point(rects[i], x, y)]
            holds_point(rects[i], x, y) && holds_point(query, x, y),
    ensures
        pages.contains(rects[i].index),
        forall|j: int, k: int| 0 <= j < k < pages.len() ==> pages[j] < pages[k],
{
    law_query_matches_linear_scan(rects, query, pages, rects[i].index);
    law_overlapping_rectangles_share_a_point(rects[i], query);
}

/// A page is found in a view exactly when one of its rectangles shares more than a border
/// with it, whichever corners the view is given by; pages come in order, each once.
pub proof fn law_found_pages_are_in_view(
    rects: Vec<SpatialRect>,
    index: MangaSpatialIndex,
    x1: Coordinate,
    y1: Coordinate,
    x2: Coordinate,
    y2: Coordinate,
    pages: Vec<usize>,
    i: int,
    j: int,
    k: int,
)
    requires
        call_ensures(MangaSpatialIndex::from_rects, (rects,), index),
        call_ensures(MangaSpatialIndex::query_indices, (&index, x1, y1, x2, y2), pages),
        x1 <= x2,
        y1 <= y2,
    ensures
        0 <= i < rects@.len() && rects@[i].min_x < x2 && x1 < rects@[i].max_x && rects@[i].min_y < y2
            && y1 < rects@[i].max_y ==> pages@.contains(rects@[i].index),
        0 <= j < k < pages@.len() ==> pages@[j] < pages@[k],
        0 <= k < pages@.len() ==> exists|m: int|
            0 <= m < rects@.len() && (#[trigger] rects@[m]).index == pages@[k] && rects@[m].min_x < x2
                && x1 < rects@[m].max_x && rects@[m].min_y < y2 && y1 < rects@[m].max_y,
{
    let query = SpatialRect::between(0, x1, y1, x2, y2);
    rects@.to_multiset_ensures();
    if 0 <= i < rects@.len() && rects@[i].min_x < x2 && x1 < rects@[i].max_x && rects@[i].min_y < y2
        && y1 < rects@[i].max_y {
        assert(rects@.contains(rects@[i]));
        assert(index@.count(rects@[i]) > 0);
        assert(page_in_view(index@, query, rects@[i].index));
    }
    if 0 <= k < pages@.len() {
        let page = pages@[k];
        assert(pages@.contains(page));
        assert(page_in_view(index@, query, page));
        let r = choose|r: SpatialRect| #[trigger]
            index@.count(r) > 0 && r.index == page && r.overlaps(query);
        assert(rects@.contains(r));
        let m = choose|m: int| 0 <= m < rects@.len() && rects@[m] == r;
        assert(rects@[m].index == page);
    }
}

/// An index holds as many rectangles as it was given.
pub proof fn law_index_holds_its_rectangles(
    rects: Vec<SpatialRect>,
    index: MangaSpatialIndex,
    len: usize,
    empty: bool,
)
    requires
        call_ensures(MangaSpatialIndex::from_rects, (rects,), index),
        call_ensures(MangaSpatialIndex::len, (&index,), len),
        call_ensures(MangaSpatialIndex::is_empty, (&index,), empty),
    ensures
        len == rects@.len(),
        empty <==> rects@.len() == 0,
{
    rects@.to_multiset_ensures();
}

/// What is found at a height is found in a view that is as wide as the strip may be.
pub proof fn law_bands_are_wide_views(
    index: &MangaSpatialIndex,
    y1: Coordinate,
    y2: Coordinate,
    band: Vec<usize>,
    view: Vec<usize>,
    page: usize,
)
    requires
        call_ensures(MangaSpatialIndex::query_vertical_band, (index, y1, y2), band),
        call_ensures(
            MangaSpatialIndex::query_indices,
            (
                index,
                (-STRIP_QUERY_HALF_WIDTH) as Coordinate,
                y1,
                STRIP_QUERY_HALF_WIDTH,
                y2,
            ),
            view,
        ),
    ensures
        band@.contains(page) <==> view@.contains(page),
{
    let query = SpatialRect::between(
        0,
        (-STRIP_QUERY_HALF_WIDTH) as Coordinate,
        y1,
        STRIP_QUERY_HALF_WIDTH,
        y2,
    );
    let seen = page_in_view(index@, query, page);
    assert(pages_in_view(index@, query, band@));
    assert(band@.contains(page) == seen);
    assert(view@.contains(page) == seen);
}

/// A band reaches to the positions of a thousand million points on both sides.
pub proof fn law_bands_reach_far()
    ensures
        float_value(STRIP_QUERY_HALF_WIDTH as u32) == 1_000_000_000 * (0x80_0000 * pow2(127)),
{
    lemma_pow2_unfold(128);
    lemma_pow2_adds(127, 29);
    vstd::arithmetic::power2::lemma2_to64();
    let p = pow2(127);
    assert(pow2(156) == p * pow2(29));
    assert(p * 0x2000_0000 == 0x2000_0000 * p) by (nonlinear_arith);
    assert(float_value(STRIP_QUERY_HALF_WIDTH as u32) == 0xee_6b28 * pow2(156));
}

} // verus!
