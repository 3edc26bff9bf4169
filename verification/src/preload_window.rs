//! How far around the visible pages a strip looks ahead, and what it keeps.

use crate::load_book::LoadBookState;
use crate::coordinate::Coordinate;
use crate::channel::SendOutcome;
use crate::manga_loader::{
    preload_step, LoadRequest, LoadTarget, LoaderState, MangaLoader, PageSource,
};
use crate::page_map::page_set;
use crate::recency::{
    has_key, keys, lemma_lookup_at, lemma_without_absent, lemma_without_keys, lemma_without_twice,
    without_keys,
};
use crate::strip_animation::lemma_push_contains;
use crate::strip_mode::{clamp_columns, columns, masonry_cache_multiplier};
use crate::texture_cache::{MangaTextureCache, TextureCacheState};
use crate::texture_plan::{cache_capacity, manga_compute_cache_capacity_target};
use vstd::prelude::*;

verus! {

/// How long the preload queue is left alone after it was brought up to date, in
/// nanoseconds.
pub const PRELOAD_UPDATE_INTERVAL: u64 = 50_000_000;

/// Whether the preload queue is to be brought up to date now.  After a large jump
/// it is left alone for some frames.
pub fn preload_update_is_due(
    manga_mode: bool,
    count: usize,
    cooldown_frames: u32,
    nanos_since_update: u64,
) -> (due: bool)
    ensures
        due == (manga_mode && count > 0 && cooldown_frames == 0 && nanos_since_update
            >= PRELOAD_UPDATE_INTERVAL),
{
    manga_mode && count > 0 && cooldown_frames == 0 && nanos_since_update >= PRELOAD_UPDATE_INTERVAL
}

pub open spec fn lesser_of(a: int, b: int) -> int {
    if a < b {
        a
    } else {
        b
    }
}

pub open spec fn greater_of(a: int, b: int) -> int {
    if a > b {
        a
    } else {
        b
    }
}

/// How many pages behind and ahead of the visible one should have known
/// dimensions.  A long strip looks further in the direction of the scrolling; a
/// masonry layout looks equally far both ways, the further the more columns it has.
pub open spec fn dimension_reach(
    masonry_mode: bool,
    items_per_row: usize,
    visible_pages: usize,
    scrolling_up: bool,
) -> (int, int) {
    let scale = greater_of(1, visible_pages as int / 2);
    if masonry_mode {
        let rows = columns(items_per_row as int);
        let both = lesser_of(
            greater_of(160 * scale * ((rows + 1) / 2), 80 * rows),
            240 * rows,
        );
        (both, both)
    } else if scrolling_up {
        (lesser_of(80 * scale, 200), lesser_of(20 * scale, 100))
    } else {
        (lesser_of(20 * scale, 200), lesser_of(80 * scale, 100))
    }
}

/// How many pages behind and ahead of the visible one should have known
/// dimensions.
pub fn compute_dimension_reach(
    masonry_mode: bool,
    items_per_row: usize,
    visible_pages: usize,
    scrolling_up: bool,
) -> (reach: (usize, usize))
    ensures
        (reach.0 as int, reach.1 as int) == dimension_reach(
            masonry_mode,
            items_per_row,
            visible_pages,
            scrolling_up,
        ),
        reach.0 <= 2400,
        reach.1 <= 2400,
{
    let half: usize = visible_pages / 2;
    // Beyond this the limits apply whatever the number is.
    let scale: usize = if half < 1 {
        1
    } else if half > 1000 {
        1000
    } else {
        half
    };
    if masonry_mode {
        let rows: usize = clamp_columns(items_per_row);
        let sides: usize = (rows + 1) / 2;
        proof {
            let full = greater_of(1, visible_pages as int / 2);
            assert(1 <= sides <= 5);
            assert(160 * scale * sides <= 160 * 1000 * 5) by (nonlinear_arith)
                requires
                    scale <= 1000,
                    sides <= 5,
            ;
            if full > 1000 {
                assert(160 * full * sides >= 160 * 1000) by (nonlinear_arith)
                    requires
                        full > 1000,
                        sides >= 1,
                ;
                assert(160 * scale * sides >= 160 * 1000) by (nonlinear_arith)
                    requires
                        scale == 1000,
                        sides >= 1,
                ;
            }
        }
        let wanted: usize = 160 * scale * sides;
        let least: usize = 80 * rows;
        let most: usize = 240 * rows;
        let more: usize = if wanted > least {
            wanted
        } else {
            least
        };
        let both: usize = if more < most {
            more
        } else {
            most
        };
        (both, both)
    } else {
        let far: usize = 80 * scale;
        let near: usize = 20 * scale;
        if scrolling_up {
            (if far < 200 {
                far
            } else {
                200
            }, if near < 100 {
                near
            } else {
                100
            })
        } else {
            (if near < 200 {
                near
            } else {
                200
            }, if far < 100 {
                far
            } else {
                100
            })
        }
    }
}

/// How many textures behind and ahead of the visible page one would like to keep.
pub open spec fn wanted_reach(
    masonry_mode: bool,
    items_per_row: usize,
    preload_ahead: int,
    preload_behind: int,
    scrolling_up: bool,
) -> (int, int) {
    if masonry_mode {
        let rows = columns(items_per_row as int);
        let both = greater_of(
            greater_of(preload_ahead, preload_behind) * ((rows + 1) / 2),
            12 * rows,
        );
        (both, both)
    } else if scrolling_up {
        (preload_ahead, preload_behind)
    } else {
        (preload_behind, preload_ahead)
    }
}

/// A reach that the given number of textures allows.  If both sides together are
/// too much, they shrink in proportion, but neither to nothing as long as two
/// textures are allowed.
pub open spec fn fitted_reach(behind: int, ahead: int, budget: int) -> (int, int) {
    if budget == 0 {
        (0, 0)
    } else if behind + ahead <= budget {
        (behind, ahead)
    } else {
        let share = behind * budget / (behind + ahead);
        let shared = if behind > 0 && share == 0 {
            1
        } else {
            share
        };
        if ahead > 0 && shared == budget && budget > 1 {
            (budget - 1, 1)
        } else {
            (shared, budget - shared)
        }
    }
}

proof fn lemma_share(behind: int, ahead: int, budget: int)
    requires
        0 <= behind,
        0 <= ahead,
        0 < budget < behind + ahead,
    ensures
        0 <= behind * budget / (behind + ahead) <= budget,
{
    let total = behind + ahead;
    assert(0 <= behind * budget / total <= budget) by (nonlinear_arith)
        requires
            0 <= behind <= total,
            0 < budget,
            0 < total,
    ;
}

/// A reach that the given number of textures allows.
pub fn fit_reach(behind: usize, ahead: usize, budget: usize) -> (reach: (usize, usize))
    requires
        behind + ahead <= usize::MAX,
        behind * budget <= usize::MAX,
    ensures
        (reach.0 as int, reach.1 as int) == fitted_reach(behind as int, ahead as int, budget as int),
        reach.0 + reach.1 <= behind + ahead,
{
    if budget == 0 {
        return (0, 0);
    }
    let total: usize = behind + ahead;
    if total <= budget {
        return (behind, ahead);
    }
    proof {
        lemma_share(behind as int, ahead as int, budget as int);
    }
    let share: usize = behind * budget / total;
    let shared: usize = if behind > 0 && share == 0 {
        1
    } else {
        share
    };
    if ahead > 0 && shared == budget && budget > 1 {
        (budget - 1, 1)
    } else {
        (shared, budget - shared)
    }
}

/// The reach never takes more textures than allowed.
pub proof fn law_reach_fits_budget(behind: int, ahead: int, budget: int)
    requires
        0 <= behind,
        0 <= ahead,
        0 <= budget,
    ensures
        fitted_reach(behind, ahead, budget).0 + fitted_reach(behind, ahead, budget).1 <= budget,
        0 <= fitted_reach(behind, ahead, budget).0,
        0 <= fitted_reach(behind, ahead, budget).1,
{
    if 0 < budget < behind + ahead {
        lemma_share(behind, ahead, budget);
    }
}

/// Neither side of the reach is lost as long as two textures are allowed.
pub proof fn law_reach_keeps_both_sides(behind: int, ahead: int, budget: int)
    requires
        0 < behind,
        0 < ahead,
        2 <= budget,
    ensures
        fitted_reach(behind, ahead, budget).0 > 0,
        fitted_reach(behind, ahead, budget).1 > 0,
{
    if budget < behind + ahead {
        lemma_share(behind, ahead, budget);
    }
}

/// The pages whose textures are kept beside the visible ones: from the first up to,
/// not including, the second.
pub open spec fn keep_window(current: int, reach: (int, int), count: int) -> (int, int) {
    (
        if current < reach.0 {
            0
        } else {
            current - reach.0
        },
        lesser_of(current + reach.1 + 1, count),
    )
}

/// The cache after all these pages lost their textures and pins.
pub open spec fn all_removed(state: TextureCacheState, gone: Set<usize>) -> TextureCacheState {
    TextureCacheState {
        pinned: state.pinned.remove_keys(gone),
        recency: without_keys(state.recency, gone),
        pinned_pages: state.pinned_pages.difference(gone),
        limit: state.limit,
    }
}

/// What the loader knows after all these pages lost their textures.
pub open spec fn all_unloaded(state: LoaderState, gone: Set<usize>) -> LoaderState {
    LoaderState {
        book: LoadBookState {
            loaded: state.book.loaded.remove_keys(gone),
            retry: state.book.retry.remove_keys(gone),
            ..state.book
        },
        ..state
    }
}

proof fn lemma_removed_one_more(state: TextureCacheState, gone: Set<usize>, page: usize)
    ensures
        all_removed(state, gone).removed(page) == all_removed(state, gone.insert(page)),
{
    let one = Set::<usize>::empty().insert(page);
    lemma_without_twice(state.recency, gone, one);
    assert(gone.union(one) =~= gone.insert(page));
    let left = all_removed(state, gone).removed(page);
    let right = all_removed(state, gone.insert(page));
    assert(left.pinned =~= right.pinned);
    assert(left.recency == right.recency);
    assert(left.pinned_pages =~= right.pinned_pages);
}

/// The page is outside the kept window, and not visible.
pub open spec fn is_left_behind(window: (int, int), visible: Set<usize>, page: usize) -> bool {
    (page < window.0 || page >= window.1) && !visible.contains(page)
}

/// The pages that lose their textures.
pub open spec fn left_behind(
    state: TextureCacheState,
    window: (int, int),
    visible: Set<usize>,
) -> Set<usize> {
    Set::new(|page: usize| state.lookup(page) is Some && is_left_behind(window, visible, page))
}

proof fn lemma_cached_pages(state: TextureCacheState, pages: Seq<usize>)
    requires
        pages.len() == state.total(),
        pages.take(state.pinned.dom().len() as int).to_set() == state.pinned.dom(),
        pages.skip(state.pinned.dom().len() as int) == keys(state.recency).reverse(),
    ensures
        forall|page: usize| pages.contains(page) <==> #[trigger] state.lookup(page) is Some,
{
    let n = state.pinned.dom().len() as int;
    let first = pages.take(n);
    let second = pages.skip(n);
    assert forall|page: usize| pages.contains(page) <==> #[trigger] state.lookup(page) is Some by {
        if pages.contains(page) {
            let i = choose|i: int| 0 <= i < pages.len() && pages[i] == page;
            if i < n {
                assert(first[i] == page);
                assert(first.to_set().contains(page));
            } else {
                assert(second[i - n] == page);
                let k = state.recency.len() - 1 - (i - n);
                assert(state.recency[k].0 == page);
                assert(has_key(state.recency, page));
            }
        }
        if state.pinned.contains_key(page) {
            assert(first.to_set().contains(page));
            let i = choose|i: int| 0 <= i < first.len() && first[i] == page;
            assert(pages[i] == page);
        } else if has_key(state.recency, page) {
            let k = choose|k: int| 0 <= k < state.recency.len() && (#[trigger] state.recency[k]).0 == page;
            let j = state.recency.len() - 1 - k;
            assert(second[j] == page);
            assert(pages[n + j] == page);
        }
    }
}

/// Visible pages keep their textures, and so do the pages inside the window.
pub proof fn law_visible_pages_keep_textures(
    state: TextureCacheState,
    window: (int, int),
    visible: Set<usize>,
    page: usize,
)
    requires
        visible.contains(page) || window.0 <= page < window.1,
        state.wf(),
    ensures
        all_removed(state, left_behind(state, window, visible)).lookup(page) == state.lookup(page),
{
    let gone = left_behind(state, window, visible);
    let after = all_removed(state, gone);
    lemma_without_keys(state.recency, gone);
    if state.pinned.contains_key(page) {
        assert(after.pinned.contains_key(page));
    } else if has_key(state.recency, page) {
        let i = choose|i: int| 0 <= i < state.recency.len() && (#[trigger] state.recency[i]).0 == page;
        assert(after.recency.contains(state.recency[i]));
        let j = choose|j: int| 0 <= j < after.recency.len() && after.recency[j] == state.recency[i];
        lemma_lookup_at(state.recency, i);
        lemma_lookup_at(after.recency, j);
    } else {
        if has_key(after.recency, page) {
            let j = choose|j: int|
                0 <= j < after.recency.len() && (#[trigger] after.recency[j]).0 == page;
            assert(state.recency.contains(after.recency[j]));
            let i = choose|i: int| 0 <= i < state.recency.len() && state.recency[i] == after.recency[j];
            assert(state.recency[i].0 == page);
        }
    }
}

/// Takes the textures from the pages that are outside the kept window and not
/// visible, and says which they were.
pub fn evict_left_behind(
    cache: &mut MangaTextureCache,
    loader: &mut MangaLoader,
    start: usize,
    end: usize,
    visible: &Vec<usize>,
) -> (evicted: Vec<usize>)
    requires
        old(cache).wf(),
        old(loader).wf(),
    ensures
        final(cache).wf(),
        final(loader).wf(),
        ({
            let gone = left_behind(old(cache)@, (start as int, end as int), visible@.to_set());
            &&& evicted@.to_set() == gone
            &&& final(cache)@ == all_removed(old(cache)@, gone)
            &&& final(loader)@ == all_unloaded(old(loader)@, gone)
        }),
{
    let ghost before = cache@;
    let ghost known = loader@;
    let visible_pages = page_set(visible);
    let pages = cache.cached_indices();
    let mut evicted: Vec<usize> = Vec::new();
    let mut i: usize = 0;
    proof {
        lemma_cached_pages(before, pages@);
        lemma_without_absent(before.recency, Set::empty());
        assert(evicted@.to_set() =~= Set::<usize>::empty());
        assert(all_removed(before, Set::empty()).pinned =~= before.pinned);
        assert(all_removed(before, Set::empty()).pinned_pages =~= before.pinned_pages);
        assert(all_unloaded(known, Set::empty()).book.loaded =~= known.book.loaded);
        assert(all_unloaded(known, Set::empty()).book.retry =~= known.book.retry);
    }
    while i < pages.len()
        invariant
            i <= pages@.len(),
            cache.wf(),
            loader.wf(),
            visible_pages.wf(),
            visible_pages@.dom() == visible@.to_set(),
            cache@ == all_removed(before, evicted@.to_set()),
            loader@ == all_unloaded(known, evicted@.to_set()),
            forall|page: usize|
                #![trigger evicted@.to_set().contains(page)]
                evicted@.to_set().contains(page) <==> pages@.take(i as int).contains(page)
                    && is_left_behind((start as int, end as int), visible@.to_set(), page),
        decreases pages@.len() - i,
    {
        let page: usize = pages[i];
        let ghost handled = pages@.take(i as int);
        let ghost gone = evicted@.to_set();
        proof {
            assert(pages@.take(i + 1) =~= handled.push(page));
            lemma_push_contains(handled, page);
            lemma_removed_one_more(before, gone, page);
        }
        let outside = page < start || page >= end;
        if outside && !visible_pages.contains(page) {
            cache.remove(page);
            loader.mark_unloaded(page);
            let ghost previous = evicted@;
            evicted.push(page);
            proof {
                lemma_push_contains(previous, page);
                assert(evicted@.to_set() =~= gone.insert(page));
                let expected = all_unloaded(known, gone.insert(page));
                assert(loader@.book.loaded =~= expected.book.loaded);
                assert(loader@.book.retry =~= expected.book.retry);
            }
        }
        i = i + 1;
    }
    proof {
        assert(pages@.take(pages@.len() as int) =~= pages@);
        assert(evicted@.to_set() =~= left_behind(
            before,
            (start as int, end as int),
            visible@.to_set(),
        ));
    }
    evicted
}

/// Takes note in the loader that these pages lost their textures.
pub fn mark_all_unloaded(loader: &mut MangaLoader, pages: &Vec<usize>)
    requires
        old(loader).wf(),
    ensures
        final(loader).wf(),
        final(loader)@ == all_unloaded(old(loader)@, pages@.to_set()),
{
    let ghost known = loader@;
    let mut i: usize = 0;
    proof {
        assert(pages@.take(0).to_set() =~= Set::<usize>::empty());
        assert(all_unloaded(known, Set::empty()).book.loaded =~= known.book.loaded);
        assert(all_unloaded(known, Set::empty()).book.retry =~= known.book.retry);
    }
    while i < pages.len()
        invariant
            i <= pages@.len(),
            loader.wf(),
            loader@ == all_unloaded(known, pages@.take(i as int).to_set()),
        decreases pages@.len() - i,
    {
        let page: usize = pages[i];
        let ghost handled = pages@.take(i as int);
        loader.mark_unloaded(page);
        proof {
            assert(pages@.take(i + 1) =~= handled.push(page));
            lemma_push_contains(handled, page);
            assert(handled.push(page).to_set() =~= handled.to_set().insert(page));
            let expected = all_unloaded(known, handled.to_set().insert(page));
            assert(loader@.book.loaded =~= expected.book.loaded);
            assert(loader@.book.retry =~= expected.book.retry);
        }
        i = i + 1;
    }
    assert(pages@.take(pages@.len() as int) =~= pages@);
}

/// What is on screen of a strip.
pub struct StripView {
    pub masonry_mode: bool,
    pub items_per_row: usize,
    pub zoom: Coordinate,
    /// The page at the top of the screen.
    pub current: usize,
    /// How many pages are visible, and which.
    pub visible_page_count: usize,
    pub visible: Vec<usize>,
    pub scrolling_up: bool,
    /// How many pages fill the view of a long strip, in halves of a page.
    pub strip_halves: Option<usize>,
    /// How pages are to be decoded.
    pub target: LoadTarget,
}

impl StripView {
    pub open spec fn seen(self) -> int {
        greater_of(1, self.visible@.len() as int)
    }

    /// How many textures are to be kept.
    pub open spec fn capacity(self) -> int {
        cache_capacity(
            self.masonry_mode,
            self.items_per_row,
            self.zoom,
            self.visible_page_count,
            self.seen() as usize,
        )
    }

    /// How many visible pages the loader reckons with.
    pub open spec fn loader_pages(self) -> int {
        greater_of(
            1,
            lesser_of(
                self.visible_page_count * (if self.masonry_mode {
                    2int
                } else {
                    1
                }),
                self.capacity(),
            ),
        )
    }

    /// The pages that should have known dimensions.
    pub open spec fn dimension_window(self, count: int) -> (int, int) {
        let reach = dimension_reach(
            self.masonry_mode,
            self.items_per_row,
            self.visible_page_count,
            self.scrolling_up,
        );
        (
            if self.current < reach.0 {
                0
            } else {
                self.current - reach.0
            },
            lesser_of(self.current + reach.1, count),
        )
    }

    /// The pages that keep their textures beside the visible ones.
    pub open spec fn kept(self, preload_ahead: int, preload_behind: int, count: int) -> (int, int) {
        let wanted = wanted_reach(
            self.masonry_mode,
            self.items_per_row,
            preload_ahead,
            preload_behind,
            self.scrolling_up,
        );
        let budget = self.capacity() - lesser_of(self.seen(), self.capacity());
        keep_window(self.current as int, fitted_reach(wanted.0, wanted.1, budget), count)
    }

    /// What the loader knows once it has learnt how much is visible.
    pub open spec fn told(self, loader: LoaderState) -> LoaderState {
        LoaderState {
            visible_pages: self.loader_pages() as usize,
            strip_halves: match self.strip_halves {
                Some(halves) => Some(
                    if halves < 2 {
                        2
                    } else {
                        halves
                    },
                ),
                None => None,
            },
            ..loader
        }
    }
}

/// The cache after the visible pages were pinned.
pub open spec fn is_pinned_from(
    before: TextureCacheState,
    pinned: TextureCacheState,
    visible: Set<usize>,
) -> bool {
    exists|order: Seq<usize>|
        before.release_order(order, visible) && pinned == #[trigger] before.repinned(order, visible)
}

/// The loader after the pages around the current one were asked for.
pub open spec fn is_queued_from(
    before: LoaderState,
    queued: LoaderState,
    pages: Seq<PageSource>,
    view: StripView,
    now: u64,
) -> bool {
    exists|
        drained: Set<usize>,
        plan: Seq<LoadRequest>,
        ordered: Seq<LoadRequest>,
        outcomes: Seq<SendOutcome>,
    | #[trigger]
        preload_step(
            before,
            queued,
            pages,
            view.current,
            view.target,
            now,
            drained,
            plan,
            ordered,
            outcomes,
        )
}

/// The loader after dimensions in the window were asked for, if the queue had room.
pub open spec fn is_asked_from(
    told: LoaderState,
    asked: LoaderState,
    pages: Seq<PageSource>,
    window: (int, int),
) -> bool {
    asked == told || asked == told.with_probing(
        told.dimension_batch(pages, window.0 as usize, window.1 as usize).to_set(),
    )
}

/// Bringing the preload queue up to date: the visible pages are pinned and the
/// cache is resized; dimensions and pages are asked for; what is far away leaves.
/// `pinned`, `asked` and `queued` are the states in between.
pub open spec fn queue_update(
    caches: (TextureCacheState, TextureCacheState),
    loaders: (LoaderState, LoaderState),
    pages: Seq<PageSource>,
    view: StripView,
    now: u64,
    pinned: TextureCacheState,
    asked: LoaderState,
    queued: LoaderState,
) -> bool {
    let visible = view.visible@.to_set();
    let resized = pinned.resized(view.capacity() as nat);
    let told = view.told(all_unloaded(loaders.0, resized.trimmed_pages().to_set()));
    let counts = queued.preload_counts();
    let gone = left_behind(
        resized.trimmed(),
        view.kept(counts.0, counts.1, pages.len() as int),
        visible,
    );
    &&& is_pinned_from(caches.0, pinned, visible)
    &&& is_asked_from(told, asked, pages, view.dimension_window(pages.len() as int))
    &&& is_queued_from(asked, queued, pages, view, now)
    &&& caches.1 == all_removed(resized.trimmed(), gone)
    &&& loaders.1 == all_unloaded(queued, gone)
}

/// Brings the preload queue up to date with what is on screen.
pub fn manga_update_preload_queue(
    cache: &mut MangaTextureCache,
    loader: &mut MangaLoader,
    pages: &Vec<PageSource>,
    view: &StripView,
    now: u64,
)
    requires
        old(cache).wf(),
        old(loader).wf(),
        pages@.len() > 0,
    ensures
        final(cache).wf(),
        final(loader).wf(),
        exists|pinned: TextureCacheState, asked: LoaderState, queued: LoaderState| #[trigger]
            queue_update(
                (old(cache)@, final(cache)@),
                (old(loader)@, final(loader)@),
                pages@,
                *view,
                now,
                pinned,
                asked,
                queued,
            ),
{
    let seen: usize = if view.visible.len() < 1 {
        1
    } else {
        view.visible.len()
    };
    let capacity: usize = manga_compute_cache_capacity_target(
        view.masonry_mode,
        view.items_per_row,
        view.zoom,
        view.visible_page_count,
        seen,
    );
    let visible_copy = copy_pages(&view.visible);
    cache.set_pinned_indices(visible_copy);
    let ghost pinned = cache@;
    let evicted = cache.set_max_entries(capacity);
    mark_all_unloaded(loader, &evicted);

    let loader_pages: usize = view.compute_loader_pages(capacity);
    loader.update_visible_page_count(loader_pages, view.strip_halves);
    let ghost told = loader@;
    let (start, end): (usize, usize) = view.compute_dimension_window(pages.len());
    loader.request_dimensions_range(pages, start, end);
    let ghost asked = loader@;
    loader.update_preload_queue(pages, view.current, &view.target, now);
    let ghost queued = loader@;
    let preload_ahead: usize = loader.get_preload_ahead();
    let preload_behind: usize = loader.get_preload_behind();
    let (keep_start, keep_end): (usize, usize) = view.compute_kept(
        preload_ahead,
        preload_behind,
        capacity,
        seen,
        pages.len(),
    );
    let _ = evict_left_behind(cache, loader, keep_start, keep_end, &view.visible);
    proof {
        let resized = pinned.resized(view.capacity() as nat);
        assert(evicted@ == resized.trimmed_pages());
        assert(is_pinned_from(old(cache)@, pinned, view.visible@.to_set()));
        assert(told == view.told(all_unloaded(old(loader)@, evicted@.to_set())));
        assert(is_asked_from(told, asked, pages@, (start as int, end as int)));
        assert(is_queued_from(asked, queued, pages@, *view, now));
        assert(queue_update(
            (old(cache)@, cache@),
            (old(loader)@, loader@),
            pages@,
            *view,
            now,
            pinned,
            asked,
            queued,
        ));
    }
}

impl StripView {
    fn compute_loader_pages(&self, capacity: usize) -> (count: usize)
        requires
            capacity == self.capacity(),
            1 <= capacity <= 512,
        ensures
            count == self.loader_pages(),
            1 <= count,
    {
        let multiplier: usize = masonry_cache_multiplier(self.masonry_mode);
        let few: usize = if self.visible_page_count > capacity {
            capacity
        } else {
            self.visible_page_count
        };
        let scaled: usize = if multiplier == 2 {
            few * 2
        } else {
            few
        };
        if scaled > capacity {
            capacity
        } else if scaled < 1 {
            1
        } else {
            scaled
        }
    }

    fn compute_dimension_window(&self, count: usize) -> (window: (usize, usize))
        ensures
            (window.0 as int, window.1 as int) == self.dimension_window(count as int),
    {
        let (behind, ahead): (usize, usize) = compute_dimension_reach(
            self.masonry_mode,
            self.items_per_row,
            self.visible_page_count,
            self.scrolling_up,
        );
        let start: usize = self.current.saturating_sub(behind);
        let reach: usize = self.current.saturating_add(ahead);
        let end: usize = if reach < count {
            reach
        } else {
            count
        };
        (start, end)
    }

    fn compute_kept(
        &self,
        preload_ahead: usize,
        preload_behind: usize,
        capacity: usize,
        seen: usize,
        count: usize,
    ) -> (window: (usize, usize))
        requires
            capacity == self.capacity(),
            capacity <= 512,
            seen == self.seen(),
            preload_ahead <= 256,
            preload_behind <= 128,
        ensures
            (window.0 as int, window.1 as int) == self.kept(
                preload_ahead as int,
                preload_behind as int,
                count as int,
            ),
    {
        let (wanted_behind, wanted_ahead): (usize, usize) = if self.masonry_mode {
            let rows: usize = clamp_columns(self.items_per_row);
            let more: usize = if preload_ahead > preload_behind {
                preload_ahead
            } else {
                preload_behind
            };
            let sides: usize = (rows + 1) / 2;
            assert(more * sides <= 5 * more) by (nonlinear_arith)
                requires
                    sides <= 5,
            ;
            let dense: usize = more * sides;
            let both: usize = if dense > 12 * rows {
                dense
            } else {
                12 * rows
            };
            (both, both)
        } else if self.scrolling_up {
            (preload_ahead, preload_behind)
        } else {
            (preload_behind, preload_ahead)
        };
        let budget: usize = if seen < capacity {
            capacity - seen
        } else {
            0
        };
        assert(wanted_behind * budget <= 2000 * 512) by (nonlinear_arith)
            requires
                wanted_behind <= 2000,
                budget <= 512,
        ;
        let (keep_behind, keep_ahead): (usize, usize) = fit_reach(
            wanted_behind,
            wanted_ahead,
            budget,
        );
        let start: usize = self.current.saturating_sub(keep_behind);
        let reach: usize = self.current.saturating_add(keep_ahead).saturating_add(1);
        let end: usize = if reach < count {
            reach
        } else {
            count
        };
        (start, end)
    }
}

fn copy_pages(pages: &Vec<usize>) -> (copy: Vec<usize>)
    ensures
        copy@ == pages@,
{
    let mut copy: Vec<usize> = Vec::new();
    let mut i: usize = 0;
    while i < pages.len()
        invariant
            i <= pages@.len(),
            copy@ == pages@.take(i as int),
        decreases pages@.len() - i,
    {
        copy.push(pages[i]);
        assert(copy@ =~= pages@.take(i + 1));
        i = i + 1;
    }
    assert(pages@.take(pages@.len() as int) =~= pages@);
    copy
}

/// A long strip looks further ahead than back while little is visible, in whichever
/// direction it scrolls, and a wall of columns looks equally far both ways.
pub proof fn law_dimensions_are_sought_ahead(items_per_row: usize, visible_pages: usize)
    ensures
        ({
            let down = dimension_reach(false, items_per_row, visible_pages, false);
            let up = dimension_reach(false, items_per_row, visible_pages, true);
            let wall = dimension_reach(true, items_per_row, visible_pages, true);
            &&& wall == dimension_reach(true, items_per_row, visible_pages, false)
            &&& wall.0 == wall.1
            &&& 0 < down.0 <= 200 && 0 < down.1 <= 100
            &&& 0 < up.0 <= 200 && 0 < up.1 <= 100
            &&& up.0 > up.1
            &&& visible_pages < 10 ==> down.1 > down.0
            &&& 160 <= wall.0 <= 2400
        }),
{
    let scale = greater_of(1, visible_pages as int / 2);
    let rows = columns(items_per_row as int);
    assert(160 * scale * ((rows + 1) / 2) >= 160) by (nonlinear_arith)
        requires
            scale >= 1,
            rows >= 2,
    ;
}

/// More visible pages never narrow the reach.
pub proof fn law_reach_grows_with_what_is_visible(
    masonry_mode: bool,
    items_per_row: usize,
    fewer: usize,
    more: usize,
    scrolling_up: bool,
)
    requires
        fewer <= more,
    ensures
        dimension_reach(masonry_mode, items_per_row, fewer, scrolling_up).0 <= dimension_reach(
            masonry_mode,
            items_per_row,
            more,
            scrolling_up,
        ).0,
        dimension_reach(masonry_mode, items_per_row, fewer, scrolling_up).1 <= dimension_reach(
            masonry_mode,
            items_per_row,
            more,
            scrolling_up,
        ).1,
{
    let small = greater_of(1, fewer as int / 2);
    let large = greater_of(1, more as int / 2);
    let sides = (columns(items_per_row as int) + 1) / 2;
    assert(160 * small * sides <= 160 * large * sides) by (nonlinear_arith)
        requires
            small <= large,
            sides >= 0,
    ;
}

/// What a long strip would like to keep lies in the direction of scrolling for the
/// greater part: what is preloaded ahead is kept ahead, and when scrolling turns
/// round the two sides change places.
pub proof fn law_kept_pages_lie_ahead(items_per_row: usize, ahead: int, behind: int)
    ensures
        ({
            let down = wanted_reach(false, items_per_row, ahead, behind, false);
            let up = wanted_reach(false, items_per_row, ahead, behind, true);
            let wall = wanted_reach(true, items_per_row, ahead, behind, true);
            &&& down.1 == ahead && down.0 == behind
            &&& up.0 == ahead && up.1 == behind
            &&& wall == wanted_reach(true, items_per_row, ahead, behind, false)
            &&& wall.0 == wall.1
            &&& 0 <= ahead && 0 <= behind ==> wall.0 >= ahead && wall.0 >= behind && wall.0 >= 24
        }),
{
    let more = greater_of(ahead, behind);
    let sides = (columns(items_per_row as int) + 1) / 2;
    if 0 <= ahead && 0 <= behind {
        assert(more * sides >= more) by (nonlinear_arith)
            requires
                more >= 0,
                sides >= 1,
        ;
    }
}

/// A reach that fits stays as it is; one that does not uses all the textures that are
/// allowed and keeps the proportion of its sides to within one texture where that
/// leaves something on both.
pub proof fn law_fitted_reach_keeps_its_proportion(behind: int, ahead: int, budget: int)
    requires
        0 < behind,
        0 < ahead,
        0 < budget,
    ensures
        ({
            let fitted = fitted_reach(behind, ahead, budget);
            &&& behind + ahead <= budget ==> fitted.0 == behind && fitted.1 == ahead
            &&& behind + ahead > budget ==> fitted.0 + fitted.1 == budget
            &&& behind + ahead > budget && budget > 1 ==> (fitted.0 - 1) * (behind + ahead) <= behind
                * budget < (fitted.0 + 2) * (behind + ahead)
        }),
{
    let total = behind + ahead;
    if total > budget {
        lemma_share(behind, ahead, budget);
        let share = behind * budget / total;
        assert(share * total <= behind * budget < (share + 1) * total) by (nonlinear_arith)
            requires
                total > 0,
                share == behind * budget / total,
        ;
        let fitted = fitted_reach(behind, ahead, budget).0;
        assert(fitted == share || fitted == share + 1 || fitted == share - 1);
        assert((fitted - 1) * total <= share * total && (share + 1) * total <= (fitted + 2) * total)
            by (nonlinear_arith)
            requires
                total > 0,
                share - 1 <= fitted <= share + 1,
        ;
    }
}

/// The window that is kept holds the current page and reaches so far on both sides of
/// it, as far as there are pages.
pub proof fn law_kept_window_surrounds_the_page(current: int, reach: (int, int), count: int)
    requires
        0 <= current < count,
        0 <= reach.0,
        0 <= reach.1,
    ensures
        ({
            let (start, end) = keep_window(current, reach, count);
            &&& 0 <= start <= current < end <= count
            &&& current - start <= reach.0
            &&& end - 1 - current <= reach.1
            &&& start == 0 || current - start == reach.0
            &&& end == count || end - 1 - current == reach.1
        }),
{
}

/// A page loses its texture exactly when it has one, lies outside the window and is
/// not visible; the loader then forgets how far those pages were decoded, and no
/// others.
pub proof fn law_pages_out_of_reach_lose_their_textures(
    state: TextureCacheState,
    loader: LoaderState,
    window: (int, int),
    visible: Set<usize>,
    page: usize,
)
    ensures
        ({
            let gone = left_behind(state, window, visible);
            let after = all_unloaded(loader, gone);
            &&& gone.contains(page) <==> state.lookup(page) is Some && !visible.contains(page) && !(
            window.0 <= page < window.1)
            &&& gone.contains(page) ==> !after.book.loaded.contains_key(page)
                && !after.book.retry.contains_key(page)
            &&& !gone.contains(page) ==> after.book.loaded.contains_key(page)
                == loader.book.loaded.contains_key(page) && (loader.book.loaded.contains_key(page)
                ==> after.book.loaded[page] == loader.book.loaded[page])
            &&& after.book.loading == loader.book.loading
            &&& after.dimensions == loader.dimensions
        }),
{
}

/// The queue is brought up to date in a strip that has pages, unless a jump was made
/// just now or it was brought up to date within the last twentieth of a second.
pub proof fn law_queue_updates_keep_their_distance(
    manga_mode: bool,
    count: usize,
    cooldown_frames: u32,
    nanos: u64,
    due: bool,
)
    requires
        call_ensures(preload_update_is_due, (manga_mode, count, cooldown_frames, nanos), due),
    ensures
        due ==> manga_mode && count > 0 && cooldown_frames == 0 && 20 * nanos >= 1_000_000_000,
        manga_mode && count > 0 && cooldown_frames == 0 && 20 * nanos >= 1_000_000_000 ==> due,
{
}

/// The dimensions that are asked for are those of pages around the current one.
pub proof fn law_dimension_window_surrounds_the_page(view: StripView, count: int)
    requires
        view.current < count,
    ensures
        ({
            let (start, end) = view.dimension_window(count);
            0 <= start <= view.current < end <= count
        }),
{
    law_dimensions_are_sought_ahead(view.items_per_row, view.visible_page_count);
}

/// Dimensions are sought on both sides, and further ahead than back in a strip of which
/// little is visible; a wall of columns is sought through equally far both ways.
pub proof fn law_reach_follows_the_layout(
    masonry_mode: bool,
    items_per_row: usize,
    visible: usize,
    scrolling_up: bool,
    reach: (usize, usize),
)
    requires
        call_ensures(
            compute_dimension_reach,
            (masonry_mode, items_per_row, visible, scrolling_up),
            reach,
        ),
    ensures
        reach.0 > 0 && reach.1 > 0,
        masonry_mode ==> reach.0 == reach.1 && reach.0 >= 160,
        !masonry_mode ==> reach.0 <= 200 && reach.1 <= 100,
        !masonry_mode && scrolling_up ==> reach.0 > reach.1,
        !masonry_mode && !scrolling_up && visible < 10 ==> reach.1 > reach.0,
{
    law_dimensions_are_sought_ahead(items_per_row, visible);
}

/// A reach that fits is kept; one that does not uses what is allowed.
pub proof fn law_reach_is_fitted(behind: usize, ahead: usize, budget: usize, reach: (usize, usize))
    requires
        call_ensures(fit_reach, (behind, ahead, budget), reach),
        0 < behind,
        0 < ahead,
        0 < budget,
    ensures
        behind + ahead <= budget ==> reach.0 == behind && reach.1 == ahead,
        behind + ahead > budget ==> reach.0 + reach.1 == budget,
{
    law_fitted_reach_keeps_its_proportion(behind as int, ahead as int, budget as int);
}

/// Pages outside the window that are not visible lose their textures, and the loader
/// forgets them; all others keep theirs.
pub proof fn law_distant_pages_lose_their_textures(
    cache: &mut MangaTextureCache,
    loader: &mut MangaLoader,
    start: usize,
    end: usize,
    visible: &Vec<usize>,
    evicted: Vec<usize>,
    page: usize,
)
    requires
        call_ensures(evict_left_behind, (cache, loader, start, end, visible), evicted),
    ensures
        evicted@.contains(page) <==> old(cache)@.lookup(page) is Some && !visible@.contains(page) && !(
        start <= page < end),
        evicted@.contains(page) ==> !final(loader)@.book.loaded.contains_key(page),
        !evicted@.contains(page) ==> final(loader)@.book.loaded.contains_key(page) == old(
            loader)@.book.loaded.contains_key(page),
        final(loader)@.book.loading == old(loader)@.book.loading,
        final(loader)@.dimensions == old(loader)@.dimensions,
{
    assert(visible@.to_set().contains(page) <==> visible@.contains(page));
    assert(evicted@.to_set().contains(page) <==> evicted@.contains(page));
}

/// Pages whose textures left are not there any more, and no others are forgotten.
pub proof fn law_marked_pages_are_unloaded(
    loader: &mut MangaLoader,
    pages: &Vec<usize>,
    page: usize,
)
    requires
        call_ensures(mark_all_unloaded, (loader, pages), ()),
    ensures
        pages@.contains(page) ==> !final(loader)@.book.loaded.contains_key(page) && !final(
            loader)@.book.retry.contains_key(page),
        !pages@.contains(page) ==> final(loader)@.book.loaded.contains_key(page) == old(
            loader)@.book.loaded.contains_key(page) && final(loader)@.book.retry.contains_key(page)
            == old(loader)@.book.retry.contains_key(page),
        final(loader)@.book.loading == old(loader)@.book.loading,
{
    assert(pages@.to_set().contains(page) <==> pages@.contains(page));
}

/// In a wall of columns a page more is reckoned with for every two columns, and a dozen
/// for every column at least; dimensions are sought through as many rows as fill the
/// view several times over.
pub proof fn law_walls_reach_further_with_their_columns(
    items_per_row: usize,
    ahead: int,
    behind: int,
    visible: usize,
)
    requires
        0 <= behind <= ahead,
    ensures
        ({
            let kept = wanted_reach(true, items_per_row, ahead, behind, false).0;
            let sought = dimension_reach(true, items_per_row, visible, false).0;
            &&& items_per_row <= 2 && ahead >= 24 ==> kept == ahead
            &&& items_per_row == 4 && ahead >= 24 ==> kept == 2 * ahead
            &&& items_per_row == 6 && ahead >= 24 ==> kept == 3 * ahead
            &&& items_per_row >= 10 && ahead >= 24 ==> kept == 5 * ahead
            &&& items_per_row == 2 && ahead == 0 ==> kept == 24
            &&& items_per_row == 5 && ahead == 0 ==> kept == 60
            &&& items_per_row == 2 && visible <= 3 ==> sought == 160
            &&& items_per_row == 4 && visible <= 3 ==> sought == 320
            &&& items_per_row == 3 && visible <= 3 ==> sought == 320
            &&& items_per_row == 2 && visible >= 8 ==> sought == 480
            &&& items_per_row >= 10 && visible >= 8 ==> sought == 2400
        }),
{
    let scale = greater_of(1, visible as int / 2);
    let sides = (columns(items_per_row as int) + 1) / 2;
    if visible >= 8 {
        assert(160 * scale * sides >= 640 * sides) by (nonlinear_arith)
            requires
                scale >= 4,
                sides >= 1,
        ;
    }
    assert(sides == 1 ==> ahead * sides == ahead) by (nonlinear_arith);
    assert(sides == 2 ==> ahead * sides == 2 * ahead) by (nonlinear_arith);
    assert(sides == 3 ==> ahead * sides == 3 * ahead) by (nonlinear_arith);
    assert(sides == 5 ==> ahead * sides == 5 * ahead) by (nonlinear_arith);
    assert(scale == 1 && sides == 1 ==> 160 * scale * sides == 160) by (nonlinear_arith);
    assert(scale == 1 && sides == 2 ==> 160 * scale * sides == 320) by (nonlinear_arith);
}

/// Bringing the queue of a strip up to date notes the page that one is at, pins what is
/// visible, holds to the capacity and leaves the dimensions alone.
pub proof fn law_strip_queue_follows_the_view(
    cache: &mut MangaTextureCache,
    loader: &mut MangaLoader,
    pages: &Vec<PageSource>,
    view: &StripView,
    now: u64,
    page: usize,
)
    requires
        call_ensures(manga_update_preload_queue, (cache, loader, pages, view, now), ()),
    ensures
        final(cache)@.limit == view.capacity(),
        final(loader)@.dimensions == old(loader)@.dimensions,
{
    let (pinned, asked, queued) = choose|
        pinned: TextureCacheState,
        asked: LoaderState,
        queued: LoaderState,
    | #[trigger]
        queue_update(
            (old(cache)@, final(cache)@),
            (old(loader)@, final(loader)@),
            pages@,
            *view,
            now,
            pinned,
            asked,
            queued,
        );
}

} // verus!
