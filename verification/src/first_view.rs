//! How long visible pages wait for their pictures, and how fast pictures are
//! uploaded because of it.

use crate::coordinate::Coordinate;
use crate::page_map::PageMap;
use crate::texture_plan::{ZOOM_50, ZOOM_75};
use vstd::prelude::*;

verus! {

/// How many waiting times are remembered.
pub const MANGA_TTV_SAMPLE_CAP: usize = 240;

/// How long a page counts as waiting, in nanoseconds.
pub const MANGA_TTV_PENDING_MAX_AGE: u64 = 30_000_000_000;

pub const MANGA_UPLOAD_BATCH_BASE: usize = 4;

pub const MANGA_UPLOAD_BATCH_MIN: usize = 2;

pub const MANGA_UPLOAD_BATCH_MAX: usize = 12;

/// The position of infinity.
pub const INFINITE_COORDINATE: Coordinate = 0x7f80_0000;

pub open spec fn sorted_samples(s: Seq<Coordinate>) -> bool {
    forall|i: int, j: int| 0 <= i <= j < s.len() ==> s[i] <= s[j]
}

/// `value` put into its place in a sorted list.
fn insert_sorted(sorted: &mut Vec<Coordinate>, value: Coordinate)
    requires
        sorted_samples(old(sorted)@),
    ensures
        sorted_samples(final(sorted)@),
        final(sorted)@.to_multiset() == old(sorted)@.to_multiset().insert(value),
{
    let mut place: usize = sorted.len();
    while place > 0 && sorted[place - 1] > value
        invariant
            place <= sorted@.len(),
            sorted_samples(sorted@),
            forall|k: int| place <= k < sorted@.len() ==> sorted@[k] > value,
        decreases place,
    {
        place = place - 1;
    }
    let ghost before = sorted@;
    proof {
        before.to_multiset_ensures();
    }
    sorted.insert(place, value);
    proof {
        assert forall|i: int, j: int| 0 <= i <= j < sorted@.len() implies sorted@[i] <= sorted@[j] by {
            let a = if i < place {
                before[i] as int
            } else if i == place {
                value as int
            } else {
                before[i - 1] as int
            };
            let b = if j < place {
                before[j] as int
            } else if j == place {
                value as int
            } else {
                before[j - 1] as int
            };
            assert(sorted@[i] == a && sorted@[j] == b);
            if i < place && j >= place {
                assert(before[i] <= before[place - 1]);
            }
        }
        assert(sorted@ =~= before.take(place as int).push(value) + before.skip(place as int));
        assert(before =~= before.take(place as int) + before.skip(place as int));
        vstd::seq_lib::lemma_multiset_commutative(
            before.take(place as int).push(value),
            before.skip(place as int),
        );
        vstd::seq_lib::lemma_multiset_commutative(
            before.take(place as int),
            before.skip(place as int),
        );
        before.take(place as int).to_multiset_ensures();
        assert(sorted@.to_multiset() =~= before.to_multiset().insert(value));
    }
}

/// The samples in ascending order.
fn sort_samples(samples: &Vec<Coordinate>) -> (sorted: Vec<Coordinate>)
    ensures
        sorted_samples(sorted@),
        sorted@.to_multiset() == samples@.to_multiset(),
        sorted@.len() == samples@.len(),
{
    let mut sorted: Vec<Coordinate> = Vec::new();
    let mut i: usize = 0;
    assert(samples@.take(0) =~= sorted@);
    while i < samples.len()
        invariant
            i <= samples@.len(),
            sorted_samples(sorted@),
            sorted@.to_multiset() == samples@.take(i as int).to_multiset(),
        decreases samples@.len() - i,
    {
        let ghost done = samples@.take(i as int);
        insert_sorted(&mut sorted, samples[i]);
        proof {
            assert(samples@.take(i + 1) =~= done.push(samples@[i as int]));
            done.to_multiset_ensures();
        }
        i = i + 1;
    }
    proof {
        assert(samples@.take(i as int) =~= samples@);
        sorted@.to_multiset_ensures();
        samples@.to_multiset_ensures();
    }
    sorted
}

/// `value` has rank `rank` among the samples: in ascending order it stands at that
/// place.
pub open spec fn has_rank(samples: Seq<Coordinate>, rank: int, value: Coordinate) -> bool {
    exists|sorted: Seq<Coordinate>| #[trigger]
        sorted_samples(sorted) && sorted.to_multiset() == samples.to_multiset() && 0 <= rank
            < sorted.len() && sorted[rank] == value
}

/// What is known of waiting pages.
pub struct WaitState {
    /// The pages that wait, and since when.
    pub pending: Map<usize, u64>,
    /// The latest waiting times, the oldest first.
    pub samples: Seq<Coordinate>,
}

/// How long pages wait between coming into view and being shown.
pub struct TimeToView {
    pending: PageMap<u64>,
    samples: Vec<Coordinate>,
}

impl View for TimeToView {
    type V = WaitState;

    closed spec fn view(&self) -> WaitState {
        WaitState { pending: self.pending@, samples: self.samples@ }
    }
}

/// The time since `start`.
pub open spec fn age(start: u64, now: u64) -> int {
    if now < start {
        0
    } else {
        now - start
    }
}

impl TimeToView {
    pub closed spec fn wf(&self) -> bool {
        self.pending.wf() && self.samples@.len() <= MANGA_TTV_SAMPLE_CAP
    }

    pub fn new() -> (times: Self)
        ensures
            times.wf(),
            times@.pending == Map::<usize, u64>::empty(),
            times@.samples == Seq::<Coordinate>::empty(),
    {
        TimeToView { pending: PageMap::new(), samples: Vec::new() }
    }

    /// Takes note that a page is in view without a picture.
    pub fn manga_mark_placeholder_visible(&mut self, manga_mode: bool, page: usize, now: u64)
        requires
            old(self).wf(),
        ensures
            final(self).wf(),
            final(self)@ == (if manga_mode && !old(self)@.pending.contains_key(page) {
                WaitState { pending: old(self)@.pending.insert(page, now), ..old(self)@ }
            } else {
                old(self)@
            }),
    {
        if manga_mode && !self.pending.contains(page) {
            self.pending.insert(page, now);
        }
    }

    /// Takes note that the picture of a page is there, and says since when the
    /// page had waited.
    pub fn page_shown(&mut self, page: usize) -> (since: Option<u64>)
        requires
            old(self).wf(),
        ensures
            final(self).wf(),
            final(self)@ == (WaitState {
                pending: old(self)@.pending.remove(page),
                ..old(self)@
            }),
            since == (if old(self)@.pending.contains_key(page) {
                Some(old(self)@.pending[page])
            } else {
                None
            }),
    {
        self.pending.remove(page)
    }

    /// Forgets the pages that wait.
    pub fn clear_pending(&mut self)
        requires
            old(self).wf(),
        ensures
            final(self).wf(),
            final(self)@ == (WaitState { pending: Map::empty(), ..old(self)@ }),
    {
        self.pending.clear();
    }

    /// How many pages wait.
    pub fn pending_count(&self) -> (count: usize)
        requires
            self.wf(),
        ensures
            count == self@.pending.dom().len(),
    {
        self.pending.len()
    }

    /// Remembers a waiting time.  One that is not a positive, finite number is
    /// passed over; the oldest makes room where there are too many.
    pub fn manga_record_ttv_sample(&mut self, waited: Coordinate)
        requires
            old(self).wf(),
        ensures
            final(self).wf(),
            final(self)@.pending == old(self)@.pending,
            final(self)@.samples == (if waited <= 0 || waited >= INFINITE_COORDINATE {
                old(self)@.samples
            } else if old(self)@.samples.len() >= MANGA_TTV_SAMPLE_CAP {
                old(self)@.samples.skip(1).push(waited)
            } else {
                old(self)@.samples.push(waited)
            }),
    {
        if waited <= 0 || waited >= INFINITE_COORDINATE {
            return;
        }
        let ghost before = self.samples@;
        if self.samples.len() >= MANGA_TTV_SAMPLE_CAP {
            let _ = self.samples.remove(0);
            assert(self.samples@ =~= before.skip(1));
        }
        self.samples.push(waited);
    }

    /// Forgets pages that have waited so long that they are no longer in view.
    pub fn manga_prune_ttv_pending(&mut self, now: u64)
        requires
            old(self).wf(),
        ensures
            final(self).wf(),
            final(self)@.samples == old(self)@.samples,
            forall|page: usize| #[trigger]
                final(self)@.pending.contains_key(page) <==> old(self)@.pending.contains_key(page)
                    && age(old(self)@.pending[page], now) <= MANGA_TTV_PENDING_MAX_AGE,
            forall|page: usize| #[trigger]
                final(self)@.pending.contains_key(page) ==> final(self)@.pending[page] == old(self)@.pending[page],
    {
        let ghost before = self@;
        let pages = self.pending.pages();
        let mut i: usize = 0;
        while i < pages.len()
            invariant
                i <= pages@.len(),
                self.wf(),
                self@.samples == before.samples,
                pages@.no_duplicates(),
                forall|page: usize| before.pending.contains_key(page) <==> #[trigger] pages@.contains(
                    page,
                ),
                forall|page: usize| #[trigger]
                    self@.pending.contains_key(page) <==> before.pending.contains_key(page) && (age(
                        before.pending[page],
                        now,
                    ) <= MANGA_TTV_PENDING_MAX_AGE || !pages@.take(i as int).contains(page)),
                forall|page: usize| #[trigger]
                    self@.pending.contains_key(page) ==> self@.pending[page] == before.pending[page],
            decreases pages@.len() - i,
        {
            let page: usize = pages[i];
            let ghost held = self@;
            let ghost done = pages@.take(i as int);
            let ghost longer = pages@.take(i + 1);
            proof {
                assert(pages@.contains(page));
                assert(longer =~= done.push(page));
                if done.contains(page) {
                    let k = choose|k: int| 0 <= k < i && done[k] == page;
                    assert(pages@[k] == pages@[i as int]);
                }
                assert(before.pending.contains_key(page));
                assert(held.pending.contains_key(page));
            }
            let old_enough = match self.pending.get(page) {
                Some(start) => now.saturating_sub(*start) > MANGA_TTV_PENDING_MAX_AGE,
                None => false,
            };
            if old_enough {
                let _ = self.pending.remove(page);
            }
            proof {
                assert forall|p: usize| #[trigger] self@.pending.contains_key(p) <==> (
                before.pending.contains_key(p) && (age(before.pending[p], now)
                    <= MANGA_TTV_PENDING_MAX_AGE || !longer.contains(p))) by {
                    assert(held.pending.contains_key(p) <==> before.pending.contains_key(p) && (age(
                        before.pending[p],
                        now,
                    ) <= MANGA_TTV_PENDING_MAX_AGE || !done.contains(p)));
                    assert(longer.contains(p) <==> done.contains(p) || p == page) by {
                        if done.contains(p) {
                            let k = choose|k: int| 0 <= k < i && done[k] == p;
                            assert(longer[k] == p);
                        }
                        if p == page {
                            assert(longer[i as int] == p);
                        }
                        if longer.contains(p) {
                            let k = choose|k: int| 0 <= k < i + 1 && longer[k] == p;
                            if k < i {
                                assert(done[k] == p);
                            }
                        }
                    }
                }
            }
            i = i + 1;
        }
        assert(pages@.take(i as int) =~= pages@);
        proof {
            assert forall|page: usize| #[trigger] self@.pending.contains_key(page) <==> (
            before.pending.contains_key(page) && age(before.pending[page], now)
                <= MANGA_TTV_PENDING_MAX_AGE) by {
                if before.pending.contains_key(page) {
                    assert(pages@.contains(page));
                }
            }
        }
    }

    /// The median of the waiting times, the time that one in twenty exceeds, and
    /// how many there are.
    pub fn manga_ttv_percentiles(&self) -> (percentiles: Option<(Coordinate, Coordinate, usize)>)
        requires
            self.wf(),
        ensures
            percentiles is None <==> self@.samples.len() == 0,
            percentiles matches Some((median, high, count)) ==> {
                &&& count == self@.samples.len()
                &&& has_rank(self@.samples, median_rank(count as int), median)
                &&& has_rank(self@.samples, high_rank(count as int), high)
            },
    {
        if self.samples.len() == 0 {
            return None;
        }
        let sorted = sort_samples(&self.samples);
        let n: usize = sorted.len();
        let median: usize = n / 2;
        let high: usize = ((n - 1) * 95 + 50) / 100;
        assert(sorted_samples(sorted@));
        Some((sorted[median], sorted[high], n))
    }
}

/// The rank of the median: half of the largest rank, rounded up.
pub open spec fn median_rank(count: int) -> int {
    count / 2
}

/// The rank that nineteen in twenty samples do not exceed: that share of the
/// largest rank, rounded to the nearest.
pub open spec fn high_rank(count: int) -> int {
    ((count - 1) * 95 + 50) / 100
}

/// What decides how many pictures are uploaded at a time.
pub struct UploadPressure {
    pub masonry_mode: bool,
    pub zoom: Coordinate,
    pub pending_loads: usize,
    pub pending_decoded: usize,
    /// How many visible pages wait for their picture.
    pub waiting_pages: usize,
}

pub open spec fn bonus(given: bool, amount: int) -> int {
    if given {
        amount
    } else {
        0
    }
}

impl UploadPressure {
    /// How many pictures ought to be uploaded at a time.
    pub open spec fn wanted(self) -> int {
        MANGA_UPLOAD_BATCH_BASE + bonus(self.masonry_mode, 2) + bonus(self.zoom <= ZOOM_75, 2) + bonus(
            self.zoom <= ZOOM_50,
            2,
        ) + bonus(self.pending_decoded >= 8, 2) + bonus(self.pending_decoded >= 16, 2) + bonus(
            self.pending_loads >= 24,
            1,
        ) + bonus(self.waiting_pages >= 8, 2)
    }
}

/// How many pictures are uploaded at a time.
pub fn manga_compute_upload_batch_limit(pressure: &UploadPressure) -> (limit: usize)
    ensures
        limit == (if pressure.wanted() > MANGA_UPLOAD_BATCH_MAX {
            MANGA_UPLOAD_BATCH_MAX as int
        } else {
            pressure.wanted()
        }),
        MANGA_UPLOAD_BATCH_MIN <= limit <= MANGA_UPLOAD_BATCH_MAX,
{
    let mut limit: usize = MANGA_UPLOAD_BATCH_BASE;
    if pressure.masonry_mode {
        limit = limit + 2;
    }
    if pressure.zoom <= ZOOM_75 {
        limit = limit + 2;
    }
    if pressure.zoom <= ZOOM_50 {
        limit = limit + 2;
    }
    if pressure.pending_decoded >= 8 {
        limit = limit + 2;
    }
    if pressure.pending_decoded >= 16 {
        limit = limit + 2;
    }
    if pressure.pending_loads >= 24 {
        limit = limit + 1;
    }
    if pressure.waiting_pages >= 8 {
        limit = limit + 2;
    }
    if limit > MANGA_UPLOAD_BATCH_MAX {
        MANGA_UPLOAD_BATCH_MAX
    } else {
        limit
    }
}

/// A page waits from the first time it is noticed: noticing it again does not make it
/// younger, and the other pages are not touched.
pub proof fn law_pages_wait_from_the_first_time(
    times: &mut TimeToView,
    manga_mode: bool,
    page: usize,
    now: u64,
    other: usize,
)
    requires
        call_ensures(
            TimeToView::manga_mark_placeholder_visible,
            (times, manga_mode, page, now),
            (),
        ),
    ensures
        final(times)@.pending.contains_key(page) <==> manga_mode || old(times)@.pending.contains_key(
            page,
        ),
        old(times)@.pending.contains_key(page) ==> final(times)@.pending[page] == old(times)@.pending[page],
        manga_mode && !old(times)@.pending.contains_key(page) ==> final(times)@.pending[page] == now,
        other != page ==> final(times)@.pending.contains_key(other) == old(times)@.pending.contains_key(other),
        other != page && old(times)@.pending.contains_key(other) ==> final(times)@.pending[other]
            == old(times)@.pending[other],
        final(times)@.samples == old(times)@.samples,
{
}

/// A page that is shown no longer waits, and is told since when it did.
pub proof fn law_shown_pages_stop_waiting(
    times: &mut TimeToView,
    page: usize,
    since: Option<u64>,
    other: usize,
)
    requires
        call_ensures(TimeToView::page_shown, (times, page), since),
    ensures
        !final(times)@.pending.contains_key(page),
        since is Some <==> old(times)@.pending.contains_key(page),
        since matches Some(start) ==> start == old(times)@.pending[page],
        other != page ==> final(times)@.pending.contains_key(other) == old(times)@.pending.contains_key(other),
        final(times)@.samples == old(times)@.samples,
{
}

/// A time that is remembered is the last of the samples, no other is changed, and at
/// most 240 are kept, the oldest leaving first.
pub proof fn law_latest_waiting_times_are_kept(times: &mut TimeToView, waited: Coordinate, i: int)
    requires
        call_ensures(TimeToView::manga_record_ttv_sample, (times, waited), ()),
        old(times)@.samples.len() <= 240,
    ensures
        final(times)@.samples.len() <= 240,
        final(times)@.pending == old(times)@.pending,
        0 < waited < 0x7f80_0000 ==> final(times)@.samples.last() == waited,
        0 < waited < 0x7f80_0000 && old(times)@.samples.len() < 240 ==> final(times)@.samples.len()
            == old(times)@.samples.len() + 1,
        0 < waited < 0x7f80_0000 && old(times)@.samples.len() < 240 && 0 <= i < old(times)@.samples.len() ==> final(times)@.samples[i] == old(times)@.samples[i],
        0 < waited < 0x7f80_0000 && old(times)@.samples.len() == 240 && 0 < i < 240 ==> final(times)@.samples[i - 1] == old(times)@.samples[i],
        !(0 < waited < 0x7f80_0000) ==> final(times)@.samples == old(times)@.samples,
{
}

/// A page is given up exactly when it has waited for more than half a minute.
pub proof fn law_old_waits_are_given_up(times: &mut TimeToView, now: u64, page: usize)
    requires
        call_ensures(TimeToView::manga_prune_ttv_pending, (times, now), ()),
        old(times)@.pending.contains_key(page),
    ensures
        final(times)@.pending.contains_key(page) <==> now <= old(times)@.pending[page]
            + 30_000_000_000,
        final(times)@.pending.contains_key(page) ==> final(times)@.pending[page] == old(times)@.pending[page],
        final(times)@.samples == old(times)@.samples,
{
}

/// The median is one of the waiting times, and so is the high mark.
pub proof fn law_percentiles_are_waiting_times(
    times: &TimeToView,
    median: Coordinate,
    high: Coordinate,
    count: usize,
)
    requires
        call_ensures(TimeToView::manga_ttv_percentiles, (times,), Some((median, high, count))),
    ensures
        count == times@.samples.len(),
        times@.samples.contains(median),
        times@.samples.contains(high),
{
    law_ranked_samples_are_samples(times@.samples, median_rank(count as int), median);
    law_ranked_samples_are_samples(times@.samples, high_rank(count as int), high);
}

/// What has a rank among the samples is one of them.
pub proof fn law_ranked_samples_are_samples(samples: Seq<Coordinate>, rank: int, value: Coordinate)
    requires
        has_rank(samples, rank, value),
    ensures
        samples.contains(value),
{
    let sorted = choose|sorted: Seq<Coordinate>| #[trigger]
        sorted_samples(sorted) && sorted.to_multiset() == samples.to_multiset() && 0 <= rank
            < sorted.len() && sorted[rank] == value;
    sorted.to_multiset_ensures();
    samples.to_multiset_ensures();
    assert(sorted.contains(value));
    assert(samples.to_multiset().contains(value));
}

/// The rank of the median has as many ranks below it as above, or one more; the high
/// rank is the nearest to nineteen twentieths of the way to the largest.
pub proof fn law_ranks_divide_the_samples(count: int)
    requires
        count > 0,
    ensures
        0 <= median_rank(count) < count,
        0 <= high_rank(count) < count,
        median_rank(count) <= high_rank(count),
        0 <= median_rank(count) - (count - 1 - median_rank(count)) <= 1,
        -10 <= 20 * high_rank(count) - 19 * (count - 1) <= 10,
{
}

/// More to do never makes a batch smaller, and a batch holds four pictures at least and
/// twelve at most.
pub proof fn law_pressure_makes_batches_larger(
    less: &UploadPressure,
    more: &UploadPressure,
    small: usize,
    large: usize,
)
    requires
        call_ensures(manga_compute_upload_batch_limit, (less,), small),
        call_ensures(manga_compute_upload_batch_limit, (more,), large),
        less.masonry_mode ==> more.masonry_mode,
        more.zoom <= less.zoom,
        less.pending_loads <= more.pending_loads,
        less.pending_decoded <= more.pending_decoded,
        less.waiting_pages <= more.waiting_pages,
    ensures
        4 <= small <= large <= 12,
{
}

/// What each cause adds to a batch that is not full.
pub proof fn law_batches_grow_by_their_causes(
    calm: &UploadPressure,
    pressed: &UploadPressure,
    small: usize,
    large: usize,
)
    requires
        call_ensures(manga_compute_upload_batch_limit, (calm,), small),
        call_ensures(manga_compute_upload_batch_limit, (pressed,), large),
        !calm.masonry_mode && calm.zoom > ZOOM_75 && calm.pending_decoded < 8 && calm.pending_loads
            < 24 && calm.waiting_pages < 8,
    ensures
        small == 4,
        pressed.masonry_mode ==> large >= 6,
        pressed.zoom <= ZOOM_75 ==> large >= 6,
        pressed.zoom <= ZOOM_50 ==> large >= 8,
        pressed.pending_decoded >= 8 ==> large >= 6,
        pressed.pending_decoded >= 16 ==> large >= 8,
        pressed.pending_loads >= 24 ==> large >= 5,
        pressed.waiting_pages >= 8 ==> large >= 6,
        *pressed == (UploadPressure { masonry_mode: true, ..*calm }) ==> large == 6,
        pressed.zoom > ZOOM_50 && *pressed == (UploadPressure { zoom: pressed.zoom, ..*calm })
            ==> large <= 6,
        pressed.pending_decoded < 16 && *pressed == (UploadPressure {
            pending_decoded: pressed.pending_decoded,
            ..*calm
        }) ==> large <= 6,
        *pressed == (UploadPressure { pending_loads: pressed.pending_loads, ..*calm }) ==> large <= 5,
        *pressed == (UploadPressure { waiting_pages: pressed.waiting_pages, ..*calm }) ==> large <= 6,
        pressed.pending_decoded < 8 && pressed.pending_loads < 24 && pressed.waiting_pages < 8
            && pressed.zoom > ZOOM_75 && !pressed.masonry_mode ==> large == 4,
{
}

/// Forgetting the pages that wait keeps the waiting times.
pub proof fn law_forgotten_waits_keep_their_times(times: &mut TimeToView, page: usize)
    requires
        call_ensures(TimeToView::clear_pending, (times,), ()),
    ensures
        !final(times)@.pending.contains_key(page),
        final(times)@.samples == old(times)@.samples,
{
}

} // verus!
