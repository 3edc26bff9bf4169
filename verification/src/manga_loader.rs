//! Loading of page pictures and page dimensions in the background.
//!
//! The loader decides which pages are to be decoded, in which order and how large,
//! hands the requests to worker threads, and keeps the book on what is being
//! decoded, what has been decoded and what has to be tried again.

use crate::channel::{
    bounded, decoded_len, decoded_queue, decoded_room, dimension_len, dimension_queue, dimension_room,
    is_send_run, law_unrefused_run_takes_all, taken, try_recv, try_send, SendOutcome,
};
use crate::load_book::{
    order_requests, ordered_by_priority, ordered_through, LoadBook, LoadBookState,
};
use crate::metadata_record::CachedMediaKind;
use crate::page_map::PageMap;
use crate::scaling::ResizeFilter;
use vstd::prelude::*;

pub use crate::texture_cache::{MangaTextureCache, MangaTextureEntry};

verus! {

/// How many decoded pictures wait for their upload at most.
pub const MAX_PENDING_UPLOADS: usize = 128;

/// How many urgent requests wait at most.
pub const URGENT_REQUEST_QUEUE_CAPACITY: usize = 128;

pub const REQUEST_QUEUE_CAPACITY: usize = 256;

pub const DIMENSION_QUEUE_CAPACITY: usize = 64;

/// How many screens are preloaded in the direction of scrolling, and against it.
pub const PRELOAD_LOOK_AHEAD_MULTIPLIER: usize = 2;

pub const PRELOAD_LOOK_BEHIND_MULTIPLIER: usize = 1;

pub const MIN_PRELOAD_AHEAD: usize = 12;

pub const MIN_PRELOAD_BEHIND: usize = 6;

pub const MAX_PRELOAD_AHEAD: usize = 256;

pub const MAX_PRELOAD_BEHIND: usize = 128;

/// A move by more pages than this is a jump.
pub const LARGE_JUMP_INDEX_THRESHOLD: usize = 32;

/// How many pages one request for dimensions names at most.
pub const DIM_REQUEST_BATCH_SIZE: usize = 64;

/// How many dimensions one result carries at most.
pub const DIM_RESULT_CHUNK_SIZE: usize = 64;

/// How many pages get their dimensions before the first layout.
pub const INITIAL_CACHE_COUNT: usize = 30;

/// How many requests are decoded together at most.
pub const DECODE_BATCH_SIZE: usize = 32;

pub const PRELOAD_RETRY_BASE_DELAY_MS: u64 = 250;

pub const PRELOAD_RETRY_MAX_DELAY_MS: u64 = 4000;

pub const PRELOAD_RETRY_MAX_ATTEMPTS: u8 = 3;

pub const NANOS_PER_MILLI: u64 = 1_000_000;

/// The priority of the page that was jumped to.
pub const JUMP_PRIORITY: i32 = -100_000;

/// The priority of a visible page without a texture.
pub const VISIBLE_RETRY_PRIORITY: i32 = -200_000;

/// What pages against the direction of scrolling are set back by.
pub const AGAINST_SCROLL_PENALTY: i32 = 10;

/// What kind of media a page of the strip shows.
#[derive(Clone, Copy, Debug, PartialEq, Eq, Structural)]
pub enum MangaMediaType {
    /// A single still image.
    StaticImage,
    /// An animated image, such as a GIF or an animated WebP.
    AnimatedImage,
    /// A video, shown by its first frame until it plays.
    Video,
}

/// What kind of file a page comes from, by its name.
#[derive(Clone, Copy, Debug, PartialEq, Eq, Structural)]
pub enum PageKind {
    Image,
    Video,
    /// Neither an image nor a video that can be shown.
    Unsupported,
}

/// A page: the file that it comes from.
pub struct PageSource {
    pub path: String,
    pub kind: PageKind,
}

/// The dimensions of a page and what it shows.
#[derive(Clone, Copy, Debug, PartialEq, Eq, Structural)]
pub struct PageDimensions {
    pub width: u32,
    pub height: u32,
    pub media_type: MangaMediaType,
}

/// A picture that is ready for its upload.  Times are in nanoseconds.
pub struct DecodedImage {
    pub index: usize,
    pub pixels: Vec<u8>,
    pub width: u32,
    pub height: u32,
    /// The dimensions of the file, which the picture may have been scaled down from.
    pub original_width: u32,
    pub original_height: u32,
    pub media_type: MangaMediaType,
    /// The side that the picture was decoded for.
    pub requested_side: u32,
    pub queue_wait: u64,
    pub decode_time: u64,
    pub resize_time: u64,
}

/// A request to decode a page.
pub struct LoadRequest {
    /// Requests of an earlier generation are passed over.
    pub generation: usize,
    pub index: usize,
    pub path: String,
    pub max_texture_side: u32,
    pub target_texture_side: u32,
    pub downscale_filter: ResizeFilter,
    pub gif_filter: ResizeFilter,
    /// Requests with lower numbers come first.
    pub priority: i32,
    /// When the request was made, in nanoseconds of program time.
    pub queued_at: u64,
}

/// A request to find out dimensions.
pub struct DimRequest {
    pub generation: usize,
    pub items: Vec<(usize, String)>,
}

/// Dimensions that were found out.
pub struct DimResult {
    pub generation: usize,
    pub items: Vec<(usize, PageDimensions)>,
}

/// How often decoding a page failed, and when it may be tried again.
#[derive(Clone, Copy, Debug, PartialEq, Eq, Structural)]
pub struct RetryState {
    pub attempts: u8,
    /// In nanoseconds of program time.
    pub next_retry_at: u64,
}

impl RetryState {
    /// The page may be tried again.
    pub open spec fn open(self, now: u64) -> bool {
        self.attempts < PRELOAD_RETRY_MAX_ATTEMPTS && now >= self.next_retry_at
    }

    pub fn is_open(&self, now: u64) -> (open: bool)
        ensures
            open == self.open(now),
    {
        self.attempts < PRELOAD_RETRY_MAX_ATTEMPTS && now >= self.next_retry_at
    }
}

/// How many pictures came in and how many are on their way.
#[derive(Clone, Copy, Debug)]
pub struct LoaderStats {
    pub images_loaded: usize,
    pub images_pending: usize,
}

impl Default for LoaderStats {
    fn default() -> (stats: Self)
        ensures
            stats == (LoaderStats { images_loaded: 0, images_pending: 0 }),
    {
        LoaderStats { images_loaded: 0, images_pending: 0 }
    }
}

/// How long to wait after a number of failures, in milliseconds: a quarter of a
/// second, twice that after each further failure, and four seconds at most.
pub open spec fn backoff_ms(attempts: u8) -> u64 {
    if attempts <= 1 {
        250
    } else if attempts == 2 {
        500
    } else if attempts == 3 {
        1000
    } else if attempts == 4 {
        2000
    } else {
        4000
    }
}

/// How long to wait after a number of failures, in milliseconds.
pub fn retry_backoff_for_attempt(attempts: u8) -> (delay_ms: u64)
    ensures
        delay_ms == backoff_ms(attempts),
{
    let mut delay: u64 = PRELOAD_RETRY_BASE_DELAY_MS;
    let doublings: u8 = if attempts <= 1 {
        0
    } else if attempts - 1 > 6 {
        6
    } else {
        attempts - 1
    };
    let mut i: u8 = 0;
    while i < doublings
        invariant
            i <= doublings <= 6,
            i == 0 ==> delay == 250,
            i == 1 ==> delay == 500,
            i == 2 ==> delay == 1000,
            i == 3 ==> delay == 2000,
            i == 4 ==> delay == 4000,
            i == 5 ==> delay == 8000,
            i == 6 ==> delay == 16000,
        decreases doublings - i,
    {
        delay = delay * 2;
        i = i + 1;
    }
    if delay > PRELOAD_RETRY_MAX_DELAY_MS {
        PRELOAD_RETRY_MAX_DELAY_MS
    } else {
        delay
    }
}

/// More failures never mean a shorter wait.
pub proof fn law_backoff_grows(fewer: u8, more: u8)
    requires
        fewer <= more,
    ensures
        backoff_ms(fewer) <= backoff_ms(more) <= PRELOAD_RETRY_MAX_DELAY_MS,
{
}

/// The sides that pictures are decoded for.  A picture is decoded for the next
/// larger one of these, so that small changes of size do not decode it anew.
pub const LOD_SIDE_BUCKETS: [u32; 12] = [
    96,
    128,
    192,
    256,
    384,
    512,
    768,
    1024,
    1536,
    2048,
    3072,
    4096,
];

/// The first of the decoding sides from number `i` on that is not below `target`
/// and not above `most`; `most` if there is none.
pub open spec fn bucket_from(target: u32, most: u32, i: int) -> u32
    decreases 12 - i,
{
    if i < 0 || i >= 12 {
        most
    } else if target <= LOD_SIDE_BUCKETS@[i] <= most {
        LOD_SIDE_BUCKETS@[i]
    } else {
        bucket_from(target, most, i + 1)
    }
}

/// The largest side allowed; one at least.
pub open spec fn side_limit(max_texture_side: u32) -> u32 {
    if max_texture_side < 1 {
        1
    } else {
        max_texture_side
    }
}

/// The side that is wanted, as far as it is allowed.
pub open spec fn side_target(target_texture_side: u32, max_texture_side: u32) -> u32 {
    if target_texture_side < 1 {
        1
    } else if target_texture_side > side_limit(max_texture_side) {
        side_limit(max_texture_side)
    } else {
        target_texture_side
    }
}

/// What a wanted side is rounded to: the next decoding side, or the largest side
/// allowed where there is none.
pub open spec fn quantized_side(target_texture_side: u32, max_texture_side: u32) -> u32 {
    bucket_from(
        side_target(target_texture_side, max_texture_side),
        side_limit(max_texture_side),
        0,
    )
}

/// What a wanted side is rounded to.
pub fn quantize_target_texture_side(target_texture_side: u32, max_texture_side: u32) -> (side: u32)
    ensures
        side == quantized_side(target_texture_side, max_texture_side),
{
    let most: u32 = if max_texture_side < 1 {
        1
    } else {
        max_texture_side
    };
    let target: u32 = if target_texture_side < 1 {
        1
    } else if target_texture_side > most {
        most
    } else {
        target_texture_side
    };
    let mut i: usize = 0;
    while i < LOD_SIDE_BUCKETS.len()
        invariant
            i <= 12,
            most == side_limit(max_texture_side),
            target == side_target(target_texture_side, max_texture_side),
            bucket_from(target, most, 0) == bucket_from(target, most, i as int),
        decreases 12 - i,
    {
        let bucket: u32 = LOD_SIDE_BUCKETS[i];
        if bucket >= target && bucket <= most {
            return bucket;
        }
        i = i + 1;
    }
    most
}

proof fn lemma_bucket_from(target: u32, most: u32, i: int)
    requires
        target <= most,
        0 <= i <= 12,
    ensures
        target <= bucket_from(target, most, i) <= most,
        forall|k: int|
            i <= k < 12 && target <= #[trigger] LOD_SIDE_BUCKETS@[k] <= most ==> bucket_from(
                target,
                most,
                i,
            ) <= LOD_SIDE_BUCKETS@[k],
        bucket_from(target, most, i) == most || exists|k: int|
            i <= k < 12 && #[trigger] LOD_SIDE_BUCKETS@[k] == bucket_from(target, most, i),
    decreases 12 - i,
{
    if i < 12 {
        if target <= LOD_SIDE_BUCKETS@[i] <= most {
            lemma_buckets_ascend(i);
        } else {
            lemma_bucket_from(target, most, i + 1);
        }
    }
}

proof fn lemma_buckets_ascend(i: int)
    requires
        0 <= i < 12,
    ensures
        forall|k: int| i <= k < 12 ==> LOD_SIDE_BUCKETS@[i] <= #[trigger] LOD_SIDE_BUCKETS@[k],
{
}

/// Sides are rounded up, to the nearest decoding side that is allowed, and never
/// above what is allowed.
pub proof fn law_sides_round_up(target: u32, most: u32, bucket: int)
    requires
        1 <= target <= most,
        0 <= bucket < 12,
    ensures
        target <= quantized_side(target, most) <= most,
        target <= LOD_SIDE_BUCKETS@[bucket] <= most ==> quantized_side(target, most)
            <= LOD_SIDE_BUCKETS@[bucket],
        LOD_SIDE_BUCKETS@.contains(quantized_side(target, most)) || quantized_side(target, most)
            == most,
{
    lemma_bucket_from(target, most, 0);
    if quantized_side(target, most) != most {
        let k = choose|k: int|
            0 <= k < 12 && #[trigger] LOD_SIDE_BUCKETS@[k] == quantized_side(target, most);
        assert(LOD_SIDE_BUCKETS@.contains(LOD_SIDE_BUCKETS@[k]));
    }
}

/// A side that was rounded stays as it is.
pub proof fn law_rounding_is_stable(target: u32, most: u32)
    ensures
        quantized_side(quantized_side(target, most), most) == quantized_side(target, most),
{
    let limit = side_limit(most);
    let wanted = side_target(target, most);
    let side = quantized_side(target, most);
    lemma_bucket_from(wanted, limit, 0);
    lemma_bucket_from(side, limit, 0);
    if side != limit {
        let k = choose|k: int| 0 <= k < 12 && #[trigger] LOD_SIDE_BUCKETS@[k] == side;
        assert(side <= LOD_SIDE_BUCKETS@[k] <= limit);
    }
}

/// What the loader knows.
pub struct LoaderState {
    pub book: LoadBookState,
    /// The dimensions that are known.
    pub dimensions: Map<usize, PageDimensions>,
    /// The pages whose dimensions are being found out.
    pub probing: Set<usize>,
    /// The last move went towards the end of the strip.
    pub scrolling_down: bool,
    pub last_visible: usize,
    /// The present generation of requests.
    pub generation: usize,
    pub stats: LoaderStats,
    /// How many pages are visible.
    pub visible_pages: usize,
    /// How many pages fill the view of a long strip, in halves of a page.
    pub strip_halves: Option<usize>,
}

/// How pages are to be decoded.
pub struct LoadTarget {
    pub max_texture_side: u32,
    pub target_texture_side: u32,
    pub downscale_filter: ResizeFilter,
    pub gif_filter: ResizeFilter,
    /// Resample with the triangle filter whatever the other filters are.
    pub force_triangle_filters: bool,
}

impl LoadTarget {
    pub open spec fn request_downscale_filter(self) -> ResizeFilter {
        if self.force_triangle_filters {
            ResizeFilter::Triangle
        } else {
            self.downscale_filter
        }
    }

    pub open spec fn request_gif_filter(self) -> ResizeFilter {
        if self.force_triangle_filters {
            ResizeFilter::Triangle
        } else {
            self.gif_filter
        }
    }
}

pub open spec fn clamp_count(value: int, low: int, high: int) -> int {
    if value < low {
        low
    } else if value > high {
        high
    } else {
        value
    }
}

pub open spec fn distance(a: usize, b: usize) -> int {
    if a < b {
        b - a
    } else {
        a - b
    }
}

/// The generation after `generation`.
pub open spec fn next_generation(generation: usize) -> usize {
    if generation == usize::MAX {
        0
    } else {
        (generation + 1) as usize
    }
}

impl LoaderState {
    /// How many pages are preloaded in the direction of scrolling and against it.
    pub open spec fn preload_counts(self) -> (int, int) {
        match self.strip_halves {
            Some(halves) => (
                clamp_count(halves as int, 2, MAX_PRELOAD_AHEAD as int),
                clamp_count((halves + 1) / 2, 1, MAX_PRELOAD_BEHIND as int),
            ),
            None => (
                clamp_count(
                    2 * self.visible_pages,
                    MIN_PRELOAD_AHEAD as int,
                    MAX_PRELOAD_AHEAD as int,
                ),
                clamp_count(
                    self.visible_pages as int,
                    MIN_PRELOAD_BEHIND as int,
                    MAX_PRELOAD_BEHIND as int,
                ),
            ),
        }
    }

    /// The first page of the window around `visible` that is preloaded.
    pub open spec fn window_start(self, visible: usize) -> int {
        let behind = if self.scrolling_down {
            self.preload_counts().1
        } else {
            self.preload_counts().0
        };
        if visible < behind {
            0
        } else {
            visible - behind
        }
    }

    /// The end of the window around `visible` that is preloaded.
    pub open spec fn window_end(self, visible: usize, page_count: int) -> int {
        let ahead = if self.scrolling_down {
            self.preload_counts().0
        } else {
            self.preload_counts().1
        };
        if visible + ahead + 1 < page_count {
            visible + ahead + 1
        } else {
            page_count
        }
    }

    /// The side that a page is decoded for: never more than the page has.
    pub open spec fn page_side(self, page: usize, target: u32, most: u32) -> u32 {
        let side = quantized_side(target, most);
        if self.dimensions.contains_key(page) {
            let d = self.dimensions[page];
            let longer = if d.width > d.height {
                d.width
            } else {
                d.height
            };
            let own = if longer < 1 {
                1
            } else {
                longer
            };
            if side < own {
                side
            } else {
                own
            }
        } else {
            side
        }
    }

    /// The page is to be asked for.
    pub open spec fn wants(
        self,
        pages: Seq<PageSource>,
        page: int,
        target: LoadTarget,
        now: u64,
    ) -> bool {
        &&& pages[page].kind != PageKind::Unsupported
        &&& !self.book.is_loading(page as usize, self.generation)
        &&& !self.book.is_loaded(
            page as usize,
            self.page_side(page as usize, target.target_texture_side, target.max_texture_side),
        )
        &&& !self.book.is_held_back(page as usize, now)
    }

    /// The pages from `start` up to `end` that are to be asked for.
    pub open spec fn wanted_pages(
        self,
        pages: Seq<PageSource>,
        start: int,
        end: int,
        target: LoadTarget,
        now: u64,
    ) -> Seq<int>
        decreases end - start,
    {
        if end <= start {
            Seq::empty()
        } else {
            let before = self.wanted_pages(pages, start, end - 1, target, now);
            if self.wants(pages, end - 1, target, now) {
                before.push(end - 1)
            } else {
                before
            }
        }
    }

    /// How urgent a page is: near pages come first, and those in the direction of
    /// scrolling before those against it.  After a jump its goal precedes all.
    pub open spec fn page_priority(self, page: int, visible: usize, jump: bool) -> int {
        if jump && page == visible {
            JUMP_PRIORITY as int
        } else {
            distance(page as usize, visible) + (if self.scrolling_down {
                if page > visible {
                    0
                } else {
                    AGAINST_SCROLL_PENALTY as int
                }
            } else {
                if page < visible {
                    0
                } else {
                    AGAINST_SCROLL_PENALTY as int
                }
            })
        }
    }

    /// `request` asks for `page`.
    pub open spec fn asks_for(
        self,
        request: LoadRequest,
        pages: Seq<PageSource>,
        page: int,
        target: LoadTarget,
        priority: int,
        now: u64,
    ) -> bool {
        &&& request.generation == self.generation
        &&& request.index == page
        &&& request.path@ == pages[page].path@
        &&& request.max_texture_side == target.max_texture_side
        &&& request.target_texture_side == self.page_side(
            page as usize,
            target.target_texture_side,
            target.max_texture_side,
        )
        &&& request.downscale_filter == target.request_downscale_filter()
        &&& request.gif_filter == target.request_gif_filter()
        &&& request.priority == priority
        &&& request.queued_at == now
    }

    /// `plan` asks for the wanted pages around `visible`, in page order.
    pub open spec fn plans(
        self,
        plan: Seq<LoadRequest>,
        pages: Seq<PageSource>,
        visible: usize,
        jump: bool,
        target: LoadTarget,
        now: u64,
    ) -> bool {
        let wanted = self.wanted_pages(
            pages,
            self.window_start(visible),
            self.window_end(visible, pages.len() as int),
            target,
            now,
        );
        &&& plan.len() == wanted.len()
        &&& forall|k: int|
            0 <= k < plan.len() ==> self.asks_for(
                #[trigger] plan[k],
                pages,
                wanted[k],
                target,
                self.page_priority(wanted[k], visible, jump),
                now,
            )
    }

    /// The first `count` requests were handed out.
    pub open spec fn started(self, requests: Seq<LoadRequest>, count: int) -> LoadBookState
        decreases count,
    {
        if count <= 0 {
            self.book
        } else {
            let before = self.started(requests, count - 1);
            LoadBookState {
                loading: before.loading.insert(requests[count - 1].index, self.generation),
                ..before
            }
        }
    }

    /// The loader after the request for a page was handed to a queue with the given
    /// outcome.
    pub open spec fn after_load_request(self, page: usize, outcome: SendOutcome) -> Self {
        match outcome {
            SendOutcome::Sent => LoaderState {
                book: LoadBookState {
                    loading: self.book.loading.insert(page, self.generation),
                    ..self.book
                },
                ..self
            },
            SendOutcome::Full | SendOutcome::Disconnected => self,
        }
    }

    /// The loader after the view moved to `visible`.
    pub open spec fn moved(self, visible: usize) -> Self {
        LoaderState {
            scrolling_down: if visible > self.last_visible {
                true
            } else if visible < self.last_visible {
                false
            } else {
                self.scrolling_down
            },
            last_visible: visible,
            ..self
        }
    }

    /// The view moved so far that older requests are of no use.
    pub open spec fn is_jump(self, visible: usize) -> bool {
        distance(visible, self.last_visible) > LARGE_JUMP_INDEX_THRESHOLD
    }

    /// The loader after all requests were cancelled, where the pictures of the
    /// pages in `drained` were thrown away before they were uploaded.
    pub open spec fn cancelled(self, drained: Set<usize>) -> Self {
        LoaderState {
            book: LoadBookState {
                loading: Map::empty(),
                loaded: self.book.loaded.remove_keys(drained),
                retry: self.book.retry.remove_keys(drained),
            },
            probing: Set::empty(),
            generation: next_generation(self.generation),
            stats: LoaderStats { images_pending: 0, ..self.stats },
            ..self
        }
    }

    /// The loader after it was cleared.
    pub open spec fn cleared(self, preserve_dimensions: bool) -> Self {
        LoaderState {
            book: LoadBookState::empty(),
            dimensions: if preserve_dimensions {
                self.dimensions
            } else {
                Map::empty()
            },
            probing: Set::empty(),
            generation: next_generation(self.generation),
            stats: LoaderStats { images_loaded: 0, images_pending: 0 },
            ..self
        }
    }
}

/// The loader of page pictures and page dimensions.
pub struct MangaLoader {
    request_tx: crossbeam_channel::Sender<LoadRequest>,
    urgent_request_tx: crossbeam_channel::Sender<LoadRequest>,
    result_rx: crossbeam_channel::Receiver<DecodedImage>,
    dim_request_tx: crossbeam_channel::Sender<DimRequest>,
    dim_background_request_tx: crossbeam_channel::Sender<DimRequest>,
    dim_result_rx: crossbeam_channel::Receiver<DimResult>,
    book: LoadBook,
    dimension_cache: PageMap<PageDimensions>,
    dim_pending: PageMap<()>,
    scrolling_down: bool,
    last_visible_index: usize,
    current_generation: usize,
    stats: LoaderStats,
    visible_page_count: usize,
    strip_halves: Option<usize>,
}

/// The ends of the loader's queues that its worker threads hold.
pub struct LoaderWorker {
    pub requests: crossbeam_channel::Receiver<LoadRequest>,
    pub urgent_requests: crossbeam_channel::Receiver<LoadRequest>,
    pub results: crossbeam_channel::Sender<DecodedImage>,
    pub dim_requests: crossbeam_channel::Receiver<DimRequest>,
    pub dim_background_requests: crossbeam_channel::Receiver<DimRequest>,
    pub dim_results: crossbeam_channel::Sender<DimResult>,
}

impl View for MangaLoader {
    type V = LoaderState;

    closed spec fn view(&self) -> LoaderState {
        LoaderState {
            book: self.book@,
            dimensions: self.dimension_cache@,
            probing: self.dim_pending@.dom(),
            scrolling_down: self.scrolling_down,
            last_visible: self.last_visible_index,
            generation: self.current_generation,
            stats: self.stats,
            visible_pages: self.visible_page_count,
            strip_halves: self.strip_halves,
        }
    }
}

impl MangaLoader {
    pub closed spec fn wf(&self) -> bool {
        &&& self.book.wf()
        &&& self.dimension_cache.wf()
        &&& self.dim_pending.wf()
        &&& decoded_room(self.result_rx) == MAX_PENDING_UPLOADS
        &&& dimension_room(self.dim_result_rx) == DIMENSION_QUEUE_CAPACITY
    }

    /// A loader that knows nothing yet, and what its worker threads need.
    pub fn new() -> (made: (MangaLoader, LoaderWorker))
        ensures
            made.0.wf(),
            made.0@ == (LoaderState {
                book: LoadBookState::empty(),
                dimensions: Map::empty(),
                probing: Set::empty(),
                scrolling_down: true,
                last_visible: 0,
                generation: 0,
                stats: LoaderStats { images_loaded: 0, images_pending: 0 },
                visible_pages: 1,
                strip_halves: None,
            }),
    {
        let (request_tx, requests) = bounded::<LoadRequest>(REQUEST_QUEUE_CAPACITY);
        let (urgent_request_tx, urgent_requests) = bounded::<LoadRequest>(
            URGENT_REQUEST_QUEUE_CAPACITY,
        );
        let (results, result_rx) = decoded_queue(MAX_PENDING_UPLOADS);
        let (dim_request_tx, dim_requests) = bounded::<DimRequest>(DIMENSION_QUEUE_CAPACITY);
        let (dim_background_request_tx, dim_background_requests) = bounded::<DimRequest>(
            DIMENSION_QUEUE_CAPACITY,
        );
        let (dim_results, dim_result_rx) = dimension_queue(DIMENSION_QUEUE_CAPACITY);
        let loader = MangaLoader {
            request_tx,
            urgent_request_tx,
            result_rx,
            dim_request_tx,
            dim_background_request_tx,
            dim_result_rx,
            book: LoadBook::new(),
            dimension_cache: PageMap::new(),
            dim_pending: PageMap::new(),
            scrolling_down: true,
            last_visible_index: 0,
            current_generation: 0,
            stats: LoaderStats::default(),
            visible_page_count: 1,
            strip_halves: None,
        };
        assert(loader@.probing =~= Set::empty());
        let worker = LoaderWorker {
            requests,
            urgent_requests,
            results,
            dim_requests,
            dim_background_requests,
            dim_results,
        };
        (loader, worker)
    }

    /// How many pages are preloaded in the direction of scrolling and against it.
    fn calculate_preload_counts(&self) -> (counts: (usize, usize))
        ensures
            counts.0 == self@.preload_counts().0,
            counts.1 == self@.preload_counts().1,
            counts.0 <= MAX_PRELOAD_AHEAD,
            counts.1 <= MAX_PRELOAD_BEHIND,
    {
        match self.strip_halves {
            Some(halves) => {
                let behind: usize = halves / 2 + halves % 2;
                (clamp(halves, 2, MAX_PRELOAD_AHEAD), clamp(behind, 1, MAX_PRELOAD_BEHIND))
            },
            None => {
                let ahead: usize = if self.visible_page_count > MAX_PRELOAD_AHEAD {
                    MAX_PRELOAD_AHEAD
                } else {
                    self.visible_page_count * PRELOAD_LOOK_AHEAD_MULTIPLIER
                };
                let behind: usize = if self.visible_page_count > MAX_PRELOAD_BEHIND {
                    MAX_PRELOAD_BEHIND
                } else {
                    self.visible_page_count * PRELOAD_LOOK_BEHIND_MULTIPLIER
                };
                (
                    clamp(ahead, MIN_PRELOAD_AHEAD, MAX_PRELOAD_AHEAD),
                    clamp(behind, MIN_PRELOAD_BEHIND, MAX_PRELOAD_BEHIND),
                )
            },
        }
    }

    /// Takes note of how much is visible: how many pages, and in a long strip how
    /// many halves of a page fill the view, rounded up.
    pub fn update_visible_page_count(&mut self, visible_page_count: usize, strip_halves: Option<usize>)
        requires
            old(self).wf(),
        ensures
            final(self).wf(),
            final(self)@ == (LoaderState {
                visible_pages: (if visible_page_count < 1 {
                    1
                } else {
                    visible_page_count
                }),
                strip_halves: (match strip_halves {
                    Some(halves) => Some(
                        if halves < 2 {
                            2
                        } else {
                            halves
                        },
                    ),
                    None => None,
                }),
                ..old(self)@
            }),
    {
        self.visible_page_count = if visible_page_count < 1 {
            1
        } else {
            visible_page_count
        };
        self.strip_halves = match strip_halves {
            Some(halves) => Some(
                if halves < 2 {
                    2
                } else {
                    halves
                },
            ),
            None => None,
        };
    }

    pub fn get_preload_ahead(&self) -> (count: usize)
        ensures
            count == self@.preload_counts().0,
    {
        self.calculate_preload_counts().0
    }

    pub fn get_preload_behind(&self) -> (count: usize)
        ensures
            count == self@.preload_counts().1,
    {
        self.calculate_preload_counts().1
    }

    /// The side that a page is decoded for.
    fn limit_target_texture_side_for_index(
        &self,
        page: usize,
        target_texture_side: u32,
        max_texture_side: u32,
    ) -> (side: u32)
        requires
            self.wf(),
        ensures
            side == self@.page_side(page, target_texture_side, max_texture_side),
    {
        let side: u32 = quantize_target_texture_side(target_texture_side, max_texture_side);
        match self.dimension_cache.get(page) {
            None => side,
            Some(d) => {
                let longer: u32 = if d.width > d.height {
                    d.width
                } else {
                    d.height
                };
                let own: u32 = if longer < 1 {
                    1
                } else {
                    longer
                };
                if side < own {
                    side
                } else {
                    own
                }
            },
        }
    }

    /// The requests for the pages around `visible_index`, in page order.
    pub fn plan_preload(
        &self,
        pages: &Vec<PageSource>,
        visible_index: usize,
        jump: bool,
        target: &LoadTarget,
        now: u64,
    ) -> (plan: Vec<LoadRequest>)
        requires
            self.wf(),
        ensures
            self@.plans(plan@, pages@, visible_index, jump, *target, now),
    {
        let counts = self.calculate_preload_counts();
        let (ahead, behind): (usize, usize) = if self.scrolling_down {
            (counts.0, counts.1)
        } else {
            (counts.1, counts.0)
        };
        let start: usize = visible_index.saturating_sub(behind);
        let reach: usize = visible_index.saturating_add(ahead).saturating_add(1);
        let end: usize = if reach < pages.len() {
            reach
        } else {
            pages.len()
        };
        assert(start == self@.window_start(visible_index));
        assert(end == self@.window_end(visible_index, pages@.len() as int));
        let mut plan: Vec<LoadRequest> = Vec::new();
        let mut page: usize = start;
        let ghost state = self@;
        proof {
            if start > end {
                assert(state.wanted_pages(pages@, start as int, end as int, *target, now)
                    =~= Seq::empty());
            }
        }
        while page < end
            invariant
                self.wf(),
                state == self@,
                start <= page,
                start <= end ==> page <= end,
                start > end ==> page == start,
                end <= pages@.len(),
                ahead <= MAX_PRELOAD_AHEAD,
                behind <= MAX_PRELOAD_AHEAD,
                end <= visible_index + ahead + 1,
                start >= visible_index - behind,
                plan@.len() == state.wanted_pages(
                    pages@,
                    start as int,
                    page as int,
                    *target,
                    now,
                ).len(),
                forall|k: int|
                    0 <= k < plan@.len() ==> state.asks_for(
                        #[trigger] plan@[k],
                        pages@,
                        state.wanted_pages(pages@, start as int, page as int, *target, now)[k],
                        *target,
                        state.page_priority(
                            state.wanted_pages(pages@, start as int, page as int, *target, now)[k],
                            visible_index,
                            jump,
                        ),
                        now,
                    ),
            decreases end - page,
        {
            let ghost wanted = state.wanted_pages(pages@, start as int, page as int, *target, now);
            let ghost longer = state.wanted_pages(pages@, start as int, page + 1, *target, now);
            let side: u32 = self.limit_target_texture_side_for_index(
                page,
                target.target_texture_side,
                target.max_texture_side,
            );
            let supported = match pages[page].kind {
                PageKind::Unsupported => false,
                _ => true,
            };
            if supported && !self.book.is_loading(page, self.current_generation)
                && !self.book.is_loaded(page, side) && !self.book.is_held_back(page, now) {
                let gap: usize = if page < visible_index {
                    visible_index - page
                } else {
                    page - visible_index
                };
                let towards = if self.scrolling_down {
                    page > visible_index
                } else {
                    page < visible_index
                };
                let priority: i32 = if jump && page == visible_index {
                    JUMP_PRIORITY
                } else if towards {
                    gap as i32
                } else {
                    gap as i32 + AGAINST_SCROLL_PENALTY
                };
                let request = LoadRequest {
                    generation: self.current_generation,
                    index: page,
                    path: pages[page].path.clone(),
                    max_texture_side: target.max_texture_side,
                    target_texture_side: side,
                    downscale_filter: if target.force_triangle_filters {
                        ResizeFilter::Triangle
                    } else {
                        target.downscale_filter
                    },
                    gif_filter: if target.force_triangle_filters {
                        ResizeFilter::Triangle
                    } else {
                        target.gif_filter
                    },
                    priority,
                    queued_at: now,
                };
                plan.push(request);
                assert(state.wants(pages@, page as int, *target, now));
                assert(longer =~= wanted.push(page as int));
            } else {
                assert(!state.wants(pages@, page as int, *target, now));
                assert(longer =~= wanted);
            }
            page = page + 1;
        }
        plan
    }
}

impl MangaLoader {
    /// Throws away the decoded pictures that wait for their upload, and names
    /// their pages.
    fn drain_decoded(&self) -> (pages: Vec<usize>) {
        let mut pages: Vec<usize> = Vec::new();
        let mut left: usize = usize::MAX;
        while left > 0
            decreases left,
        {
            match try_recv(&self.result_rx) {
                Some(decoded) => {
                    pages.push(decoded.index);
                },
                None => {
                    break;
                },
            }
            left = left - 1;
        }
        pages
    }

    /// Throws away the dimensions that were found out and not taken yet.
    fn drain_dimension_results(&self) {
        let mut left: usize = usize::MAX;
        while left > 0
            decreases left,
        {
            if try_recv(&self.dim_result_rx).is_none() {
                break;
            }
            left = left - 1;
        }
    }

    /// Cancels all requests, where the pictures of the given pages were thrown
    /// away.
    pub fn cancel_with_drained(&mut self, drained: &Vec<usize>)
        requires
            old(self).wf(),
        ensures
            final(self).wf(),
            final(self)@ == old(self)@.cancelled(drained@.to_set()),
    {
        let ghost before = self@;
        self.current_generation = self.current_generation.wrapping_add(1);
        self.book.clear_loading();
        let mut i: usize = 0;
        let ghost start = self@;
        proof {
            assert(start.book.loaded.remove_keys(drained@.take(0).to_set()) =~= start.book.loaded);
            assert(start.book.retry.remove_keys(drained@.take(0).to_set()) =~= start.book.retry);
        }
        while i < drained.len()
            invariant
                i <= drained@.len(),
                self.wf(),
                self@ == (LoaderState {
                    book: LoadBookState {
                        loading: start.book.loading,
                        loaded: start.book.loaded.remove_keys(drained@.take(i as int).to_set()),
                        retry: start.book.retry.remove_keys(drained@.take(i as int).to_set()),
                    },
                    ..start
                }),
            decreases drained@.len() - i,
        {
            let page: usize = drained[i];
            self.book.forget_loaded(page);
            self.book.forget_failures(page);
            proof {
                let done = drained@.take(i as int);
                let longer = drained@.take(i + 1);
                assert(longer =~= done.push(page));
                assert(longer.to_set() =~= done.to_set().insert(page)) by {
                    lemma_to_set_push(done, page);
                }
                assert(self@.book.loaded =~= start.book.loaded.remove_keys(longer.to_set()));
                assert(self@.book.retry =~= start.book.retry.remove_keys(longer.to_set()));
            }
            i = i + 1;
        }
        assert(drained@.take(i as int) =~= drained@);
        self.dim_pending.clear();
        self.stats.images_pending = 0;
        proof {
            assert(self@.probing =~= Set::empty());
            assert(self@.generation == next_generation(before.generation));
        }
    }

    /// Cancels all requests, so that no work is done for places that the view has
    /// left.
    pub fn cancel_pending_loads(&mut self)
        requires
            old(self).wf(),
        ensures
            final(self).wf(),
            exists|drained: Set<usize>| final(self)@ == #[trigger] old(self)@.cancelled(drained),
    {
        let drained = self.drain_decoded();
        self.drain_dimension_results();
        self.cancel_with_drained(&drained);
    }

    fn clear_with_dimension_policy(&mut self, preserve_dimensions: bool)
        requires
            old(self).wf(),
        ensures
            final(self).wf(),
            final(self)@ == old(self)@.cleared(preserve_dimensions),
    {
        self.current_generation = self.current_generation.wrapping_add(1);
        self.book.clear();
        if !preserve_dimensions {
            self.dimension_cache.clear();
        }
        self.dim_pending.clear();
        self.drain_dimension_results();
        let _ = self.drain_decoded();
        self.stats = LoaderStats::default();
        assert(self@.probing =~= Set::empty());
    }

    /// Forgets everything.
    pub fn clear(&mut self)
        requires
            old(self).wf(),
        ensures
            final(self).wf(),
            final(self)@ == old(self)@.cleared(false),
    {
        self.clear_with_dimension_policy(false);
    }

    /// Forgets everything but the dimensions.
    pub fn clear_preserving_dimensions(&mut self)
        requires
            old(self).wf(),
        ensures
            final(self).wf(),
            final(self)@ == old(self)@.cleared(true),
    {
        self.clear_with_dimension_policy(true);
    }

    fn move_to(&mut self, visible_index: usize)
        requires
            old(self).wf(),
        ensures
            final(self).wf(),
            final(self)@ == old(self)@.moved(visible_index),
    {
        if visible_index > self.last_visible_index {
            self.scrolling_down = true;
        } else if visible_index < self.last_visible_index {
            self.scrolling_down = false;
        }
        self.last_visible_index = visible_index;
    }

    /// Takes note of a move that was handled elsewhere, so that it does not count
    /// as a jump again.
    pub fn sync_external_visible_index(&mut self, visible_index: usize, cancel_pending: bool)
        requires
            old(self).wf(),
        ensures
            final(self).wf(),
            !cancel_pending ==> final(self)@ == old(self)@.moved(visible_index),
            cancel_pending ==> exists|drained: Set<usize>|
                final(self)@ == (#[trigger] old(self)@.cancelled(drained)).moved(visible_index),
    {
        if cancel_pending {
            self.cancel_pending_loads();
        }
        self.move_to(visible_index);
    }

    /// Takes note of what came of handing out the request for a page.  The page
    /// counts as being decoded only if the queue took the request.
    pub fn record_load_request(&mut self, page: usize, outcome: SendOutcome) -> (sent: bool)
        requires
            old(self).wf(),
        ensures
            final(self).wf(),
            sent == (outcome == SendOutcome::Sent),
            final(self)@ == old(self)@.after_load_request(page, outcome),
    {
        match outcome {
            SendOutcome::Sent => {
                self.book.start(page, self.current_generation);
                true
            },
            SendOutcome::Full | SendOutcome::Disconnected => false,
        }
    }

    /// Hands out requests in the given order until the queue refuses one, and says
    /// what came of each.  A page counts as being decoded only if its request was
    /// handed out.
    fn enqueue_requests(&mut self, requests: Vec<LoadRequest>) -> (outcomes: Vec<SendOutcome>)
        requires
            old(self).wf(),
            forall|k: int|
                0 <= k < requests@.len() ==> (#[trigger] requests@[k]).generation
                    == old(self)@.generation,
        ensures
            final(self).wf(),
            is_send_run(outcomes@, requests@.len() as int),
            final(self)@ == (LoaderState {
                book: old(self)@.started(requests@, taken(outcomes@)),
                ..old(self)@
            }),
    {
        let ghost before = self@;
        let ghost all = requests@;
        let mut queue = requests;
        let mut outcomes: Vec<SendOutcome> = Vec::new();
        assert(queue@ =~= all.skip(0));
        while queue.len() > 0
            invariant
                outcomes@.len() <= all.len(),
                queue@ == all.skip(outcomes@.len() as int),
                forall|i: int|
                    0 <= i < outcomes@.len() ==> (#[trigger] outcomes@[i]) == SendOutcome::Sent,
                self.wf(),
                before == old(self)@,
                all == requests@,
                self@ == (LoaderState { book: before.started(all, outcomes@.len() as int), ..before }),
            decreases queue@.len(),
        {
            let ghost count = outcomes@.len() as int;
            let request = queue.remove(0);
            assert(request == all[count]);
            assert(queue@ =~= all.skip(count + 1));
            let page: usize = request.index;
            let outcome = try_send(&self.request_tx, request);
            outcomes.push(outcome);
            if !self.record_load_request(page, outcome) {
                return outcomes;
            }
        }
        outcomes
    }

    /// Asks for the pages around the visible one that are not there yet.
    pub fn update_preload_queue(
        &mut self,
        pages: &Vec<PageSource>,
        visible_index: usize,
        target: &LoadTarget,
        now: u64,
    )
        requires
            old(self).wf(),
        ensures
            final(self).wf(),
            pages@.len() == 0 ==> final(self)@ == old(self)@,
            pages@.len() > 0 ==> exists|
                drained: Set<usize>,
                plan: Seq<LoadRequest>,
                ordered: Seq<LoadRequest>,
                outcomes: Seq<SendOutcome>,
            | #[trigger]
                preload_step(
                    old(self)@,
                    final(self)@,
                    pages@,
                    visible_index,
                    *target,
                    now,
                    drained,
                    plan,
                    ordered,
                    outcomes,
                ),
    {
        if pages.len() == 0 {
            return;
        }
        let ghost before = self@;
        let gap: usize = if visible_index < self.last_visible_index {
            self.last_visible_index - visible_index
        } else {
            visible_index - self.last_visible_index
        };
        let jump = gap > LARGE_JUMP_INDEX_THRESHOLD;
        assert(jump == before.is_jump(visible_index));
        if jump {
            self.cancel_pending_loads();
        }
        let ghost drained: Set<usize> = if jump {
            choose|drained: Set<usize>| self@ == #[trigger] before.cancelled(drained)
        } else {
            Set::empty()
        };
        self.move_to(visible_index);
        let ghost moved = self@;
        let plan = self.plan_preload(pages, visible_index, jump, target, now);
        let ghost planned = plan@;
        let requests = order_requests(plan);
        let ghost ordered = requests@;
        proof {
            lemma_ordered_generation(moved, planned, ordered, pages@, visible_index, jump, *target, now);
        }
        let outcomes = self.enqueue_requests(requests);
        self.stats.images_pending = self.book.loading_count();
        proof {
            assert(preload_step(
                before,
                self@,
                pages@,
                visible_index,
                *target,
                now,
                drained,
                planned,
                ordered,
                outcomes@,
            ));
        }
    }

    /// Forgets how far a page was decoded and how often that failed; its texture
    /// has left the cache.
    pub fn mark_unloaded(&mut self, page: usize)
        requires
            old(self).wf(),
        ensures
            final(self).wf(),
            final(self)@ == (LoaderState {
                book: LoadBookState {
                    loaded: old(self)@.book.loaded.remove(page),
                    retry: old(self)@.book.retry.remove(page),
                    ..old(self)@.book
                },
                ..old(self)@
            }),
    {
        self.book.forget_loaded(page);
        self.book.forget_failures(page);
    }

    /// Forgets all that the book says of a page.
    pub fn reset_index_state(&mut self, page: usize)
        requires
            old(self).wf(),
        ensures
            final(self).wf(),
            final(self)@ == (LoaderState {
                book: LoadBookState {
                    loading: old(self)@.book.loading.remove(page),
                    loaded: old(self)@.book.loaded.remove(page),
                    retry: old(self)@.book.retry.remove(page),
                },
                stats: LoaderStats {
                    images_pending: old(self)@.book.loading.remove(page).dom().len() as usize,
                    ..old(self)@.stats
                },
                ..old(self)@
            }),
    {
        self.book.forget_loading(page);
        self.book.forget_loaded(page);
        self.book.forget_failures(page);
        self.stats.images_pending = self.book.loading_count();
    }
}

impl LoaderState {
    /// A visible page that has no texture may be asked for at once.
    pub open spec fn may_retry(self, pages: Seq<PageSource>, page: usize, now: u64) -> bool {
        &&& page < pages.len()
        &&& pages[page as int].kind != PageKind::Unsupported
        &&& !self.book.is_loading(page, self.generation)
        &&& !self.book.is_held_back(page, now)
    }

    /// The loader after a visible page was asked for, where `accepted` says
    /// whether one of the queues took the request.
    pub open spec fn retried(self, page: usize, accepted: bool) -> Self {
        let open = LoadBookState { loaded: self.book.loaded.remove(page), ..self.book };
        if accepted {
            let loading = open.loading.insert(page, self.generation);
            LoaderState {
                book: LoadBookState { loading, retry: open.retry.remove(page), ..open },
                stats: LoaderStats { images_pending: loading.dom().len() as usize, ..self.stats },
                ..self
            }
        } else {
            LoaderState { book: open, ..self }
        }
    }

    /// What changes when a page turns out to have the given dimensions.  `close`
    /// says whether the old and the new shape are almost the same.
    pub open spec fn dimensions_change(self, page: usize, new: PageDimensions, close: bool) -> bool {
        if !self.dimensions.contains_key(page) {
            true
        } else {
            let known = self.dimensions[page];
            known != new && !(is_jitter(known, new) && close)
        }
    }

    /// The loader after a page turned out to have the given dimensions.
    pub open spec fn with_dimensions(self, page: usize, new: PageDimensions, close: bool) -> Self {
        if self.dimensions_change(page, new, close) {
            LoaderState { dimensions: self.dimensions.insert(page, new), ..self }
        } else {
            self
        }
    }
}

/// Two sizes of one video that differ so little that the shape decides whether
/// they count as different.
pub open spec fn is_jitter(known: PageDimensions, new: PageDimensions) -> bool {
    &&& known.media_type == MangaMediaType::Video
    &&& new.media_type == MangaMediaType::Video
    &&& -2 <= known.width - new.width <= 2
    &&& -2 <= known.height - new.height <= 2
}

/// One of the queues took the request for a visible page.
pub open spec fn retry_taken(urgent: SendOutcome, ordinary: Option<SendOutcome>) -> bool {
    urgent == SendOutcome::Sent || ordinary == Some(SendOutcome::Sent)
}

fn jitters(known: &PageDimensions, new: &PageDimensions) -> (jitter: bool)
    ensures
        jitter == is_jitter(*known, *new),
{
    let videos = match (known.media_type, new.media_type) {
        (MangaMediaType::Video, MangaMediaType::Video) => true,
        _ => false,
    };
    let width_delta: u32 = if known.width < new.width {
        new.width - known.width
    } else {
        known.width - new.width
    };
    let height_delta: u32 = if known.height < new.height {
        new.height - known.height
    } else {
        known.height - new.height
    };
    videos && width_delta <= 2 && height_delta <= 2
}

impl MangaLoader {
    /// Asks for a visible page without a texture ahead of all others.  Says
    /// whether the request was handed out.
    pub fn request_visible_retry(
        &mut self,
        pages: &Vec<PageSource>,
        page: usize,
        target: &LoadTarget,
        now: u64,
    ) -> (requested: bool)
        requires
            old(self).wf(),
        ensures
            final(self).wf(),
            !old(self)@.may_retry(pages@, page, now) ==> !requested && final(self)@ == old(self)@,
            old(self)@.may_retry(pages@, page, now) ==> exists|
                urgent: SendOutcome,
                ordinary: Option<SendOutcome>,
            |
                {
                    &&& ordinary is None <==> urgent == SendOutcome::Sent
                    &&& requested == #[trigger] retry_taken(urgent, ordinary)
                    &&& final(self)@ == old(self)@.retried(page, requested)
                },
    {
        if page >= pages.len() {
            return false;
        }
        match pages[page].kind {
            PageKind::Unsupported => {
                return false;
            },
            _ => {},
        }
        if self.book.is_loading(page, self.current_generation) {
            return false;
        }
        if self.book.is_held_back(page, now) {
            return false;
        }
        let (urgent, ordinary) = self.send_visible_retry(pages, page, target, now);
        self.record_visible_retry(page, urgent, ordinary)
    }

    /// Hands the request for a visible page to the urgent queue, and to the ordinary
    /// one if that refuses it.  Says what came of it; whether a queue has room
    /// depends on the decoding threads.
    fn send_visible_retry(
        &self,
        pages: &Vec<PageSource>,
        page: usize,
        target: &LoadTarget,
        now: u64,
    ) -> (outcomes: (SendOutcome, Option<SendOutcome>))
        requires
            self.wf(),
            page < pages@.len(),
        ensures
            outcomes.1 is None <==> outcomes.0 == SendOutcome::Sent,
    {
        let request = self.visible_retry_request(pages, page, target, now);
        let urgent = try_send(&self.urgent_request_tx, request);
        match urgent {
            SendOutcome::Sent => (urgent, None),
            SendOutcome::Full | SendOutcome::Disconnected => {
                let again = self.visible_retry_request(pages, page, target, now);
                (urgent, Some(try_send(&self.request_tx, again)))
            },
        }
    }

    /// Takes note of what came of handing out the request for a visible page:
    /// `urgent` says what the urgent queue answered, and `ordinary` what the
    /// ordinary one did, if it was asked.  Says whether one of them took it.
    pub fn record_visible_retry(
        &mut self,
        page: usize,
        urgent: SendOutcome,
        ordinary: Option<SendOutcome>,
    ) -> (requested: bool)
        requires
            old(self).wf(),
        ensures
            final(self).wf(),
            requested == retry_taken(urgent, ordinary),
            final(self)@ == old(self)@.retried(page, requested),
    {
        let accepted = match urgent {
            SendOutcome::Sent => true,
            SendOutcome::Full | SendOutcome::Disconnected => match ordinary {
                Some(SendOutcome::Sent) => true,
                _ => false,
            },
        };
        self.book.forget_loaded(page);
        if accepted {
            self.book.start(page, self.current_generation);
            self.book.forget_failures(page);
            self.stats.images_pending = self.book.loading_count();
        }
        accepted
    }

    /// The request for a visible page without a texture.
    pub fn visible_retry_request(
        &self,
        pages: &Vec<PageSource>,
        page: usize,
        target: &LoadTarget,
        now: u64,
    ) -> (request: LoadRequest)
        requires
            self.wf(),
            page < pages@.len(),
        ensures
            self@.asks_for(
                request,
                pages@,
                page as int,
                *target,
                VISIBLE_RETRY_PRIORITY as int,
                now,
            ),
    {
        let side: u32 = self.limit_target_texture_side_for_index(
            page,
            target.target_texture_side,
            target.max_texture_side,
        );
        LoadRequest {
            generation: self.current_generation,
            index: page,
            path: pages[page].path.clone(),
            max_texture_side: target.max_texture_side,
            target_texture_side: side,
            downscale_filter: if target.force_triangle_filters {
                ResizeFilter::Triangle
            } else {
                target.downscale_filter
            },
            gif_filter: if target.force_triangle_filters {
                ResizeFilter::Triangle
            } else {
                target.gif_filter
            },
            priority: VISIBLE_RETRY_PRIORITY,
            queued_at: now,
        }
    }

    /// The known dimensions of a page whose shape has to be compared with the new
    /// one before it is clear whether its dimensions changed.
    pub fn shape_in_question(&self, page: usize, new: PageDimensions) -> (known: Option<(u32, u32)>)
        requires
            self.wf(),
        ensures
            known == (if self@.dimensions.contains_key(page) && self@.dimensions[page] != new
                && is_jitter(self@.dimensions[page], new) {
                Some((self@.dimensions[page].width, self@.dimensions[page].height))
            } else {
                None
            }),
    {
        match self.dimension_cache.get(page) {
            None => None,
            Some(known) => {
                if *known != new && jitters(known, &new) {
                    Some((known.width, known.height))
                } else {
                    None
                }
            },
        }
    }

    fn note_dimensions(&mut self, page: usize, new: PageDimensions, close: bool) -> (changed: bool)
        requires
            old(self).wf(),
        ensures
            final(self).wf(),
            final(self)@ == old(self)@.with_dimensions(page, new, close),
            changed == old(self)@.dimensions_change(page, new, close),
    {
        let changed = match self.dimension_cache.get(page) {
            None => true,
            Some(known) => *known != new && !(jitters(known, &new) && close),
        };
        if changed {
            self.dimension_cache.insert(page, new);
        }
        changed
    }

    /// Takes note of the dimensions that a video turned out to have.  Says whether
    /// the layout is affected.  `close` says whether the shape of the video, if it
    /// was in question, is almost what it was.
    pub fn update_video_dimensions(&mut self, page: usize, width: u32, height: u32, close: bool) -> (
    changed: bool)
        requires
            old(self).wf(),
        ensures
            final(self).wf(),
            width == 0 || height == 0 ==> !changed && final(self)@ == old(self)@,
            width > 0 && height > 0 ==> {
                let new = PageDimensions { width, height, media_type: MangaMediaType::Video };
                &&& changed == old(self)@.dimensions_change(page, new, close)
                &&& final(self)@ == old(self)@.with_dimensions(page, new, close)
            },
    {
        if width == 0 || height == 0 {
            return false;
        }
        self.note_dimensions(
            page,
            PageDimensions { width, height, media_type: MangaMediaType::Video },
            close,
        )
    }

    /// The decoded pictures that wait for their upload; at least one and at most
    /// `max_items` of them, as far as there are any.
    pub fn receive_decoded(&self, max_items: usize) -> (received: Vec<DecodedImage>)
        ensures
            received@.len() <= clamp_count(max_items as int, 1, MAX_PENDING_UPLOADS as int),
    {
        let limit: usize = clamp(max_items, 1, MAX_PENDING_UPLOADS);
        let mut received: Vec<DecodedImage> = Vec::new();
        while received.len() < limit
            invariant
                received@.len() <= limit,
            decreases limit - received@.len(),
        {
            match try_recv(&self.result_rx) {
                Some(decoded) => {
                    received.push(decoded);
                },
                None => {
                    break;
                },
            }
        }
        received
    }

    /// Takes note of a picture that came in.  Adds its page to `updates` if its
    /// dimensions changed and it is not there yet.
    pub fn apply_decoded(&mut self, decoded: &DecodedImage, close: bool, updates: &mut Vec<usize>)
        requires
            old(self).wf(),
        ensures
            final(self).wf(),
            ({
                let new = PageDimensions {
                    width: decoded.original_width,
                    height: decoded.original_height,
                    media_type: decoded.media_type,
                };
                &&& final(self)@ == (LoaderState {
                    stats: LoaderStats {
                        images_loaded: next_generation(old(self)@.stats.images_loaded),
                        ..old(self)@.stats
                    },
                    ..old(self)@.with_dimensions(decoded.index, new, close)
                })
                &&& final(updates)@ == (if old(self)@.dimensions_change(decoded.index, new, close)
                    && !old(updates)@.contains(decoded.index) {
                    old(updates)@.push(decoded.index)
                } else {
                    old(updates)@
                })
            }),
    {
        let new = PageDimensions {
            width: decoded.original_width,
            height: decoded.original_height,
            media_type: decoded.media_type,
        };
        if self.note_dimensions(decoded.index, new, close) {
            if !contains_page(updates, decoded.index) {
                updates.push(decoded.index);
            }
        }
        self.stats.images_loaded = self.stats.images_loaded.wrapping_add(1);
    }
}

impl LoaderState {
    /// The dimensions of the page are to be found out.
    pub open spec fn lacks_dimensions(self, pages: Seq<PageSource>, page: int) -> bool {
        &&& pages[page].kind != PageKind::Unsupported
        &&& !self.dimensions.contains_key(page as usize)
        &&& !self.probing.contains(page as usize)
    }

    /// The pages from `start` up to `end` whose dimensions are to be found out.
    pub open spec fn missing_pages(self, pages: Seq<PageSource>, start: int, end: int) -> Seq<usize>
        decreases end - start,
    {
        if end <= start {
            Seq::empty()
        } else {
            let before = self.missing_pages(pages, start, end - 1);
            if self.lacks_dimensions(pages, end - 1) {
                before.push((end - 1) as usize)
            } else {
                before
            }
        }
    }

    /// The pages that one request for dimensions names.
    pub open spec fn dimension_batch(self, pages: Seq<PageSource>, start: usize, end: usize) -> Seq<
        usize,
    > {
        let stop = if end < pages.len() {
            end as int
        } else {
            pages.len() as int
        };
        let missing = self.missing_pages(pages, start as int, stop);
        if missing.len() > DIM_REQUEST_BATCH_SIZE {
            missing.take(DIM_REQUEST_BATCH_SIZE as int)
        } else {
            missing
        }
    }

    /// The loader after the dimensions of some pages were asked for.
    pub open spec fn with_probing(self, asked: Set<usize>) -> Self {
        LoaderState { probing: self.probing.union(asked), ..self }
    }

    /// The loader after a request for the dimensions of some pages was handed to a
    /// queue with the given outcome.
    pub open spec fn after_request(self, asked: Set<usize>, outcome: SendOutcome) -> Self {
        match outcome {
            SendOutcome::Sent => self.with_probing(asked),
            SendOutcome::Full | SendOutcome::Disconnected => self,
        }
    }
}

/// `items` names the given pages, with their paths.
pub open spec fn items_name(
    items: Seq<(usize, String)>,
    pages: Seq<PageSource>,
    named: Seq<usize>,
) -> bool {
    &&& items.len() == named.len()
    &&& forall|k: int|
        0 <= k < items.len() ==> {
            &&& (#[trigger] items[k]).0 == named[k]
            &&& named[k] < pages.len()
            &&& items[k].1@ == pages[named[k] as int].path@
        }
}

proof fn lemma_missing_pages(state: LoaderState, pages: Seq<PageSource>, start: int, end: int)
    requires
        0 <= start,
        end <= usize::MAX,
    ensures
        forall|k: int|
            0 <= k < state.missing_pages(pages, start, end).len() ==> start
                <= #[trigger] state.missing_pages(pages, start, end)[k] < end,
        end >= start ==> state.missing_pages(pages, start, end).len() <= end - start,
    decreases end - start,
{
    if end > start {
        lemma_missing_pages(state, pages, start, end - 1);
    }
}

/// Looking further never changes which pages come first.
proof fn lemma_missing_prefix(
    state: LoaderState,
    pages: Seq<PageSource>,
    start: int,
    middle: int,
    end: int,
)
    requires
        middle <= end,
    ensures
        state.missing_pages(pages, start, middle).len() <= state.missing_pages(
            pages,
            start,
            end,
        ).len(),
        state.missing_pages(pages, start, end).take(
            state.missing_pages(pages, start, middle).len() as int,
        ) == state.missing_pages(pages, start, middle),
    decreases end - middle,
{
    let short = state.missing_pages(pages, start, middle);
    if middle == end {
        assert(short.take(short.len() as int) =~= short);
    } else if end <= start {
        assert(short =~= Seq::empty());
    } else {
        lemma_missing_prefix(state, pages, start, middle, end - 1);
        let rest = state.missing_pages(pages, start, end - 1);
        let all = state.missing_pages(pages, start, end);
        assert(all.take(short.len() as int) =~= rest.take(short.len() as int));
    }
}

impl MangaLoader {
    /// Whether the dimensions of a page are to be found out.
    fn page_lacks_dimensions(&self, pages: &Vec<PageSource>, page: usize) -> (lacking: bool)
        requires
            self.wf(),
            page < pages@.len(),
        ensures
            lacking == self@.lacks_dimensions(pages@, page as int),
    {
        let supported = match pages[page].kind {
            PageKind::Unsupported => false,
            _ => true,
        };
        supported && !self.dimension_cache.contains(page) && !self.dim_pending.contains(page)
    }

    /// The pages of one request for dimensions, with their paths.
    pub fn plan_dimension_batch(&self, pages: &Vec<PageSource>, start: usize, end: usize) -> (items:
        Vec<(usize, String)>)
        requires
            self.wf(),
        ensures
            items_name(items@, pages@, self@.dimension_batch(pages@, start, end)),
    {
        let stop: usize = if end < pages.len() {
            end
        } else {
            pages.len()
        };
        let ghost state = self@;
        let ghost missing = state.missing_pages(pages@, start as int, stop as int);
        let mut items: Vec<(usize, String)> = Vec::new();
        let mut page: usize = start;
        proof {
            if start >= stop {
                assert(missing =~= Seq::empty());
            }
        }
        while page < stop && items.len() < DIM_REQUEST_BATCH_SIZE
            invariant
                self.wf(),
                state == self@,
                start <= page,
                start <= stop ==> page <= stop,
                start > stop ==> page == start,
                stop <= pages@.len(),
                items@.len() <= DIM_REQUEST_BATCH_SIZE,
                items_name(
                    items@,
                    pages@,
                    state.missing_pages(pages@, start as int, page as int),
                ),
            decreases stop - page,
        {
            if self.page_lacks_dimensions(pages, page) {
                items.push((page, pages[page].path.clone()));
            }
            page = page + 1;
        }
        proof {
            if start <= stop {
                lemma_missing_prefix(state, pages@, start as int, page as int, stop as int);
                if page < stop {
                    assert(items@.len() == DIM_REQUEST_BATCH_SIZE);
                    assert(missing.take(DIM_REQUEST_BATCH_SIZE as int) == state.missing_pages(
                        pages@,
                        start as int,
                        page as int,
                    ));
                    if missing.len() == DIM_REQUEST_BATCH_SIZE {
                        assert(missing.take(DIM_REQUEST_BATCH_SIZE as int) =~= missing);
                    }
                }
            }
        }
        items
    }

    /// Takes note that the dimensions of the given pages were asked for.
    fn note_probing(&mut self, asked: &Vec<usize>)
        requires
            old(self).wf(),
        ensures
            final(self).wf(),
            final(self)@ == old(self)@.with_probing(asked@.to_set()),
    {
        let ghost before = self@;
        let mut i: usize = 0;
        assert(self@.probing =~= before.probing.union(asked@.take(0).to_set()));
        while i < asked.len()
            invariant
                i <= asked@.len(),
                self.wf(),
                self@ == before.with_probing(asked@.take(i as int).to_set()),
            decreases asked@.len() - i,
        {
            self.dim_pending.insert(asked[i], ());
            proof {
                let done = asked@.take(i as int);
                assert(asked@.take(i + 1) =~= done.push(asked@[i as int]));
                lemma_to_set_push(done, asked@[i as int]);
                assert(self@.probing =~= before.probing.union(asked@.take(i + 1).to_set()));
            }
            i = i + 1;
        }
        assert(asked@.take(i as int) =~= asked@);
    }

    /// The request for the dimensions of the given pages.
    pub fn dimension_request(&self, items: Vec<(usize, String)>) -> (request: DimRequest)
        ensures
            request.generation == self@.generation,
            request.items@ == items@,
    {
        DimRequest { generation: self.current_generation, items }
    }

    /// Takes note of what came of handing out a request for the dimensions of the
    /// given pages.  They count as asked for only if the queue took the request.
    pub fn record_dimension_request(&mut self, asked: &Vec<usize>, outcome: SendOutcome) -> (sent:
        bool)
        requires
            old(self).wf(),
        ensures
            final(self).wf(),
            sent == (outcome == SendOutcome::Sent),
            final(self)@ == old(self)@.after_request(asked@.to_set(), outcome),
    {
        match outcome {
            SendOutcome::Sent => {
                self.note_probing(asked);
                true
            },
            SendOutcome::Full | SendOutcome::Disconnected => false,
        }
    }

    /// Hands out one request for dimensions.  Its pages count as asked for only if
    /// it was handed out, which depends on the room in the queue.
    fn send_dimension_request(&mut self, items: Vec<(usize, String)>, background: bool) -> (sent: bool)
        requires
            old(self).wf(),
        ensures
            final(self).wf(),
            final(self)@ == (if sent {
                old(self)@.with_probing(item_pages(items@).to_set())
            } else {
                old(self)@
            }),
    {
        let asked = pages_of_items(&items);
        let request = self.dimension_request(items);
        let outcome = if background {
            try_send(&self.dim_background_request_tx, request)
        } else {
            try_send(&self.dim_request_tx, request)
        };
        self.record_dimension_request(&asked, outcome)
    }

    fn enqueue_dimension_range(
        &mut self,
        pages: &Vec<PageSource>,
        start: usize,
        end: usize,
        background: bool,
    )
        requires
            old(self).wf(),
        ensures
            final(self).wf(),
            old(self)@.dimension_batch(pages@, start, end).len() == 0 ==> final(self)@
                == old(self)@,
            exists|outcome: SendOutcome|
                final(self)@ == #[trigger] old(self)@.after_request(
                    old(self)@.dimension_batch(pages@, start, end).to_set(),
                    outcome,
                ),
    {
        let ghost before = self@;
        let ghost asked = before.dimension_batch(pages@, start, end).to_set();
        let items = self.plan_dimension_batch(pages, start, end);
        if items.len() == 0 {
            assert(self@ == before.after_request(asked, SendOutcome::Full));
            return;
        }
        proof {
            assert(item_pages(items@) =~= before.dimension_batch(pages@, start, end));
        }
        let sent = self.send_dimension_request(items, background);
        proof {
            if sent {
                assert(self@ == before.after_request(asked, SendOutcome::Sent));
            } else {
                assert(self@ == before.after_request(asked, SendOutcome::Full));
            }
        }
    }

    /// Asks for the dimensions of the next pages from `start` up to `end` that
    /// lack them.  Nothing happens if the queue is full.
    pub fn request_dimensions_range(&mut self, pages: &Vec<PageSource>, start: usize, end: usize)
        requires
            old(self).wf(),
        ensures
            final(self).wf(),
            old(self)@.dimension_batch(pages@, start, end).len() == 0 ==> final(self)@
                == old(self)@,
            exists|outcome: SendOutcome|
                final(self)@ == #[trigger] old(self)@.after_request(
                    old(self)@.dimension_batch(pages@, start, end).to_set(),
                    outcome,
                ),
    {
        self.enqueue_dimension_range(pages, start, end, false);
    }

    /// [`MangaLoader::request_dimensions_range`] for pages that are not urgent.
    pub fn request_dimensions_range_background(
        &mut self,
        pages: &Vec<PageSource>,
        start: usize,
        end: usize,
    )
        requires
            old(self).wf(),
        ensures
            final(self).wf(),
            old(self)@.dimension_batch(pages@, start, end).len() == 0 ==> final(self)@
                == old(self)@,
            exists|outcome: SendOutcome|
                final(self)@ == #[trigger] old(self)@.after_request(
                    old(self)@.dimension_batch(pages@, start, end).to_set(),
                    outcome,
                ),
    {
        self.enqueue_dimension_range(pages, start, end, true);
    }

    /// The requests for the dimensions of all pages that lack them, in the order of
    /// the pages: each names as many pages as a request may, but for the last one.
    pub fn plan_all_dimension_batches(&self, pages: &Vec<PageSource>) -> (batches: Vec<
        Vec<(usize, String)>,
    >)
        requires
            self.wf(),
        ensures
            joined(batch_pages(batches@), batches@.len() as int) == self@.missing_pages(
                pages@,
                0,
                pages@.len() as int,
            ),
            full_but_last(batch_pages(batches@)),
            forall|k: int|
                0 <= k < batches@.len() ==> names_paths((#[trigger] batches@[k])@, pages@),
    {
        let ghost state = self@;
        let mut batches: Vec<Vec<(usize, String)>> = Vec::new();
        let mut batch: Vec<(usize, String)> = Vec::new();
        let mut page: usize = 0;
        proof {
            assert(joined(batch_pages(batches@), 0) + item_pages(batch@) =~= Seq::empty());
        }
        while page < pages.len()
            invariant
                page <= pages@.len(),
                self.wf(),
                state == self@,
                batch@.len() < DIM_REQUEST_BATCH_SIZE,
                names_paths(batch@, pages@),
                forall|k: int|
                    0 <= k < batches@.len() ==> {
                        &&& (#[trigger] batches@[k])@.len() == DIM_REQUEST_BATCH_SIZE
                        &&& names_paths(batches@[k]@, pages@)
                    },
                joined(batch_pages(batches@), batches@.len() as int) + item_pages(batch@)
                    == state.missing_pages(pages@, 0, page as int),
            decreases pages@.len() - page,
        {
            let ghost before = joined(batch_pages(batches@), batches@.len() as int);
            let ghost short = batch@;
            if self.page_lacks_dimensions(pages, page) {
                batch.push((page, pages[page].path.clone()));
                proof {
                    assert(item_pages(batch@) =~= item_pages(short).push(page));
                    assert(before + item_pages(batch@) =~= (before + item_pages(short)).push(page));
                }
            }
            if batch.len() >= DIM_REQUEST_BATCH_SIZE {
                let ghost fewer = batch_pages(batches@);
                let mut full: Vec<(usize, String)> = Vec::new();
                std::mem::swap(&mut full, &mut batch);
                batches.push(full);
                proof {
                    lemma_joined_push(fewer, item_pages(full@));
                    assert(batch_pages(batches@) =~= fewer.push(item_pages(full@)));
                    assert(item_pages(batch@) =~= Seq::empty());
                    assert(joined(batch_pages(batches@), batches@.len() as int) + item_pages(batch@)
                        =~= before + item_pages(full@));
                }
            }
            page = page + 1;
        }
        if batch.len() > 0 {
            let ghost fewer = batch_pages(batches@);
            let ghost last = batch@;
            batches.push(batch);
            proof {
                lemma_joined_push(fewer, item_pages(last));
                assert(batch_pages(batches@) =~= fewer.push(item_pages(last)));
            }
        } else {
            assert(item_pages(batch@) =~= Seq::empty());
            assert(joined(batch_pages(batches@), batches@.len() as int) + item_pages(batch@)
                =~= joined(batch_pages(batches@), batches@.len() as int));
        }
        batches
    }

    /// Hands out requests for dimensions that are not urgent in the given order
    /// until the queue refuses one, and says what came of each.  Whether the queue
    /// has room depends on the thread that empties it.
    fn send_dimension_batches(&self, batches: Vec<Vec<(usize, String)>>) -> (outcomes: Vec<
        SendOutcome,
    >)
        ensures
            is_send_run(outcomes@, batches@.len() as int),
    {
        let ghost count = batches@.len();
        let mut queue = batches;
        let mut outcomes: Vec<SendOutcome> = Vec::new();
        while queue.len() > 0
            invariant
                count == batches@.len(),
                outcomes@.len() + queue@.len() == count,
                forall|i: int|
                    0 <= i < outcomes@.len() ==> (#[trigger] outcomes@[i]) == SendOutcome::Sent,
            decreases queue@.len(),
        {
            let items = queue.remove(0);
            let request = self.dimension_request(items);
            let outcome = try_send(&self.dim_background_request_tx, request);
            outcomes.push(outcome);
            match outcome {
                SendOutcome::Sent => {},
                SendOutcome::Full | SendOutcome::Disconnected => {
                    return outcomes;
                },
            }
        }
        outcomes
    }

    /// Takes note of what came of handing out requests for the dimensions of the
    /// given pages, one after the other until one was refused.  Says how many pages
    /// count as asked for thereby.
    pub fn record_dimension_batches(&mut self, asked: &Vec<Vec<usize>>, outcomes: &Vec<SendOutcome>) -> (
    enqueued: usize)
        requires
            old(self).wf(),
            is_send_run(outcomes@, asked@.len() as int),
            joined(page_lists(asked@), asked@.len() as int).len() <= usize::MAX,
        ensures
            final(self).wf(),
            enqueued == joined(page_lists(asked@), taken(outcomes@)).len(),
            final(self)@ == old(self)@.with_probing(
                joined(page_lists(asked@), taken(outcomes@)).to_set(),
            ),
    {
        let ghost before = self@;
        let ghost lists = page_lists(asked@);
        let mut enqueued: usize = 0;
        let mut i: usize = 0;
        proof {
            assert(before.probing.union(joined(lists, 0).to_set()) =~= before.probing);
        }
        while i < outcomes.len()
            invariant
                i <= outcomes@.len() <= asked@.len(),
                is_send_run(outcomes@, asked@.len() as int),
                lists == page_lists(asked@),
                joined(lists, asked@.len() as int).len() <= usize::MAX,
                self.wf(),
                before == old(self)@,
                i < outcomes@.len() || taken(outcomes@) == i,
                enqueued == joined(lists, i as int).len(),
                self@ == before.with_probing(joined(lists, i as int).to_set()),
            decreases outcomes@.len() - i,
        {
            if !self.record_dimension_request(&asked[i], outcomes[i]) {
                assert(i == outcomes@.len() - 1);
                return enqueued;
            }
            proof {
                lemma_joined_prefix(lists, i + 1, asked@.len() as int);
                lemma_to_set_add(joined(lists, i as int), asked@[i as int]@);
                assert(self@.probing =~= before.probing.union(joined(lists, i + 1).to_set()));
            }
            enqueued = enqueued + asked[i].len();
            i = i + 1;
        }
        enqueued
    }

    /// Asks for the dimensions of all pages that lack them, as far as the queue
    /// has room.  Says for how many pages that was done.
    pub fn request_all_missing_dimensions(&mut self, pages: &Vec<PageSource>) -> (enqueued: usize)
        requires
            old(self).wf(),
        ensures
            final(self).wf(),
            ({
                let missing = old(self)@.missing_pages(pages@, 0, pages@.len() as int);
                &&& exists|outcomes: Seq<SendOutcome>|
                    #[trigger] is_send_run(outcomes, batch_count(missing.len() as int)) && enqueued
                        == pages_taken(missing.len() as int, outcomes)
                &&& final(self)@ == old(self)@.with_probing(missing.take(enqueued as int).to_set())
            }),
    {
        let ghost missing = self@.missing_pages(pages@, 0, pages@.len() as int);
        if pages.len() == 0 {
            proof {
                assert(is_send_run(Seq::empty(), batch_count(0)));
                assert(self@.probing.union(missing.take(0).to_set()) =~= self@.probing);
            }
            return 0;
        }
        let batches = self.plan_all_dimension_batches(pages);
        let asked = pages_of_batches(&batches);
        let ghost lists = page_lists(asked@);
        let outcomes = self.send_dimension_batches(batches);
        proof {
            assert(lists =~= batch_pages(batches@));
            lemma_missing_pages(self@, pages@, 0, pages@.len() as int);
            lemma_joined_full(lists, lists.len() as int);
            lemma_joined_full(lists, taken(outcomes@));
            lemma_joined_prefix(lists, taken(outcomes@), lists.len() as int);
            assert(is_send_run(outcomes@, batch_count(missing.len() as int)));
        }
        self.record_dimension_batches(&asked, &outcomes)
    }
}

proof fn lemma_missing_ascend(state: LoaderState, pages: Seq<PageSource>, start: int, end: int)
    requires
        0 <= start,
        end <= usize::MAX,
    ensures
        forall|k: int|
            0 <= k < state.missing_pages(pages, start, end).len() ==> state.lacks_dimensions(
                pages,
                #[trigger] state.missing_pages(pages, start, end)[k] as int,
            ),
        forall|j: int, k: int|
            0 <= j < k < state.missing_pages(pages, start, end).len()
                ==> #[trigger] state.missing_pages(pages, start, end)[j]
                < #[trigger] state.missing_pages(pages, start, end)[k],
    decreases end - start,
{
    if end > start {
        lemma_missing_pages(state, pages, start, end - 1);
        lemma_missing_ascend(state, pages, start, end - 1);
    }
}

/// Asking for the dimensions of the first pages that lack them adds just as many
/// pages to those that were asked for before, and none of which the dimensions are
/// known.
pub proof fn law_asked_pages_are_new(state: LoaderState, pages: Seq<PageSource>, count: int)
    requires
        pages.len() <= usize::MAX,
        0 <= count <= state.missing_pages(pages, 0, pages.len() as int).len(),
    ensures
        ({
            let asked = state.missing_pages(pages, 0, pages.len() as int).take(count).to_set();
            let after = state.with_probing(asked);
            &&& state.probing.subset_of(after.probing)
            &&& after.probing.difference(state.probing) == asked
            &&& asked.len() == count
            &&& forall|p: usize| #[trigger]
                asked.contains(p) ==> p < pages.len() && state.lacks_dimensions(pages, p as int)
        }),
{
    let missing = state.missing_pages(pages, 0, pages.len() as int);
    let first = missing.take(count);
    lemma_missing_pages(state, pages, 0, pages.len() as int);
    lemma_missing_ascend(state, pages, 0, pages.len() as int);
    assert forall|p: usize| #[trigger] first.to_set().contains(p) implies p < pages.len()
        && state.lacks_dimensions(pages, p as int) by {
        let k = choose|k: int| 0 <= k < first.len() && first[k] == p;
        assert(missing[k] == p);
    }
    assert forall|j: int, k: int| 0 <= j < first.len() && 0 <= k < first.len() && j != k implies first[j]
        != first[k] by {
        assert(first[j] == missing[j] && first[k] == missing[k]);
    }
    first.unique_seq_to_set();
    assert(state.with_probing(first.to_set()).probing.difference(state.probing) =~= first.to_set());
}

/// How many requests it takes to ask for the dimensions of so many pages.
pub open spec fn batch_count(missing: int) -> int {
    (missing + DIM_REQUEST_BATCH_SIZE - 1) / DIM_REQUEST_BATCH_SIZE as int
}

/// Of how many of `missing` pages the dimensions are asked for, where the requests
/// for them have the given outcomes.
pub open spec fn pages_taken(missing: int, outcomes: Seq<SendOutcome>) -> int {
    if taken(outcomes) * DIM_REQUEST_BATCH_SIZE < missing {
        taken(outcomes) * DIM_REQUEST_BATCH_SIZE
    } else {
        missing
    }
}

/// Where the queue never refuses, the dimensions of all pages that lack them are
/// asked for.
pub proof fn law_unrefused_requests_cover_all(missing: int, outcomes: Seq<SendOutcome>)
    requires
        0 <= missing,
        is_send_run(outcomes, batch_count(missing)),
        forall|i: int| 0 <= i < outcomes.len() ==> (#[trigger] outcomes[i]) == SendOutcome::Sent,
    ensures
        pages_taken(missing, outcomes) == missing,
{
    law_unrefused_run_takes_all(outcomes, batch_count(missing));
}

/// Where the queue refuses the first request, nothing is asked for.
pub proof fn law_refused_requests_ask_for_nothing(missing: int, outcome: SendOutcome)
    requires
        0 <= missing,
        outcome != SendOutcome::Sent,
    ensures
        pages_taken(missing, seq![outcome]) == 0,
{
    assert(seq![outcome].last() == outcome);
}

/// `items` goes with the paths of its pages.
pub open spec fn names_paths(items: Seq<(usize, String)>, pages: Seq<PageSource>) -> bool {
    forall|j: int|
        0 <= j < items.len() ==> (#[trigger] items[j]).0 < pages.len() && items[j].1@
            == pages[items[j].0 as int].path@
}

/// The pages that each of some requests for dimensions names.
pub open spec fn batch_pages(batches: Seq<Vec<(usize, String)>>) -> Seq<Seq<usize>> {
    Seq::new(batches.len(), |k: int| item_pages(batches[k]@))
}

pub open spec fn page_lists(lists: Seq<Vec<usize>>) -> Seq<Seq<usize>> {
    Seq::new(lists.len(), |k: int| lists[k]@)
}

/// The first `count` lists, one behind the other.
pub open spec fn joined(lists: Seq<Seq<usize>>, count: int) -> Seq<usize>
    decreases count,
{
    if count <= 0 {
        Seq::empty()
    } else {
        joined(lists, count - 1) + lists[count - 1]
    }
}

/// Each list is as long as a request may be, but for the last one, which is not
/// empty.
pub open spec fn full_but_last(lists: Seq<Seq<usize>>) -> bool {
    forall|k: int|
        0 <= k < lists.len() ==> {
            &&& 0 < (#[trigger] lists[k]).len() <= DIM_REQUEST_BATCH_SIZE
            &&& k < lists.len() - 1 ==> lists[k].len() == DIM_REQUEST_BATCH_SIZE
        }
}

proof fn lemma_joined_same(a: Seq<Seq<usize>>, b: Seq<Seq<usize>>, count: int)
    requires
        forall|k: int| 0 <= k < count ==> a[k] == (#[trigger] b[k]),
    ensures
        joined(a, count) == joined(b, count),
    decreases count,
{
    if count > 0 {
        lemma_joined_same(a, b, count - 1);
        assert(a[count - 1] == b[count - 1]);
    }
}

proof fn lemma_joined_push(lists: Seq<Seq<usize>>, last: Seq<usize>)
    ensures
        joined(lists.push(last), lists.len() as int + 1) == joined(lists, lists.len() as int) + last,
{
    lemma_joined_same(lists, lists.push(last), lists.len() as int);
}

/// What the first lists hold is the beginning of what all hold.
proof fn lemma_joined_prefix(lists: Seq<Seq<usize>>, fewer: int, more: int)
    requires
        0 <= fewer <= more,
    ensures
        joined(lists, fewer).len() <= joined(lists, more).len(),
        joined(lists, fewer) == joined(lists, more).take(joined(lists, fewer).len() as int),
    decreases more - fewer,
{
    if fewer == more {
        assert(joined(lists, fewer) =~= joined(lists, more).take(joined(lists, fewer).len() as int));
    } else {
        lemma_joined_prefix(lists, fewer, more - 1);
        assert(joined(lists, fewer) =~= joined(lists, more).take(joined(lists, fewer).len() as int));
    }
}

/// How much lists of which all but the last are full hold.
proof fn lemma_joined_full(lists: Seq<Seq<usize>>, count: int)
    requires
        full_but_last(lists),
        0 <= count <= lists.len(),
    ensures
        count < lists.len() ==> joined(lists, count).len() == count * DIM_REQUEST_BATCH_SIZE,
        count > 0 ==> (count - 1) * DIM_REQUEST_BATCH_SIZE < joined(lists, count).len() <= count
            * DIM_REQUEST_BATCH_SIZE,
        count == 0 ==> joined(lists, count).len() == 0,
    decreases count,
{
    if count > 0 {
        lemma_joined_full(lists, count - 1);
        assert(0 < lists[count - 1].len() <= DIM_REQUEST_BATCH_SIZE);
    }
}

proof fn lemma_to_set_add(a: Seq<usize>, b: Seq<usize>)
    ensures
        (a + b).to_set() == a.to_set().union(b.to_set()),
{
    let both = a + b;
    assert forall|p: usize| both.to_set().contains(p) == a.to_set().union(b.to_set()).contains(p) by {
        if a.contains(p) {
            let i = choose|i: int| 0 <= i < a.len() && a[i] == p;
            assert(both[i] == p);
        }
        if b.contains(p) {
            let i = choose|i: int| 0 <= i < b.len() && b[i] == p;
            assert(both[a.len() + i] == p);
        }
        if both.contains(p) {
            let i = choose|i: int| 0 <= i < both.len() && both[i] == p;
            if i < a.len() {
                assert(a[i] == p);
            } else {
                assert(b[i - a.len()] == p);
            }
        }
    }
    assert(both.to_set() =~= a.to_set().union(b.to_set()));
}

fn pages_of_items(items: &Vec<(usize, String)>) -> (asked: Vec<usize>)
    ensures
        asked@ == item_pages(items@),
{
    let mut asked: Vec<usize> = Vec::new();
    let mut i: usize = 0;
    while i < items.len()
        invariant
            i <= items@.len(),
            asked@ == item_pages(items@).take(i as int),
        decreases items@.len() - i,
    {
        asked.push(items[i].0);
        i = i + 1;
        assert(asked@ =~= item_pages(items@).take(i as int));
    }
    assert(asked@ =~= item_pages(items@));
    asked
}

fn pages_of_batches(batches: &Vec<Vec<(usize, String)>>) -> (asked: Vec<Vec<usize>>)
    ensures
        page_lists(asked@) == batch_pages(batches@),
{
    let mut asked: Vec<Vec<usize>> = Vec::new();
    let mut i: usize = 0;
    while i < batches.len()
        invariant
            i <= batches@.len(),
            asked@.len() == i,
            forall|k: int| 0 <= k < i ==> (#[trigger] asked@[k])@ == item_pages(batches@[k]@),
        decreases batches@.len() - i,
    {
        asked.push(pages_of_items(&batches[i]));
        i = i + 1;
    }
    assert(page_lists(asked@) =~= batch_pages(batches@));
    asked
}

/// The pages that a request for dimensions names.
pub open spec fn item_pages(items: Seq<(usize, String)>) -> Seq<usize> {
    Seq::new(items.len(), |k: int| items[k].0)
}

impl LoaderState {
    /// The loader after the dimensions of some pages were found out.
    pub open spec fn probed(self, items: Seq<(usize, PageDimensions)>) -> Self
        decreases items.len(),
    {
        if items.len() == 0 {
            self
        } else {
            let before = self.probed(items.drop_last());
            LoaderState {
                dimensions: before.dimensions.insert(items.last().0, items.last().1),
                probing: before.probing.remove(items.last().0),
                ..before
            }
        }
    }

    /// The pages whose dimensions changed thereby, in the order of the items.
    pub open spec fn probe_updates(self, items: Seq<(usize, PageDimensions)>) -> Seq<usize>
        decreases items.len(),
    {
        if items.len() == 0 {
            Seq::empty()
        } else {
            let before = self.probed(items.drop_last());
            let updates = self.probe_updates(items.drop_last());
            let (page, new) = items.last();
            if before.dimensions.contains_key(page) && before.dimensions[page] == new {
                updates
            } else {
                updates.push(page)
            }
        }
    }
}

impl LoaderState {
    /// The loader after one lot of dimensions came in.  A lot of an earlier
    /// generation is passed over.
    pub open spec fn with_result(self, result: DimResult) -> Self {
        if result.generation == self.generation {
            self.probed(result.items@)
        } else {
            self
        }
    }

    /// The loader after some lots of dimensions came in.
    pub open spec fn with_results(self, results: Seq<DimResult>) -> Self
        decreases results.len(),
    {
        if results.len() == 0 {
            self
        } else {
            self.with_results(results.drop_last()).with_result(results.last())
        }
    }

    /// The pages whose dimensions changed thereby, in the order of the lots.
    pub open spec fn result_updates(self, results: Seq<DimResult>) -> Seq<usize>
        decreases results.len(),
    {
        if results.len() == 0 {
            Seq::empty()
        } else {
            let before = self.with_results(results.drop_last());
            let updates = self.result_updates(results.drop_last());
            if results.last().generation == self.generation {
                updates + before.probe_updates(results.last().items@)
            } else {
                updates
            }
        }
    }
}

proof fn lemma_probed_generation(state: LoaderState, items: Seq<(usize, PageDimensions)>)
    ensures
        state.probed(items).generation == state.generation,
    decreases items.len(),
{
    if items.len() > 0 {
        lemma_probed_generation(state, items.drop_last());
    }
}

proof fn lemma_with_results_generation(state: LoaderState, results: Seq<DimResult>)
    ensures
        state.with_results(results).generation == state.generation,
    decreases results.len(),
{
    if results.len() > 0 {
        let before = state.with_results(results.drop_last());
        lemma_with_results_generation(state, results.drop_last());
        lemma_probed_generation(before, results.last().items@);
    }
}

/// Dimensions that were asked for before requests were cancelled change nothing.
pub proof fn law_stale_results_change_nothing(state: LoaderState, results: Seq<DimResult>)
    requires
        forall|k: int|
            0 <= k < results.len() ==> (#[trigger] results[k]).generation != state.generation,
    ensures
        state.with_results(results) == state,
        state.result_updates(results) == Seq::<usize>::empty(),
    decreases results.len(),
{
    if results.len() > 0 {
        assert(results.last() == results[results.len() - 1]);
        law_stale_results_change_nothing(state, results.drop_last());
    }
}

impl MangaLoader {
    /// Takes note of dimensions that were found out, and adds the pages whose
    /// dimensions changed to `updated`.
    pub fn apply_dimension_items(
        &mut self,
        items: &Vec<(usize, PageDimensions)>,
        updated: &mut Vec<usize>,
    )
        requires
            old(self).wf(),
        ensures
            final(self).wf(),
            final(self)@ == old(self)@.probed(items@),
            final(updated)@ == old(updated)@ + old(self)@.probe_updates(items@),
    {
        let ghost before = self@;
        let ghost start = updated@;
        let mut i: usize = 0;
        assert(items@.take(0) =~= Seq::empty());
        assert(start + before.probe_updates(items@.take(0)) =~= start);
        while i < items.len()
            invariant
                i <= items@.len(),
                self.wf(),
                self@ == before.probed(items@.take(i as int)),
                updated@ == start + before.probe_updates(items@.take(i as int)),
            decreases items@.len() - i,
        {
            let ghost longer = items@.take(i + 1);
            assert(longer.drop_last() =~= items@.take(i as int));
            assert(longer.last() == items@[i as int]);
            let page: usize = items[i].0;
            let new = items[i].1;
            let changed = match self.dimension_cache.get(page) {
                None => true,
                Some(known) => *known != new,
            };
            if changed {
                self.dimension_cache.insert(page, new);
                updated.push(page);
                assert(updated@ =~= start + before.probe_updates(longer));
            } else {
                assert(self@.dimensions.insert(page, new) =~= self@.dimensions);
            }
            let _ = self.dim_pending.remove(page);
            assert(self@.probing =~= before.probed(items@.take(i as int)).probing.remove(page));
            i = i + 1;
        }
        assert(items@.take(i as int) =~= items@);
    }

    /// Takes note of one lot of dimensions, and adds the pages whose dimensions
    /// changed to `updated`.  A lot of an earlier generation is passed over.
    pub fn apply_dimension_result(&mut self, result: &DimResult, updated: &mut Vec<usize>)
        requires
            old(self).wf(),
        ensures
            final(self).wf(),
            final(self)@ == old(self)@.with_result(*result),
            final(updated)@ == (if result.generation == old(self)@.generation {
                old(updated)@ + old(self)@.probe_updates(result.items@)
            } else {
                old(updated)@
            }),
    {
        if result.generation == self.current_generation {
            self.apply_dimension_items(&result.items, updated);
        }
    }

    /// Takes note of dimensions that were found out, at most `max_messages` lots
    /// of them, and names the pages whose dimensions changed.  Results of earlier
    /// generations are thrown away.
    pub fn poll_dimension_results(&mut self, max_messages: usize) -> (updated: Vec<usize>)
        requires
            old(self).wf(),
        ensures
            final(self).wf(),
            exists|results: Seq<DimResult>|
                {
                    &&& results.len() <= max_messages
                    &&& final(self)@ == #[trigger] old(self)@.with_results(results)
                    &&& updated@ == old(self)@.result_updates(results)
                },
    {
        let ghost before = self@;
        let mut updated: Vec<usize> = Vec::new();
        let ghost mut results: Seq<DimResult> = Seq::empty();
        let mut i: usize = 0;
        while i < max_messages
            invariant
                i <= max_messages,
                results.len() == i,
                before == old(self)@,
                self.wf(),
                self@ == before.with_results(results),
                updated@ == before.result_updates(results),
            decreases max_messages - i,
        {
            match try_recv(&self.dim_result_rx) {
                None => {
                    break;
                },
                Some(result) => {
                    self.apply_dimension_result(&result, &mut updated);
                    proof {
                        let longer = results.push(result);
                        assert(longer.drop_last() =~= results);
                        lemma_with_results_generation(before, results);
                        assert(before.result_updates(results) + Seq::<usize>::empty()
                            =~= before.result_updates(results));
                        results = longer;
                    }
                },
            }
            i = i + 1;
        }
        updated
    }

    /// How many pages are being decoded.
    pub fn pending_load_count(&self) -> (count: usize)
        requires
            self.wf(),
        ensures
            count == self@.book.loading.dom().len(),
    {
        self.book.loading_count()
    }

    /// How many decoded pictures wait for their upload at this moment.  That
    /// depends on the decoding threads.
    pub fn pending_decoded_count(&self) -> (count: usize)
        ensures
            self.wf() ==> count <= MAX_PENDING_UPLOADS,
    {
        decoded_len(&self.result_rx)
    }

    /// How many lots of dimensions wait to be taken note of at this moment.  That
    /// depends on the thread that finds them out.
    pub fn pending_dimension_results_count(&self) -> (count: usize)
        ensures
            self.wf() ==> count <= DIMENSION_QUEUE_CAPACITY,
    {
        dimension_len(&self.dim_result_rx)
    }

    /// How many pages have their dimensions being found out.
    pub fn pending_dimension_probe_count(&self) -> (count: usize)
        requires
            self.wf(),
        ensures
            count == self@.probing.len(),
    {
        self.dim_pending.len()
    }

    /// How many of the first `total_len` pages have known dimensions.
    pub fn cached_dimensions_count(&self, total_len: usize) -> (count: usize)
        requires
            self.wf(),
        ensures
            count == self@.dimensions.dom().filter(|page: usize| page < total_len).len(),
    {
        let pages = self.dimension_cache.pages();
        let ghost mut found: Set<usize> = Set::empty();
        let mut count: usize = 0;
        let mut i: usize = 0;
        while i < pages.len()
            invariant
                i <= pages@.len(),
                pages@.no_duplicates(),
                count == found.len(),
                found.finite(),
                count <= i,
                forall|page: usize|
                    found.contains(page) <==> page < total_len && pages@.take(i as int).contains(page),
            decreases pages@.len() - i,
        {
            let page: usize = pages[i];
            let ghost done = pages@.take(i as int);
            let ghost longer = pages@.take(i + 1);
            proof {
                assert(longer =~= done.push(page));
                lemma_to_set_push(done, page);
                assert forall|p: usize| longer.contains(p) <==> done.contains(p) || p == page by {
                    assert(longer.to_set().contains(p) == done.to_set().insert(page).contains(p));
                }
                if done.contains(page) {
                    let k = choose|k: int| 0 <= k < i && done[k] == page;
                    assert(pages@[k] == pages@[i as int]);
                }
            }
            if page < total_len {
                count = count + 1;
                proof {
                    found = found.insert(page);
                }
            }
            i = i + 1;
        }
        proof {
            assert(pages@.take(i as int) =~= pages@);
            assert(found =~= self@.dimensions.dom().filter(|page: usize| page < total_len));
        }
        count
    }

    /// Takes note of the dimensions of the page that is open by itself.
    pub fn set_dimensions(&mut self, page: usize, dimensions: PageDimensions)
        requires
            old(self).wf(),
        ensures
            final(self).wf(),
            final(self)@ == (LoaderState {
                dimensions: old(self)@.dimensions.insert(page, dimensions),
                ..old(self)@
            }),
    {
        self.dimension_cache.insert(page, dimensions);
    }

    /// The known dimensions of a page.
    pub fn get_dimensions(&self, page: usize) -> (size: Option<(u32, u32)>)
        requires
            self.wf(),
        ensures
            size == (if self@.dimensions.contains_key(page) {
                Some((self@.dimensions[page].width, self@.dimensions[page].height))
            } else {
                None
            }),
    {
        match self.dimension_cache.get(page) {
            Some(d) => Some((d.width, d.height)),
            None => None,
        }
    }

    /// What a page is known to show.
    pub fn get_media_type(&self, page: usize) -> (media_type: Option<MangaMediaType>)
        requires
            self.wf(),
        ensures
            media_type == (if self@.dimensions.contains_key(page) {
                Some(self@.dimensions[page].media_type)
            } else {
                None
            }),
    {
        match self.dimension_cache.get(page) {
            Some(d) => Some(d.media_type),
            None => None,
        }
    }

    pub fn stats(&self) -> (stats: LoaderStats)
        ensures
            stats == self@.stats,
    {
        self.stats
    }

    /// The present generation of requests.
    pub fn generation(&self) -> (generation: usize)
        ensures
            generation == self@.generation,
    {
        self.current_generation
    }

    /// The book, for the decoding threads.
    pub fn book_mut(&mut self) -> (book: &mut LoadBook)
        requires
            old(self).wf(),
        ensures
            book.wf(),
            book@ == old(self)@.book,
            final(book).wf() ==> final(self).wf(),
            final(self)@ == (LoaderState { book: final(book)@, ..old(self)@ }),
    {
        &mut self.book
    }
}

/// A page that can be shown, and what kind of file it comes from.
pub open spec fn lookup_kind(kind: PageKind) -> Option<CachedMediaKind> {
    match kind {
        PageKind::Image => Some(CachedMediaKind::Image),
        PageKind::Video => Some(CachedMediaKind::Video),
        PageKind::Unsupported => None,
    }
}

/// The pages before `end` that can be shown, with their kinds.
pub open spec fn showable_pages(pages: Seq<PageSource>, end: int) -> Seq<(usize, CachedMediaKind)>
    decreases end,
{
    if end <= 0 {
        Seq::empty()
    } else {
        let before = showable_pages(pages, end - 1);
        match lookup_kind(pages[end - 1].kind) {
            Some(kind) => before.push(((end - 1) as usize, kind)),
            None => before,
        }
    }
}

/// What a file of a kind shows, as long as it has not been looked into.
pub open spec fn presumed_media_type(kind: CachedMediaKind) -> MangaMediaType {
    match kind {
        CachedMediaKind::Image => MangaMediaType::StaticImage,
        CachedMediaKind::Video => MangaMediaType::Video,
    }
}

/// `known` with the dimensions that the cache had for the first `count` items.
pub open spec fn with_cached(
    known: Map<usize, PageDimensions>,
    items: Seq<(usize, CachedMediaKind)>,
    found: Seq<Option<(u32, u32)>>,
    count: int,
) -> Map<usize, PageDimensions>
    decreases count,
{
    if count <= 0 {
        known
    } else {
        let before = with_cached(known, items, found, count - 1);
        match found[count - 1] {
            Some((width, height)) => before.insert(
                items[count - 1].0,
                PageDimensions {
                    width,
                    height,
                    media_type: presumed_media_type(items[count - 1].1),
                },
            ),
            None => before,
        }
    }
}

/// `known` with the dimensions that were found out for the first `count` items.
pub open spec fn with_probed(
    known: Map<usize, PageDimensions>,
    items: Seq<(usize, Option<PageDimensions>)>,
    count: int,
) -> Map<usize, PageDimensions>
    decreases count,
{
    if count <= 0 {
        known
    } else {
        let before = with_probed(known, items, count - 1);
        match items[count - 1].1 {
            Some(d) => before.insert(items[count - 1].0, d),
            None => before,
        }
    }
}

/// The pages before `end` that can be shown and have no known dimensions.
pub open spec fn uncached_pages(
    known: Map<usize, PageDimensions>,
    pages: Seq<PageSource>,
    end: int,
) -> Seq<usize>
    decreases end,
{
    if end <= 0 {
        Seq::empty()
    } else {
        let before = uncached_pages(known, pages, end - 1);
        if pages[end - 1].kind != PageKind::Unsupported && !known.contains_key((end - 1) as usize) {
            before.push((end - 1) as usize)
        } else {
            before
        }
    }
}

proof fn lemma_uncached_prefix(
    known: Map<usize, PageDimensions>,
    pages: Seq<PageSource>,
    middle: int,
    end: int,
)
    requires
        middle <= end,
    ensures
        uncached_pages(known, pages, middle).len() <= uncached_pages(known, pages, end).len(),
        uncached_pages(known, pages, end).take(uncached_pages(known, pages, middle).len() as int)
            == uncached_pages(known, pages, middle),
    decreases end - middle,
{
    let short = uncached_pages(known, pages, middle);
    if middle == end {
        assert(short.take(short.len() as int) =~= short);
    } else if end <= 0 {
        assert(short =~= Seq::empty());
    } else {
        lemma_uncached_prefix(known, pages, middle, end - 1);
        let rest = uncached_pages(known, pages, end - 1);
        let all = uncached_pages(known, pages, end);
        assert(all.take(short.len() as int) =~= rest.take(short.len() as int));
    }
}

impl MangaLoader {
    /// Starts to find out the dimensions of all pages of a new list: forgets those
    /// of the old list, and names the pages to be looked up in the cache.
    pub fn begin_dimension_cache(&mut self, pages: &Vec<PageSource>) -> (lookups: Vec<
        (usize, CachedMediaKind),
    >)
        requires
            old(self).wf(),
        ensures
            final(self).wf(),
            final(self)@ == (LoaderState { dimensions: Map::empty(), ..old(self)@ }),
            lookups@ == showable_pages(pages@, pages@.len() as int),
    {
        self.dimension_cache.clear();
        let mut lookups: Vec<(usize, CachedMediaKind)> = Vec::new();
        let mut page: usize = 0;
        while page < pages.len()
            invariant
                page <= pages@.len(),
                lookups@ == showable_pages(pages@, page as int),
            decreases pages@.len() - page,
        {
            match pages[page].kind {
                PageKind::Image => {
                    lookups.push((page, CachedMediaKind::Image));
                },
                PageKind::Video => {
                    lookups.push((page, CachedMediaKind::Video));
                },
                PageKind::Unsupported => {},
            }
            page = page + 1;
        }
        lookups
    }

    /// Takes note of what the cache had for the pages that were looked up.
    pub fn apply_cached_dimensions(
        &mut self,
        lookups: &Vec<(usize, CachedMediaKind)>,
        found: &Vec<Option<(u32, u32)>>,
    )
        requires
            old(self).wf(),
            found@.len() == lookups@.len(),
        ensures
            final(self).wf(),
            final(self)@ == (LoaderState {
                dimensions: with_cached(
                    old(self)@.dimensions,
                    lookups@,
                    found@,
                    lookups@.len() as int,
                ),
                ..old(self)@
            }),
    {
        let ghost before = self@;
        let mut i: usize = 0;
        while i < lookups.len()
            invariant
                i <= lookups@.len() == found@.len(),
                self.wf(),
                self@ == (LoaderState {
                    dimensions: with_cached(before.dimensions, lookups@, found@, i as int),
                    ..before
                }),
            decreases lookups@.len() - i,
        {
            match found[i] {
                Some((width, height)) => {
                    let media_type = match lookups[i].1 {
                        CachedMediaKind::Image => MangaMediaType::StaticImage,
                        CachedMediaKind::Video => MangaMediaType::Video,
                    };
                    self.dimension_cache.insert(
                        lookups[i].0,
                        PageDimensions { width, height, media_type },
                    );
                },
                None => {},
            }
            i = i + 1;
        }
    }

    /// The first pages without known dimensions, which are looked into before the
    /// first layout.
    pub fn initial_probe_pages(&self, pages: &Vec<PageSource>) -> (probe: Vec<usize>)
        requires
            self.wf(),
        ensures
            ({
                let all = uncached_pages(self@.dimensions, pages@, pages@.len() as int);
                probe@ == (if all.len() > INITIAL_CACHE_COUNT {
                    all.take(INITIAL_CACHE_COUNT as int)
                } else {
                    all
                })
            }),
    {
        let mut probe: Vec<usize> = Vec::new();
        let mut page: usize = 0;
        while page < pages.len() && probe.len() < INITIAL_CACHE_COUNT
            invariant
                self.wf(),
                page <= pages@.len(),
                probe@.len() <= INITIAL_CACHE_COUNT,
                probe@ == uncached_pages(self@.dimensions, pages@, page as int),
            decreases pages@.len() - page,
        {
            let supported = match pages[page].kind {
                PageKind::Unsupported => false,
                _ => true,
            };
            if supported && !self.dimension_cache.contains(page) {
                probe.push(page);
            }
            page = page + 1;
        }
        proof {
            lemma_uncached_prefix(self@.dimensions, pages@, page as int, pages@.len() as int);
            let all = uncached_pages(self@.dimensions, pages@, pages@.len() as int);
            if page < pages@.len() && all.len() == INITIAL_CACHE_COUNT {
                assert(all.take(INITIAL_CACHE_COUNT as int) =~= all);
            }
        }
        probe
    }

    /// Takes note of the dimensions that were found out before the first layout,
    /// and says how many pages have known dimensions now.
    pub fn apply_probed_dimensions(
        &mut self,
        items: &Vec<(usize, Option<PageDimensions>)>,
        page_count: usize,
    ) -> (cached: usize)
        requires
            old(self).wf(),
        ensures
            final(self).wf(),
            final(self)@ == (LoaderState {
                dimensions: with_probed(old(self)@.dimensions, items@, items@.len() as int),
                ..old(self)@
            }),
            cached == final(self)@.dimensions.dom().filter(|page: usize| page < page_count).len(),
    {
        let ghost before = self@;
        let mut i: usize = 0;
        while i < items.len()
            invariant
                i <= items@.len(),
                self.wf(),
                self@ == (LoaderState {
                    dimensions: with_probed(before.dimensions, items@, i as int),
                    ..before
                }),
            decreases items@.len() - i,
        {
            match items[i].1 {
                Some(d) => {
                    self.dimension_cache.insert(items[i].0, d);
                },
                None => {},
            }
            i = i + 1;
        }
        self.cached_dimensions_count(page_count)
    }
}

/// The dimensions that are used for a page whose dimensions could not be found
/// out.
pub open spec fn assumed_dimensions(kind: CachedMediaKind) -> (u32, u32) {
    match kind {
        CachedMediaKind::Image => (1200, 1600),
        CachedMediaKind::Video => (1920, 1080),
    }
}

/// The dimensions of a page, given what looking into its file came to.  Nothing
/// is said of a page that cannot be shown.
pub fn dimensions_or_assumed(kind: PageKind, found: Option<(u32, u32)>) -> (dimensions: Option<
    PageDimensions,
>)
    ensures
        dimensions == (match lookup_kind(kind) {
            None => None,
            Some(k) => Some(
                PageDimensions {
                    width: (match found {
                        Some(size) => size.0,
                        None => assumed_dimensions(k).0,
                    }),
                    height: (match found {
                        Some(size) => size.1,
                        None => assumed_dimensions(k).1,
                    }),
                    media_type: presumed_media_type(k),
                },
            ),
        }),
{
    let (assumed, media_type): ((u32, u32), MangaMediaType) = match kind {
        PageKind::Unsupported => {
            return None;
        },
        PageKind::Image => ((1200, 1600), MangaMediaType::StaticImage),
        PageKind::Video => ((1920, 1080), MangaMediaType::Video),
    };
    let (width, height): (u32, u32) = match found {
        Some(size) => size,
        None => assumed,
    };
    Some(PageDimensions { width, height, media_type })
}

proof fn lemma_wanted_pages(
    state: LoaderState,
    pages: Seq<PageSource>,
    start: int,
    end: int,
    target: LoadTarget,
    now: u64,
)
    ensures
        ({
            let wanted = state.wanted_pages(pages, start, end, target, now);
            &&& end >= start ==> wanted.len() <= end - start
            &&& end < start ==> wanted.len() == 0
            &&& forall|k: int|
                0 <= k < wanted.len() ==> start <= #[trigger] wanted[k] < end && state.wants(
                    pages,
                    wanted[k],
                    target,
                    now,
                )
            &&& forall|j: int, k: int| 0 <= j < k < wanted.len() ==> wanted[j] < wanted[k]
            &&& forall|page: int|
                start <= page < end && #[trigger] state.wants(pages, page, target, now)
                    ==> wanted.contains(page)
        }),
    decreases end - start,
{
    if end > start {
        lemma_wanted_pages(state, pages, start, end - 1, target, now);
        let before = state.wanted_pages(pages, start, end - 1, target, now);
        let wanted = state.wanted_pages(pages, start, end, target, now);
        assert forall|page: int|
            start <= page < end && #[trigger] state.wants(pages, page, target, now) implies wanted.contains(
        page) by {
            if page < end - 1 {
                assert(before.contains(page));
                let k = choose|k: int| 0 <= k < before.len() && before[k] == page;
                assert(wanted[k] == page);
            } else {
                assert(wanted[wanted.len() - 1] == page);
            }
        }
    }
}

/// A plan never asks for more pages than the window holds, nor for a page twice,
/// nor for one that is already being decoded, already decoded, or held back.
pub proof fn law_plan_is_bounded_and_new(
    state: LoaderState,
    plan: Seq<LoadRequest>,
    pages: Seq<PageSource>,
    visible: usize,
    jump: bool,
    target: LoadTarget,
    now: u64,
)
    requires
        state.plans(plan, pages, visible, jump, target, now),
        pages.len() <= usize::MAX,
    ensures
        plan.len() <= MAX_PRELOAD_AHEAD + MAX_PRELOAD_BEHIND + 1,
        forall|j: int, k: int| 0 <= j < k < plan.len() ==> plan[j].index < plan[k].index,
        forall|k: int|
            0 <= k < plan.len() ==> {
                &&& !state.book.is_loading((#[trigger] plan[k]).index, state.generation)
                &&& !state.book.is_loaded(plan[k].index, plan[k].target_texture_side)
                &&& !state.book.is_held_back(plan[k].index, now)
            },
{
    let start = state.window_start(visible);
    let end = state.window_end(visible, pages.len() as int);
    let wanted = state.wanted_pages(pages, start, end, target, now);
    lemma_wanted_pages(state, pages, start, end, target, now);
    assert forall|j: int, k: int| 0 <= j < k < plan.len() implies plan[j].index < plan[k].index by {
        assert(wanted[j] < wanted[k]);
        assert(plan[j].index == wanted[j] && plan[k].index == wanted[k]);
    }
    assert forall|k: int| 0 <= k < plan.len() implies {
        &&& !state.book.is_loading((#[trigger] plan[k]).index, state.generation)
        &&& !state.book.is_loaded(plan[k].index, plan[k].target_texture_side)
        &&& !state.book.is_held_back(plan[k].index, now)
    } by {
        assert(state.wants(pages, wanted[k], target, now));
        assert(plan[k].index == wanted[k]);
    }
}

/// A visible page that is wanted is in the plan, and after a jump to it every
/// other request of the plan comes later.
pub proof fn law_jump_target_comes_first(
    state: LoaderState,
    plan: Seq<LoadRequest>,
    pages: Seq<PageSource>,
    visible: usize,
    target: LoadTarget,
    now: u64,
)
    requires
        state.plans(plan, pages, visible, true, target, now),
        visible < pages.len() <= usize::MAX,
        state.wants(pages, visible as int, target, now),
    ensures
        exists|k: int|
            0 <= k < plan.len() && #[trigger] plan[k].index == visible && forall|j: int|
                0 <= j < plan.len() && j != k ==> plan[k].priority < #[trigger] plan[j].priority,
{
    let start = state.window_start(visible);
    let end = state.window_end(visible, pages.len() as int);
    let wanted = state.wanted_pages(pages, start, end, target, now);
    lemma_wanted_pages(state, pages, start, end, target, now);
    assert(start <= visible < end);
    assert(wanted.contains(visible as int));
    let k = choose|k: int| 0 <= k < wanted.len() && wanted[k] == visible;
    assert(plan[k].index == visible);
    assert(plan[k].priority == JUMP_PRIORITY);
    assert forall|j: int| 0 <= j < plan.len() && j != k implies plan[k].priority
        < #[trigger] plan[j].priority by {
        assert(state.asks_for(
            plan[j],
            pages,
            wanted[j],
            target,
            state.page_priority(wanted[j], visible, true),
            now,
        ));
        assert(wanted[j] != visible) by {
            if j < k {
                assert(wanted[j] < wanted[k]);
            } else {
                assert(wanted[k] < wanted[j]);
            }
        }
        assert(state.page_priority(wanted[j], visible, true) >= 0);
    }
}

/// A cancelled loader waits for nothing, and no request that was made before
/// counts any more.
pub proof fn law_cancel_makes_requests_stale(
    state: LoaderState,
    drained: Set<usize>,
    page: usize,
)
    ensures
        state.cancelled(drained).generation != state.generation,
        !state.cancelled(drained).book.is_loading(page, state.cancelled(drained).generation),
        drained.contains(page) ==> !state.cancelled(drained).book.loaded.contains_key(page),
        state.cancelled(drained).dimensions == state.dimensions,
{
}

/// Cancelling twice leaves no more behind than cancelling once.
pub proof fn law_cancel_twice(state: LoaderState, first: Set<usize>, second: Set<usize>)
    ensures
        state.cancelled(first).cancelled(second).book == state.cancelled(first.union(second)).book,
        state.cancelled(first).cancelled(second).probing == state.cancelled(first.union(second)).probing,
{
    assert(state.book.loaded.remove_keys(first).remove_keys(second)
        =~= state.book.loaded.remove_keys(first.union(second)));
    assert(state.book.retry.remove_keys(first).remove_keys(second)
        =~= state.book.retry.remove_keys(first.union(second)));
}

/// A page that failed too often is held back for good.
pub proof fn law_failures_hold_back(book: LoadBookState, page: usize, at: u64, now: u64)
    requires
        book.attempts(page) + 1 >= PRELOAD_RETRY_MAX_ATTEMPTS,
    ensures
        book.failed(page, at).is_held_back(page, now),
{
}

/// A failed page is not tried again before its wait is over, which is longer after
/// each failure, and it is tried again then unless it failed too often.
pub proof fn law_retry_waits(book: LoadBookState, page: usize, at: u64, now: u64)
    requires
        book.attempts(page) < u8::MAX,
        now < u64::MAX,
    ensures
        ({
            let attempts = (book.attempts(page) + 1) as u8;
            let over = now >= at + backoff_ms(attempts) * NANOS_PER_MILLI;
            book.failed(page, at).is_held_back(page, now) <==> !over || attempts
                >= PRELOAD_RETRY_MAX_ATTEMPTS
        }),
{
}

fn contains_page(pages: &Vec<usize>, page: usize) -> (found: bool)
    ensures
        found == pages@.contains(page),
{
    let mut i: usize = 0;
    while i < pages.len()
        invariant
            i <= pages@.len(),
            forall|k: int| 0 <= k < i ==> pages@[k] != page,
        decreases pages@.len() - i,
    {
        if pages[i] == page {
            assert(pages@[i as int] == page);
            return true;
        }
        i = i + 1;
    }
    false
}

/// How [`MangaLoader::update_preload_queue`] takes the loader from one state to
/// the next: after a jump all requests are cancelled; then the wanted pages are
/// asked for in the order of their priority, as many as the queue has room for.
pub open spec fn preload_step(
    before: LoaderState,
    after: LoaderState,
    pages: Seq<PageSource>,
    visible: usize,
    target: LoadTarget,
    now: u64,
    drained: Set<usize>,
    plan: Seq<LoadRequest>,
    ordered: Seq<LoadRequest>,
    outcomes: Seq<SendOutcome>,
) -> bool {
    let jump = before.is_jump(visible);
    let moved = (if jump {
        before.cancelled(drained)
    } else {
        before
    }).moved(visible);
    &&& moved.plans(plan, pages, visible, jump, target, now)
    &&& ordered_by_priority(plan, ordered)
    &&& is_send_run(outcomes, ordered.len() as int)
    &&& after == (LoaderState {
        book: moved.started(ordered, taken(outcomes)),
        stats: LoaderStats {
            images_pending: moved.started(ordered, taken(outcomes)).loading.dom().len() as usize,
            ..moved.stats
        },
        ..moved
    })
}

/// Handing out requests marks the pages of those that the queue took as being
/// decoded, and no others; a page whose request was refused can be asked for again.
pub proof fn law_only_taken_requests_load(
    state: LoaderState,
    requests: Seq<LoadRequest>,
    outcomes: Seq<SendOutcome>,
    page: usize,
)
    requires
        is_send_run(outcomes, requests.len() as int),
    ensures
        state.started(requests, taken(outcomes)).is_loading(page, state.generation) <==> (
        state.book.is_loading(page, state.generation) || exists|k: int|
            0 <= k < outcomes.len() && outcomes[k] == SendOutcome::Sent && (
            #[trigger] requests[k]).index == page),
{
    lemma_started(state, requests, taken(outcomes), page);
    if outcomes.len() > 0 {
        assert(outcomes.last() == outcomes[outcomes.len() - 1]);
    }
    if exists|k: int|
        0 <= k < outcomes.len() && outcomes[k] == SendOutcome::Sent && (
        #[trigger] requests[k]).index == page {
        let k = choose|k: int|
            0 <= k < outcomes.len() && outcomes[k] == SendOutcome::Sent && (
            #[trigger] requests[k]).index == page;
        assert(k < taken(outcomes));
        assert(requests[k].index == page);
    }
    if exists|k: int| 0 <= k < taken(outcomes) && (#[trigger] requests[k]).index == page {
        let k = choose|k: int| 0 <= k < taken(outcomes) && (#[trigger] requests[k]).index == page;
        assert(outcomes[k] == SendOutcome::Sent && requests[k].index == page);
    }
}

proof fn lemma_started(state: LoaderState, requests: Seq<LoadRequest>, count: int, page: usize)
    requires
        0 <= count <= requests.len(),
    ensures
        state.started(requests, count).is_loading(page, state.generation) <==> (
        state.book.is_loading(page, state.generation) || exists|k: int|
            0 <= k < count && (#[trigger] requests[k]).index == page),
    decreases count,
{
    if count > 0 {
        lemma_started(state, requests, count - 1, page);
        if requests[count - 1].index == page {
            assert(requests[count - 1].index == page);
        }
    }
}

proof fn lemma_to_set_push(s: Seq<usize>, page: usize)
    ensures
        s.push(page).to_set() == s.to_set().insert(page),
{
    let longer = s.push(page);
    assert forall|p: usize| longer.to_set().contains(p) == s.to_set().insert(page).contains(p) by {
        if s.contains(p) {
            let i = choose|i: int| 0 <= i < s.len() && s[i] == p;
            assert(longer[i] == p);
        }
        if p == page {
            assert(longer[s.len() as int] == p);
        }
        if longer.contains(p) {
            let i = choose|i: int| 0 <= i < longer.len() && longer[i] == p;
            if i < s.len() {
                assert(s[i] == p);
            }
        }
    }
    assert(longer.to_set() =~= s.to_set().insert(page));
}

proof fn lemma_ordered_generation(
    state: LoaderState,
    plan: Seq<LoadRequest>,
    ordered: Seq<LoadRequest>,
    pages: Seq<PageSource>,
    visible: usize,
    jump: bool,
    target: LoadTarget,
    now: u64,
)
    requires
        state.plans(plan, pages, visible, jump, target, now),
        ordered_by_priority(plan, ordered),
    ensures
        forall|k: int|
            0 <= k < ordered.len() ==> (#[trigger] ordered[k]).generation == state.generation,
{
    let from = choose|from: Seq<int>| #[trigger] ordered_through(plan, ordered, from);
    assert forall|k: int| 0 <= k < ordered.len() implies (#[trigger] ordered[k]).generation
        == state.generation by {
        assert(0 <= from[k] < plan.len());
        assert(ordered[k] == plan[from[k]]);
    }
}

fn clamp(value: usize, low: usize, high: usize) -> (clamped: usize)
    requires
        low <= high,
    ensures
        clamped == clamp_count(value as int, low as int, high as int),
{
    if value < low {
        low
    } else if value > high {
        high
    } else {
        value
    }
}

/// Of two planned pages that are equally far from the visible one, the one that lies
/// in the direction of scrolling comes first.
pub proof fn law_scrolling_direction_comes_first(
    state: LoaderState,
    plan: Seq<LoadRequest>,
    pages: Seq<PageSource>,
    visible: usize,
    jump: bool,
    target: LoadTarget,
    now: u64,
    below: int,
    above: int,
)
    requires
        state.plans(plan, pages, visible, jump, target, now),
        pages.len() <= usize::MAX,
        0 <= below < plan.len(),
        0 <= above < plan.len(),
        plan[below].index > visible,
        plan[above].index < visible,
        plan[below].index - visible == visible - plan[above].index,
    ensures
        state.scrolling_down ==> plan[below].priority < plan[above].priority,
        !state.scrolling_down ==> plan[above].priority < plan[below].priority,
{
    lemma_planned(state, plan, pages, visible, jump, target, now, below);
    lemma_planned(state, plan, pages, visible, jump, target, now, above);
}

/// Of two planned pages on the same side of the visible one, the nearer one comes
/// first; and the visible page itself comes before all pages against the direction of
/// scrolling, and after a jump before all others.
pub proof fn law_nearer_pages_come_first(
    state: LoaderState,
    plan: Seq<LoadRequest>,
    pages: Seq<PageSource>,
    visible: usize,
    jump: bool,
    target: LoadTarget,
    now: u64,
    near: int,
    far: int,
)
    requires
        state.plans(plan, pages, visible, jump, target, now),
        pages.len() <= usize::MAX,
        0 <= near < plan.len(),
        0 <= far < plan.len(),
    ensures
        visible < plan[near].index < plan[far].index ==> plan[near].priority < plan[far].priority,
        plan[far].index < plan[near].index < visible ==> plan[near].priority < plan[far].priority,
        plan[near].index == visible && plan[far].index < visible && state.scrolling_down
            ==> plan[near].priority < plan[far].priority,
        plan[near].index == visible && plan[far].index > visible && !state.scrolling_down
            ==> plan[near].priority < plan[far].priority,
        jump && plan[near].index == visible && plan[far].index != visible ==> plan[near].priority
            < plan[far].priority,
{
    lemma_planned(state, plan, pages, visible, jump, target, now, near);
    lemma_planned(state, plan, pages, visible, jump, target, now, far);
}

proof fn lemma_planned(
    state: LoaderState,
    plan: Seq<LoadRequest>,
    pages: Seq<PageSource>,
    visible: usize,
    jump: bool,
    target: LoadTarget,
    now: u64,
    k: int,
)
    requires
        state.plans(plan, pages, visible, jump, target, now),
        pages.len() <= usize::MAX,
        0 <= k < plan.len(),
    ensures
        state.window_start(visible) <= plan[k].index < state.window_end(visible, pages.len() as int),
        plan[k].index < pages.len(),
        state.wants(pages, plan[k].index as int, target, now),
        state.asks_for(
            plan[k],
            pages,
            plan[k].index as int,
            target,
            state.page_priority(plan[k].index as int, visible, jump),
            now,
        ),
{
    let start = state.window_start(visible);
    let end = state.window_end(visible, pages.len() as int);
    let wanted = state.wanted_pages(pages, start, end, target, now);
    lemma_wanted_pages(state, pages, start, end, target, now);
    assert(state.wants(pages, wanted[k], target, now));
    assert(state.asks_for(
        plan[k],
        pages,
        wanted[k],
        target,
        state.page_priority(wanted[k], visible, jump),
        now,
    ));
}

/// The plan reaches further in the direction of scrolling than against it: from the
/// visible page `ahead` pages on and `behind` pages back, which change places when
/// scrolling turns round.  Each page in that reach that can be decoded, that nothing
/// was ever asked of and that never failed is planned, and no page outside it is.
pub proof fn law_plan_reaches_ahead(
    state: LoaderState,
    plan: Seq<LoadRequest>,
    pages: Seq<PageSource>,
    visible: usize,
    jump: bool,
    target: LoadTarget,
    now: u64,
    page: usize,
)
    requires
        state.plans(plan, pages, visible, jump, target, now),
        page < pages.len() <= usize::MAX,
        pages[page as int].kind != PageKind::Unsupported,
        !state.book.loading.contains_key(page),
        !state.book.loaded.contains_key(page),
        !state.book.retry.contains_key(page),
    ensures
        ({
            let (ahead, behind) = state.preload_counts();
            let (down, up) = if state.scrolling_down {
                (ahead, behind)
            } else {
                (behind, ahead)
            };
            let planned = exists|k: int| 0 <= k < plan.len() && (#[trigger] plan[k]).index == page;
            &&& planned <==> visible - up <= page <= visible + down
            &&& 0 < behind <= ahead
        }),
{
    let start = state.window_start(visible);
    let end = state.window_end(visible, pages.len() as int);
    let wanted = state.wanted_pages(pages, start, end, target, now);
    lemma_wanted_pages(state, pages, start, end, target, now);
    assert(state.wants(pages, page as int, target, now));
    if start <= page < end {
        assert(wanted.contains(page as int));
        let k = choose|k: int| 0 <= k < wanted.len() && wanted[k] == page;
        assert(state.asks_for(
            plan[k],
            pages,
            wanted[k],
            target,
            state.page_priority(wanted[k], visible, jump),
            now,
        ));
        assert(plan[k].index == page);
    }
    if exists|k: int| 0 <= k < plan.len() && (#[trigger] plan[k]).index == page {
        let k = choose|k: int| 0 <= k < plan.len() && (#[trigger] plan[k]).index == page;
        lemma_planned(state, plan, pages, visible, jump, target, now, k);
    }
}

/// Twice as many pages as are visible are preloaded ahead and as many behind, within
/// bounds.
pub proof fn law_preload_follows_what_is_visible(state: LoaderState)
    ensures
        ({
            let (ahead, behind) = state.preload_counts();
            &&& behind <= ahead
            &&& 0 < behind <= MAX_PRELOAD_BEHIND
            &&& ahead <= MAX_PRELOAD_AHEAD
            &&& state.strip_halves is None ==> MIN_PRELOAD_AHEAD <= ahead && MIN_PRELOAD_BEHIND
                <= behind
            &&& state.strip_halves is None && MIN_PRELOAD_AHEAD <= 2 * state.visible_pages
                <= MAX_PRELOAD_AHEAD ==> ahead == 2 * state.visible_pages
            &&& state.strip_halves is None && MIN_PRELOAD_BEHIND <= state.visible_pages
                <= MAX_PRELOAD_BEHIND ==> behind == state.visible_pages
            &&& state.strip_halves matches Some(halves) ==> (2 <= halves <= MAX_PRELOAD_AHEAD
                ==> ahead == halves && behind >= 1 && (2 * behind == halves || 2 * behind == halves
                + 1))
        }),
{
}

/// What a planned request says: it is for a page of the list, by its path, of the
/// present generation, for a side that textures may have and no larger than the page,
/// with the filters that were asked for or the triangle filter where that is forced.
pub proof fn law_requests_say_what_is_wanted(
    state: LoaderState,
    plan: Seq<LoadRequest>,
    pages: Seq<PageSource>,
    visible: usize,
    jump: bool,
    target: LoadTarget,
    now: u64,
    k: int,
)
    requires
        state.plans(plan, pages, visible, jump, target, now),
        pages.len() <= usize::MAX,
        0 <= k < plan.len(),
    ensures
        plan[k].index < pages.len(),
        plan[k].path@ == pages[plan[k].index as int].path@,
        pages[plan[k].index as int].kind != PageKind::Unsupported,
        plan[k].generation == state.generation,
        plan[k].queued_at == now,
        plan[k].max_texture_side == target.max_texture_side,
        1 <= plan[k].target_texture_side,
        plan[k].target_texture_side <= target.max_texture_side || plan[k].target_texture_side == 1,
        state.dimensions.contains_key(plan[k].index) ==> ({
            let size = state.dimensions[plan[k].index];
            plan[k].target_texture_side <= size.width || plan[k].target_texture_side <= size.height
                || plan[k].target_texture_side == 1
        }),
        !state.dimensions.contains_key(plan[k].index) && 1 <= target.target_texture_side
            <= target.max_texture_side ==> plan[k].target_texture_side >= target.target_texture_side,
        target.force_triangle_filters ==> plan[k].downscale_filter == ResizeFilter::Triangle
            && plan[k].gif_filter == ResizeFilter::Triangle,
        !target.force_triangle_filters ==> plan[k].downscale_filter == target.downscale_filter
            && plan[k].gif_filter == target.gif_filter,
{
    lemma_planned(state, plan, pages, visible, jump, target, now, k);
    lemma_bucket_from(
        side_target(target.target_texture_side, target.max_texture_side),
        side_limit(target.max_texture_side),
        0,
    );
}

/// A move to a later page scrolls down and one to an earlier page scrolls up; where
/// nothing moves, the direction stays.
pub proof fn law_moves_turn_the_direction(state: LoaderState, visible: usize)
    ensures
        visible > state.last_visible ==> state.moved(visible).scrolling_down,
        visible < state.last_visible ==> !state.moved(visible).scrolling_down,
        visible == state.last_visible ==> state.moved(visible).scrolling_down == state.scrolling_down,
        state.moved(visible).last_visible == visible,
        state.moved(visible).book == state.book,
        state.moved(visible).dimensions == state.dimensions,
        state.moved(visible).generation == state.generation,
{
}

/// A move in either direction by more than a few dozen pages is a jump.
pub proof fn law_jumps_are_long_moves(state: LoaderState, visible: usize)
    ensures
        state.is_jump(visible) <==> visible > state.last_visible + 32 || state.last_visible > visible
            + 32,
{
}

/// Where pages are asked for, those in the direction of the last move are asked for
/// before those equally far against it.
pub proof fn law_pages_ahead_are_asked_for_first(
    before: LoaderState,
    after: LoaderState,
    pages: Seq<PageSource>,
    visible: usize,
    target: LoadTarget,
    now: u64,
    drained: Set<usize>,
    plan: Seq<LoadRequest>,
    ordered: Seq<LoadRequest>,
    outcomes: Seq<SendOutcome>,
    ahead: int,
    behind: int,
)
    requires
        preload_step(
            before,
            after,
            pages,
            visible,
            target,
            now,
            drained,
            plan,
            ordered,
            outcomes,
        ),
        pages.len() <= usize::MAX,
        0 <= ahead < ordered.len(),
        0 <= behind < ordered.len(),
        before.last_visible < visible ==> visible < ordered[ahead].index && ordered[ahead].index
            - visible == visible - ordered[behind].index,
        before.last_visible > visible ==> visible > ordered[ahead].index && ordered[behind].index
            - visible == visible - ordered[ahead].index,
        before.last_visible != visible,
    ensures
        ahead < behind,
{
    let jump = before.is_jump(visible);
    let moved = (if jump {
        before.cancelled(drained)
    } else {
        before
    }).moved(visible);
    let from = choose|from: Seq<int>| #[trigger] ordered_through(plan, ordered, from);
    assert(0 <= from[ahead] < plan.len() && ordered[ahead] == plan[from[ahead]]);
    assert(0 <= from[behind] < plan.len() && ordered[behind] == plan[from[behind]]);
    if before.last_visible < visible {
        law_scrolling_direction_comes_first(
            moved,
            plan,
            pages,
            visible,
            jump,
            target,
            now,
            from[ahead],
            from[behind],
        );
    } else {
        law_scrolling_direction_comes_first(
            moved,
            plan,
            pages,
            visible,
            jump,
            target,
            now,
            from[behind],
            from[ahead],
        );
    }
    assert(ordered[ahead].priority < ordered[behind].priority);
    if behind < ahead {
        assert(from[behind] >= 0 && from[ahead] >= 0);
    }
}

/// The first failure costs a quarter of a second, and each further one twice as much
/// as the one before, up to four seconds.
pub proof fn law_waits_double(attempts: u8)
    requires
        1 <= attempts < u8::MAX,
    ensures
        backoff_ms(1) == 250,
        2 * backoff_ms(attempts) <= 4000 ==> backoff_ms((attempts + 1) as u8) == 2 * backoff_ms(
            attempts,
        ),
        2 * backoff_ms(attempts) > 4000 ==> backoff_ms((attempts + 1) as u8) == 4000,
{
}

/// A page may be tried again until it failed three times, and from its time on.
pub proof fn law_retries_open_in_time(state: &RetryState, now: u64, open: bool)
    requires
        call_ensures(RetryState::is_open, (state, now), open),
    ensures
        open <==> state.attempts < 3 && now >= state.next_retry_at,
{
}

/// Each failure doubles the wait, from a quarter of a second to four seconds.
pub proof fn law_failures_double_the_wait(fewer: u8, more: u8, short: u64, long: u64)
    requires
        call_ensures(retry_backoff_for_attempt, (fewer,), short),
        call_ensures(retry_backoff_for_attempt, (more,), long),
        more == fewer + 1,
    ensures
        250 <= short <= long <= 4000,
        fewer == 0 ==> long == 250,
        1 <= fewer < 5 ==> long == 2 * short,
        fewer >= 5 ==> long == short == 4000,
{
}

/// A side is rounded up, as far as textures may be that long, and the same side is always
/// rounded to the same; rounding again changes nothing.
pub proof fn law_wanted_sides_are_rounded_up(target: u32, most: u32, side: u32, again: u32)
    requires
        call_ensures(quantize_target_texture_side, (target, most), side),
        call_ensures(quantize_target_texture_side, (side, most), again),
        most >= 1,
    ensures
        side <= most,
        target <= most ==> side >= target,
        target > most ==> side == most,
        side >= 1,
        again == side,
{
    lemma_bucket_from(side_target(target, most), side_limit(most), 0);
    law_rounding_is_stable(target, most);
}

/// The sides that pictures are decoded for grow by a third or a half at a time, from 96
/// to 4096.
pub proof fn law_decoding_sides_are_few(target: u32, most: u32, side: u32)
    requires
        call_ensures(quantize_target_texture_side, (target, most), side),
        most >= 4096,
    ensures
        target <= 96 ==> side == 96,
        96 < target <= 128 ==> side == 128,
        128 < target <= 192 ==> side == 192,
        192 < target <= 256 ==> side == 256,
        256 < target <= 384 ==> side == 384,
        384 < target <= 512 ==> side == 512,
        512 < target <= 768 ==> side == 768,
        768 < target <= 1024 ==> side == 1024,
        1024 < target <= 1536 ==> side == 1536,
        1536 < target <= 2048 ==> side == 2048,
        2048 < target <= 3072 ==> side == 3072,
        3072 < target <= 4096 ==> side == 4096,
        target > 4096 ==> side == most,
{
    reveal_with_fuel(bucket_from, 13);
}

/// In the direction of scrolling more is preloaded than behind: twice the visible pages
/// and at least twelve, against once and at least six; in a long strip as many as fill
/// the view twice over.
pub proof fn law_preloading_looks_ahead(loader: &MangaLoader, ahead: usize, behind: usize)
    requires
        call_ensures(MangaLoader::get_preload_ahead, (loader,), ahead),
        call_ensures(MangaLoader::get_preload_behind, (loader,), behind),
    ensures
        1 <= behind <= ahead <= 256,
        behind <= 128,
        loader@.strip_halves is None ==> ahead >= 12 && behind >= 6,
        loader@.strip_halves is None && 6 <= loader@.visible_pages <= 128 ==> ahead == 2
            * loader@.visible_pages && behind == loader@.visible_pages,
        loader@.strip_halves matches Some(halves) ==> 2 <= halves <= 256 ==> ahead == halves && (2
            * behind == halves || 2 * behind == halves + 1),
{
}

/// What is visible is taken note of, as one page at least.
pub proof fn law_visible_pages_are_noted(
    loader: &mut MangaLoader,
    pages: usize,
    halves: Option<usize>,
)
    requires
        call_ensures(MangaLoader::update_visible_page_count, (loader, pages, halves), ()),
    ensures
        pages >= 1 ==> final(loader)@.visible_pages == pages,
        pages == 0 ==> final(loader)@.visible_pages == 1,
        halves is None ==> final(loader)@.strip_halves is None,
        halves matches Some(h) ==> (final(loader)@.strip_halves matches Some(noted) && noted >= 2 && (h
            >= 2 ==> noted == h)),
        final(loader)@.book == old(loader)@.book,
        final(loader)@.scrolling_down == old(loader)@.scrolling_down,
        final(loader)@.dimensions == old(loader)@.dimensions,
        final(loader)@.generation == old(loader)@.generation,
{
}

/// Of two pages that are equally far from the visible one, the one in the direction of
/// scrolling is asked for first; on one side the nearer one is; and after a jump the
/// visible page is asked for before all others.
pub proof fn law_plans_prefer_the_direction_of_scrolling(
    loader: &MangaLoader,
    pages: &Vec<PageSource>,
    visible: usize,
    jump: bool,
    target: &LoadTarget,
    now: u64,
    plan: Vec<LoadRequest>,
    a: int,
    b: int,
)
    requires
        call_ensures(MangaLoader::plan_preload, (loader, pages, visible, jump, target, now), plan),
        0 <= a < plan@.len(),
        0 <= b < plan@.len(),
    ensures
        plan@[a].index > visible && plan@[b].index < visible && plan@[a].index - visible == visible
            - plan@[b].index ==> (loader@.scrolling_down <==> plan@[a].priority < plan@[b].priority)
            && (!loader@.scrolling_down <==> plan@[b].priority < plan@[a].priority),
        visible < plan@[a].index < plan@[b].index ==> plan@[a].priority < plan@[b].priority,
        plan@[b].index < plan@[a].index < visible ==> plan@[a].priority < plan@[b].priority,
        jump && plan@[a].index == visible && plan@[b].index != visible ==> plan@[a].priority
            < plan@[b].priority,
{
    let state = loader@;
    let p = plan@;
    assert(pages.len() == pages@.len());
    law_nearer_pages_come_first(state, p, pages@, visible, jump, *target, now, a, b);
    if p[a].index > visible && p[b].index < visible && p[a].index - visible == visible - p[b].index {
        law_scrolling_direction_comes_first(
            state,
            p,
            pages@,
            visible,
            jump,
            *target,
            now,
            a,
            b,
        );
    }
}

/// A plan asks for pages that can be shown, by their own paths and in the present
/// generation, and for none that is being decoded in it.
pub proof fn law_plans_ask_for_missing_pages(
    loader: &MangaLoader,
    pages: &Vec<PageSource>,
    visible: usize,
    jump: bool,
    target: &LoadTarget,
    now: u64,
    plan: Vec<LoadRequest>,
    k: int,
    page: usize,
    ahead: usize,
    behind: usize,
)
    requires
        call_ensures(MangaLoader::plan_preload, (loader, pages, visible, jump, target, now), plan),
        call_ensures(MangaLoader::get_preload_ahead, (loader,), ahead),
        call_ensures(MangaLoader::get_preload_behind, (loader,), behind),
    ensures
        0 <= k < plan@.len() ==> {
            let request = plan@[k];
            &&& request.index < pages@.len()
            &&& request.path@ == pages@[request.index as int].path@
            &&& pages@[request.index as int].kind != PageKind::Unsupported
            &&& request.generation == loader@.generation
            &&& request.queued_at == now
            &&& !(loader@.book.loading.contains_key(request.index)
                && loader@.book.loading[request.index] == loader@.generation)
            &&& loader@.scrolling_down ==> visible - behind <= request.index <= visible + ahead
            &&& !loader@.scrolling_down ==> visible - ahead <= request.index <= visible + behind
        },
        page < pages@.len() && pages@[page as int].kind != PageKind::Unsupported
            && !loader@.book.loading.contains_key(page) && !loader@.book.loaded.contains_key(page)
            && !loader@.book.retry.contains_key(page) && ((loader@.scrolling_down && visible - behind
            <= page <= visible + ahead) || (!loader@.scrolling_down && visible - ahead <= page
            <= visible + behind)) ==> exists|i: int|
            0 <= i < plan@.len() && (#[trigger] plan@[i]).index == page,
{
    let state = loader@;
    assert(pages.len() == pages@.len());
    if 0 <= k < plan@.len() {
        lemma_planned(state, plan@, pages@, visible, jump, *target, now, k);
    }
    if page < pages@.len() && pages@[page as int].kind != PageKind::Unsupported
        && !state.book.loading.contains_key(page) && !state.book.loaded.contains_key(page)
        && !state.book.retry.contains_key(page) {
        law_plan_reaches_ahead(state, plan@, pages@, visible, jump, *target, now, page);
    }
}

/// After a cancellation no request counts any more: none is noted, and those that are
/// under way belong to a generation that has passed.
pub proof fn law_cancelled_requests_do_not_count(loader: &mut MangaLoader, page: usize)
    requires
        call_ensures(MangaLoader::cancel_pending_loads, (loader,), ()),
    ensures
        !final(loader)@.book.loading.contains_key(page),
        final(loader)@.generation != old(loader)@.generation,
        final(loader)@.dimensions == old(loader)@.dimensions,
        final(loader)@.last_visible == old(loader)@.last_visible,
        final(loader)@.scrolling_down == old(loader)@.scrolling_down,
        final(loader)@.stats.images_pending == 0,
        final(loader)@.stats.images_loaded == old(loader)@.stats.images_loaded,
        final(loader)@.book.loaded.contains_key(page) ==> old(loader)@.book.loaded.contains_key(page)
            && final(loader)@.book.loaded[page] == old(loader)@.book.loaded[page],
{
    let drained = choose|drained: Set<usize>|
        final(loader)@ == #[trigger] old(loader)@.cancelled(drained);
}

/// Pictures that were thrown away are not there, and all others still are.
pub proof fn law_drained_pictures_are_gone(
    loader: &mut MangaLoader,
    drained: &Vec<usize>,
    page: usize,
)
    requires
        call_ensures(MangaLoader::cancel_with_drained, (loader, drained), ()),
    ensures
        drained@.contains(page) ==> !final(loader)@.book.loaded.contains_key(page),
        !drained@.contains(page) ==> final(loader)@.book.loaded.contains_key(page) == old(
            loader)@.book.loaded.contains_key(page),
        !final(loader)@.book.loading.contains_key(page),
        final(loader)@.generation != old(loader)@.generation,
{
    assert(drained@.to_set().contains(page) <==> drained@.contains(page));
}

/// Clearing forgets what was loaded and asked for, and the dimensions unless they are to
/// be kept.
pub proof fn law_clearing_forgets(all: &mut MangaLoader, rest: &mut MangaLoader, page: usize)
    requires
        call_ensures(MangaLoader::clear, (all,), ()),
        call_ensures(MangaLoader::clear_preserving_dimensions, (rest,), ()),
    ensures
        !final(all)@.dimensions.contains_key(page),
        final(rest)@.dimensions == old(rest)@.dimensions,
        !final(all)@.book.loading.contains_key(page) && !final(all)@.book.loaded.contains_key(page)
            && !final(all)@.book.retry.contains_key(page),
        !final(rest)@.book.loading.contains_key(page) && !final(rest)@.book.loaded.contains_key(page)
            && !final(rest)@.book.retry.contains_key(page),
        final(all)@.generation != old(all)@.generation,
        final(rest)@.generation != old(rest)@.generation,
        final(all)@.stats.images_loaded == 0 && final(all)@.stats.images_pending == 0,
        !final(all)@.probing.contains(page) && !final(rest)@.probing.contains(page),
{
}

/// A move that was handled elsewhere turns the direction of scrolling as any other.
pub proof fn law_external_moves_are_noted(loader: &mut MangaLoader, visible: usize, cancel: bool)
    requires
        call_ensures(MangaLoader::sync_external_visible_index, (loader, visible, cancel), ()),
    ensures
        final(loader)@.last_visible == visible,
        visible > old(loader)@.last_visible ==> final(loader)@.scrolling_down,
        visible < old(loader)@.last_visible ==> !final(loader)@.scrolling_down,
        visible == old(loader)@.last_visible ==> final(loader)@.scrolling_down == old(
            loader)@.scrolling_down,
        !cancel ==> final(loader)@.book == old(loader)@.book && final(loader)@.generation == old(
            loader)@.generation,
        cancel ==> final(loader)@.generation != old(loader)@.generation,
{
    if cancel {
        let drained = choose|drained: Set<usize>|
            final(loader)@ == (#[trigger] old(loader)@.cancelled(drained)).moved(visible);
    }
}

/// A request counts as under way only if the queue took it.
pub proof fn law_refused_requests_do_not_count(
    loader: &mut MangaLoader,
    page: usize,
    outcome: SendOutcome,
    sent: bool,
    other: usize,
)
    requires
        call_ensures(MangaLoader::record_load_request, (loader, page, outcome), sent),
    ensures
        sent <==> outcome == SendOutcome::Sent,
        sent ==> final(loader)@.book.loading.contains_key(page) && final(loader)@.book.loading[page]
            == old(loader)@.generation,
        !sent ==> final(loader)@ == old(loader)@,
        other != page ==> final(loader)@.book.loading.contains_key(other) == old(
            loader)@.book.loading.contains_key(other),
        final(loader)@.book.loaded == old(loader)@.book.loaded,
{
}

/// Bringing the queue up to date notes where one is and in which direction one scrolls,
/// and asks in the present generation only; a long move begins a new one.
pub proof fn law_queue_follows_the_view(
    loader: &mut MangaLoader,
    pages: &Vec<PageSource>,
    visible: usize,
    target: &LoadTarget,
    now: u64,
)
    requires
        call_ensures(
            MangaLoader::update_preload_queue,
            (loader, pages, visible, target, now),
            (),
        ),
    ensures
        pages@.len() == 0 ==> final(loader)@ == old(loader)@,
        pages@.len() > 0 ==> {
            &&& final(loader)@.last_visible == visible
            &&& visible > old(loader)@.last_visible ==> final(loader)@.scrolling_down
            &&& visible < old(loader)@.last_visible ==> !final(loader)@.scrolling_down
            &&& final(loader)@.dimensions == old(loader)@.dimensions
            &&& visible > old(loader)@.last_visible + 32 || old(loader)@.last_visible > visible + 32
                <==> final(loader)@.generation != old(loader)@.generation
        },
{
    if pages@.len() > 0 {
        let (drained, plan, ordered, outcomes) = choose|
            drained: Set<usize>,
            plan: Seq<LoadRequest>,
            ordered: Seq<LoadRequest>,
            outcomes: Seq<SendOutcome>,
        | #[trigger]
            preload_step(
                old(loader)@,
                final(loader)@,
                pages@,
                visible,
                *target,
                now,
                drained,
                plan,
                ordered,
                outcomes,
            );
    }
}

/// A page that lost its texture is not there any more, and may be tried anew.
pub proof fn law_unloaded_pages_are_forgotten(loader: &mut MangaLoader, page: usize, other: usize)
    requires
        call_ensures(MangaLoader::mark_unloaded, (loader, page), ()),
    ensures
        !final(loader)@.book.loaded.contains_key(page),
        !final(loader)@.book.retry.contains_key(page),
        final(loader)@.book.loading == old(loader)@.book.loading,
        other != page ==> final(loader)@.book.loaded.contains_key(other) == old(
            loader)@.book.loaded.contains_key(other),
        final(loader)@.dimensions == old(loader)@.dimensions,
{
}

/// Resetting a page forgets all that the book holds of it, and nothing of the others.
pub proof fn law_reset_pages_are_forgotten(loader: &mut MangaLoader, page: usize, other: usize)
    requires
        call_ensures(MangaLoader::reset_index_state, (loader, page), ()),
    ensures
        !final(loader)@.book.loaded.contains_key(page),
        !final(loader)@.book.retry.contains_key(page),
        !final(loader)@.book.loading.contains_key(page),
        other != page ==> final(loader)@.book.loading.contains_key(other) == old(
            loader)@.book.loading.contains_key(other),
        other != page ==> final(loader)@.book.loaded.contains_key(other) == old(
            loader)@.book.loaded.contains_key(other),
        final(loader)@.dimensions == old(loader)@.dimensions,
        final(loader)@.generation == old(loader)@.generation,
{
}

/// A visible page is asked for again unless it is being decoded, is held back or cannot
/// be shown; what was there of it counts no more, and its failures are forgotten once
/// the request is taken.
pub proof fn law_visible_pages_are_asked_for_again(
    loader: &mut MangaLoader,
    pages: &Vec<PageSource>,
    page: usize,
    target: &LoadTarget,
    now: u64,
    requested: bool,
)
    requires
        call_ensures(
            MangaLoader::request_visible_retry,
            (loader, pages, page, target, now),
            requested,
        ),
    ensures
        requested ==> page < pages@.len() && pages@[page as int].kind != PageKind::Unsupported,
        requested ==> !(old(loader)@.book.loading.contains_key(page) && old(
            loader)@.book.loading[page] == old(loader)@.generation),
        requested ==> final(loader)@.book.loading.contains_key(page) && final(
            loader)@.book.loading[page] == old(loader)@.generation && !final(
            loader)@.book.retry.contains_key(page) && !final(loader)@.book.loaded.contains_key(page),
        page >= pages@.len() ==> final(loader)@ == old(loader)@,
        final(loader)@.dimensions == old(loader)@.dimensions,
{
}

/// The request for a visible page is for that page, and more urgent than any other.
pub proof fn law_visible_requests_are_most_urgent(
    loader: &MangaLoader,
    pages: &Vec<PageSource>,
    page: usize,
    target: &LoadTarget,
    now: u64,
    request: LoadRequest,
    visible: usize,
    jump: bool,
    plan: Vec<LoadRequest>,
    k: int,
)
    requires
        page < pages@.len(),
        call_ensures(
            MangaLoader::visible_retry_request,
            (loader, pages, page, target, now),
            request,
        ),
        call_ensures(MangaLoader::plan_preload, (loader, pages, visible, jump, target, now), plan),
        0 <= k < plan@.len(),
    ensures
        request.index == page,
        request.path@ == pages@[page as int].path@,
        request.generation == loader@.generation,
        request.queued_at == now,
        request.priority < 0,
        request.priority < plan@[k].priority,
{
    assert(pages.len() == pages@.len());
    lemma_planned(loader@, plan@, pages@, visible, jump, *target, now, k);
}

/// A retry counts if either queue took it.
pub proof fn law_retries_count_when_taken(
    loader: &mut MangaLoader,
    page: usize,
    urgent: SendOutcome,
    ordinary: Option<SendOutcome>,
    requested: bool,
)
    requires
        call_ensures(MangaLoader::record_visible_retry, (loader, page, urgent, ordinary), requested),
    ensures
        requested <==> urgent == SendOutcome::Sent || ordinary == Some(SendOutcome::Sent),
        !final(loader)@.book.loaded.contains_key(page),
        requested ==> final(loader)@.book.loading.contains_key(page) && final(
            loader)@.book.loading[page] == old(loader)@.generation && !final(
            loader)@.book.retry.contains_key(page),
        !requested ==> final(loader)@.book.loading == old(loader)@.book.loading && final(
            loader)@.book.retry == old(loader)@.book.retry,
{
}

/// The dimensions of a page become those of its video, but for differences of at most two
/// points that do not change its shape; a size without two sides counts for nothing.
pub proof fn law_video_dimensions_are_taken_over(
    loader: &mut MangaLoader,
    page: usize,
    width: u32,
    height: u32,
    close: bool,
    changed: bool,
    other: usize,
)
    requires
        call_ensures(MangaLoader::update_video_dimensions, (loader, page, width, height, close), changed),
    ensures
        width == 0 || height == 0 ==> !changed,
        !changed ==> final(loader)@ == old(loader)@,
        changed ==> final(loader)@.dimensions.contains_key(page) && final(
            loader)@.dimensions[page].width == width && final(loader)@.dimensions[page].height
            == height && final(loader)@.dimensions[page].media_type == MangaMediaType::Video,
        width > 0 && height > 0 && !old(loader)@.dimensions.contains_key(page) ==> changed,
        width > 0 && height > 0 && !close && !changed ==> old(loader)@.dimensions[page].width == width
            && old(loader)@.dimensions[page].height == height,
        width > 0 && height > 0 && old(loader)@.dimensions.contains_key(page) && (old(
            loader)@.dimensions[page].width > width + 2 || width > old(
            loader)@.dimensions[page].width + 2) ==> changed,
        other != page ==> final(loader)@.dimensions.contains_key(other) == old(
            loader)@.dimensions.contains_key(other),
        other != page && old(loader)@.dimensions.contains_key(other) ==> final(
            loader)@.dimensions[other] == old(loader)@.dimensions[other],
{
}

/// A picture that came in counts, and the size of its original becomes that of its page;
/// the page is reported once if that changed anything.
pub proof fn law_decoded_pictures_tell_their_size(
    loader: &mut MangaLoader,
    decoded: &DecodedImage,
    close: bool,
    updates: &mut Vec<usize>,
)
    requires
        call_ensures(MangaLoader::apply_decoded, (loader, decoded, close, updates), ()),
    ensures
        old(loader)@.stats.images_loaded < usize::MAX ==> final(loader)@.stats.images_loaded == old(
            loader)@.stats.images_loaded + 1,
        final(loader)@.dimensions.contains_key(decoded.index),
        !old(loader)@.dimensions.contains_key(decoded.index) || !close ==> final(
            loader)@.dimensions[decoded.index].width == decoded.original_width && final(
            loader)@.dimensions[decoded.index].height == decoded.original_height && final(
            loader)@.dimensions[decoded.index].media_type == decoded.media_type,
        final(updates)@ == old(updates)@ || final(updates)@ == old(updates)@.push(decoded.index),
        !old(loader)@.dimensions.contains_key(decoded.index) && !old(updates)@.contains(
            decoded.index,
        ) ==> final(updates)@ == old(updates)@.push(decoded.index),
        old(updates)@.contains(decoded.index) ==> final(updates)@ == old(updates)@,
        final(loader)@.book == old(loader)@.book,
{
}

/// Pages are probed only if they can be shown and nothing is known of them, by their own
/// paths, and 64 at a time.
pub proof fn law_unknown_pages_are_probed(
    loader: &MangaLoader,
    pages: &Vec<PageSource>,
    start: usize,
    end: usize,
    items: Vec<(usize, String)>,
    k: int,
)
    requires
        call_ensures(MangaLoader::plan_dimension_batch, (loader, pages, start, end), items),
        0 <= k < items@.len(),
    ensures
        items@.len() <= 64,
        start <= items@[k].0 < end,
        items@[k].0 < pages@.len(),
        items@[k].1@ == pages@[items@[k].0 as int].path@,
        pages@[items@[k].0 as int].kind != PageKind::Unsupported,
        !loader@.dimensions.contains_key(items@[k].0),
        !loader@.probing.contains(items@[k].0),
{
    let stop = if end < pages@.len() {
        end as int
    } else {
        pages@.len() as int
    };
    assert(pages.len() == pages@.len());
    lemma_missing_are_unknown(loader@, pages@, start as int, stop, k);
}

proof fn lemma_missing_are_unknown(
    state: LoaderState,
    pages: Seq<PageSource>,
    start: int,
    end: int,
    k: int,
)
    requires
        0 <= start,
        end <= pages.len() <= usize::MAX,
        0 <= k < state.missing_pages(pages, start, end).len(),
    ensures
        start <= state.missing_pages(pages, start, end)[k] < end,
        state.lacks_dimensions(pages, state.missing_pages(pages, start, end)[k] as int),
    decreases end - start,
{
    if end > start {
        let before = state.missing_pages(pages, start, end - 1);
        if k < before.len() {
            lemma_missing_are_unknown(state, pages, start, end - 1, k);
        }
    }
}

/// A request for dimensions names the present generation and what it is for.
pub proof fn law_dimension_requests_are_of_the_generation(
    loader: &MangaLoader,
    items: Vec<(usize, String)>,
    request: DimRequest,
)
    requires
        call_ensures(MangaLoader::dimension_request, (loader, items), request),
    ensures
        request.generation == loader@.generation,
        request.items@ == items@,
{
}

/// Pages count as being probed only if the queue took the request for them.
pub proof fn law_refused_probes_do_not_count(
    loader: &mut MangaLoader,
    asked: &Vec<usize>,
    outcome: SendOutcome,
    sent: bool,
    page: usize,
)
    requires
        call_ensures(MangaLoader::record_dimension_request, (loader, asked, outcome), sent),
    ensures
        sent <==> outcome == SendOutcome::Sent,
        !sent ==> final(loader)@ == old(loader)@,
        sent ==> (final(loader)@.probing.contains(page) <==> old(loader)@.probing.contains(page)
            || asked@.contains(page)),
        final(loader)@.dimensions == old(loader)@.dimensions,
        final(loader)@.book == old(loader)@.book,
{
    assert(asked@.to_set().contains(page) <==> asked@.contains(page));
}

/// What a probe found is known of its page, which is not being probed any more.
pub proof fn law_probed_dimensions_are_known(
    loader: &mut MangaLoader,
    items: &Vec<(usize, PageDimensions)>,
    updated: &mut Vec<usize>,
    other: usize,
)
    requires
        call_ensures(MangaLoader::apply_dimension_items, (loader, items, updated), ()),
    ensures
        items@.len() > 0 ==> final(loader)@.dimensions.contains_key(items@.last().0) && final(
            loader)@.dimensions[items@.last().0] == items@.last().1 && !final(
            loader)@.probing.contains(items@.last().0),
        (forall|k: int| 0 <= k < items@.len() ==> (#[trigger] items@[k]).0 != other) ==> {
            &&& final(loader)@.dimensions.contains_key(other) == old(
                loader)@.dimensions.contains_key(other)
            &&& old(loader)@.dimensions.contains_key(other) ==> final(loader)@.dimensions[other]
                == old(loader)@.dimensions[other]
            &&& final(loader)@.probing.contains(other) == old(loader)@.probing.contains(other)
        },
        items@.len() == 1 && !old(loader)@.dimensions.contains_key(items@[0].0) ==> final(updated)@
            == old(updated)@.push(items@[0].0),
        items@.len() == 1 && old(loader)@.dimensions.contains_key(items@[0].0) && old(
            loader)@.dimensions[items@[0].0] == items@[0].1 ==> final(updated)@ == old(updated)@,
        items@.len() == 1 && old(loader)@.dimensions.contains_key(items@[0].0) && old(
            loader)@.dimensions[items@[0].0] != items@[0].1 ==> final(updated)@ == old(updated)@.push(
            items@[0].0,
        ),
        final(loader)@.book == old(loader)@.book,
{
    let state = old(loader)@;
    if items@.len() > 0 {
        assert(items@.last() == items@[items@.len() - 1]);
        lemma_probed_others(state, items@.drop_last(), other);
    }
    lemma_probed_others(state, items@, other);
    if items@.len() == 1 {
        let none = items@.drop_last();
        assert(none.len() == 0);
        assert(state.probed(none) == state);
        assert(state.probe_updates(none) =~= Seq::<usize>::empty());
        assert(items@.last() == items@[0]);
        if state.probe_updates(items@).len() > 0 {
            assert(old(updated)@ + state.probe_updates(items@) =~= old(updated)@.push(items@[0].0));
        } else {
            assert(old(updated)@ + state.probe_updates(items@) =~= old(updated)@);
        }
    }
}

proof fn lemma_probed_others(state: LoaderState, items: Seq<(usize, PageDimensions)>, other: usize)
    ensures
        state.probed(items).book == state.book,
        (forall|k: int| 0 <= k < items.len() ==> (#[trigger] items[k]).0 != other) ==> {
            &&& state.probed(items).dimensions.contains_key(other) == state.dimensions.contains_key(
                other,
            )
            &&& state.dimensions.contains_key(other) ==> state.probed(items).dimensions[other]
                == state.dimensions[other]
            &&& state.probed(items).probing.contains(other) == state.probing.contains(other)
        },
    decreases items.len(),
{
    if items.len() > 0 {
        lemma_probed_others(state, items.drop_last(), other);
        if forall|k: int| 0 <= k < items.len() ==> (#[trigger] items[k]).0 != other {
            assert forall|k: int| 0 <= k < items.drop_last().len() implies (
            #[trigger] items.drop_last()[k]).0 != other by {
                assert(items.drop_last()[k] == items[k]);
            }
            assert(items[items.len() - 1].0 != other);
        }
    }
}

/// A result of another generation changes nothing, and one of the present generation is
/// taken in as it is.
pub proof fn law_results_count_in_their_generation(
    loader: &mut MangaLoader,
    result: &DimResult,
    updated: &mut Vec<usize>,
)
    requires
        call_ensures(MangaLoader::apply_dimension_result, (loader, result, updated), ()),
    ensures
        result.generation != old(loader)@.generation ==> final(loader)@ == old(loader)@ && final(
            updated)@ == old(updated)@,
        result.generation == old(loader)@.generation && result.items@.len() > 0 ==> final(
            loader)@.dimensions.contains_key(result.items@.last().0) && final(
            loader)@.dimensions[result.items@.last().0] == result.items@.last().1,
        final(loader)@.generation == old(loader)@.generation,
{
    lemma_probed_generation(old(loader)@, result.items@);
}

/// Dimensions that are set are the ones that are read.
pub proof fn law_set_dimensions_are_read(
    loader: &mut MangaLoader,
    page: usize,
    dimensions: PageDimensions,
    after: &MangaLoader,
    asked: usize,
    size: Option<(u32, u32)>,
    media_type: Option<MangaMediaType>,
)
    requires
        call_ensures(MangaLoader::set_dimensions, (loader, page, dimensions), ()),
        *after == *final(loader),
        call_ensures(MangaLoader::get_dimensions, (after, asked), size),
        call_ensures(MangaLoader::get_media_type, (after, asked), media_type),
    ensures
        asked == page ==> size == Some((dimensions.width, dimensions.height)) && media_type == Some(
            dimensions.media_type,
        ),
        asked != page ==> (size is Some <==> old(loader)@.dimensions.contains_key(asked)),
        asked != page ==> (size matches Some((w, h)) ==> w == old(loader)@.dimensions[asked].width && h
            == old(loader)@.dimensions[asked].height),
        size is Some <==> media_type is Some,
{
}

/// A page that is not known yet is taken to be upright if it is an image and wide if it
/// is a video; what was found of it counts before that.
pub proof fn law_unknown_pages_are_assumed(
    kind: PageKind,
    found: Option<(u32, u32)>,
    dimensions: Option<PageDimensions>,
)
    requires
        call_ensures(dimensions_or_assumed, (kind, found), dimensions),
    ensures
        dimensions is None <==> kind == PageKind::Unsupported,
        dimensions matches Some(d) ==> (found matches Some((w, h)) ==> d.width == w && d.height == h),
        dimensions matches Some(d) ==> (kind == PageKind::Video <==> d.media_type
            == MangaMediaType::Video),
        dimensions matches Some(d) ==> (kind == PageKind::Image <==> d.media_type
            == MangaMediaType::StaticImage),
        dimensions matches Some(d) ==> found is None && kind == PageKind::Image ==> d.width == 1200
            && d.height == 1600,
        dimensions matches Some(d) ==> found is None && kind == PageKind::Video ==> d.width == 1920
            && d.height == 1080,
{
}

/// A loader reports what it holds.
pub proof fn law_loader_reports_what_it_holds(
    loader: &MangaLoader,
    generation: usize,
    stats: LoaderStats,
    loads: usize,
)
    requires
        call_ensures(MangaLoader::generation, (loader,), generation),
        call_ensures(MangaLoader::stats, (loader,), stats),
        call_ensures(MangaLoader::pending_load_count, (loader,), loads),
    ensures
        generation == loader@.generation,
        stats == loader@.stats,
        loads == loader@.book.loading.dom().len(),
{
}

/// A new loader knows nothing and scrolls down from the first page.
pub proof fn law_new_loader_knows_nothing(made: (MangaLoader, LoaderWorker), page: usize)
    requires
        call_ensures(MangaLoader::new, (), made),
    ensures
        !made.0@.dimensions.contains_key(page),
        !made.0@.book.loading.contains_key(page) && !made.0@.book.loaded.contains_key(page)
            && !made.0@.book.retry.contains_key(page),
        made.0@.scrolling_down,
        made.0@.last_visible == 0,
        made.0@.stats.images_loaded == 0,
{
}

/// What the cache had of a page becomes known of it, under the kind that it was looked up
/// under; pages that it had nothing of stay unknown.
pub proof fn law_cached_dimensions_become_known(
    loader: &mut MangaLoader,
    lookups: &Vec<(usize, CachedMediaKind)>,
    found: &Vec<Option<(u32, u32)>>,
    k: int,
)
    requires
        call_ensures(MangaLoader::apply_cached_dimensions, (loader, lookups, found), ()),
        found@.len() == lookups@.len(),
        forall|i: int, j: int|
            0 <= i < j < lookups@.len() ==> (#[trigger] lookups@[i]).0 != (#[trigger] lookups@[j]).0,
        0 <= k < lookups@.len(),
        !old(loader)@.dimensions.contains_key(lookups@[k].0),
    ensures
        final(loader)@.dimensions.contains_key(lookups@[k].0) <==> found@[k] is Some,
        found@[k] matches Some((w, h)) ==> final(loader)@.dimensions[lookups@[k].0].width == w && final(
            loader)@.dimensions[lookups@[k].0].height == h,
        found@[k] is Some ==> (final(loader)@.dimensions[lookups@[k].0].media_type
            == MangaMediaType::Video <==> lookups@[k].1 == CachedMediaKind::Video),
{
    lemma_with_cached(old(loader)@.dimensions, lookups@, found@, lookups@.len() as int, k);
}

proof fn lemma_with_cached(
    known: Map<usize, PageDimensions>,
    items: Seq<(usize, CachedMediaKind)>,
    found: Seq<Option<(u32, u32)>>,
    count: int,
    k: int,
)
    requires
        0 <= count <= items.len() == found.len(),
        0 <= k < items.len(),
        forall|i: int, j: int|
            0 <= i < j < items.len() ==> (#[trigger] items[i]).0 != (#[trigger] items[j]).0,
        !known.contains_key(items[k].0),
    ensures
        with_cached(known, items, found, count).contains_key(items[k].0) <==> k < count && found[k]
            is Some,
        k < count ==> (found[k] matches Some((w, h)) ==> with_cached(
            known,
            items,
            found,
            count,
        )[items[k].0] == (PageDimensions {
            width: w,
            height: h,
            media_type: presumed_media_type(items[k].1),
        })),
    decreases count,
{
    if count > 0 {
        lemma_with_cached(known, items, found, count - 1, k);
        if k < count - 1 {
            assert(items[k].0 != items[count - 1].0);
        } else if k > count - 1 {
            assert(items[count - 1].0 != items[k].0);
        }
    }
}

/// At the start at most thirty pages are probed, of those that can be shown and are not
/// known.
pub proof fn law_first_pages_are_probed_at_the_start(
    loader: &MangaLoader,
    pages: &Vec<PageSource>,
    probe: Vec<usize>,
    k: int,
)
    requires
        call_ensures(MangaLoader::initial_probe_pages, (loader, pages), probe),
        0 <= k < probe@.len(),
    ensures
        probe@.len() <= 30,
        probe@[k] < pages@.len(),
        pages@[probe@[k] as int].kind != PageKind::Unsupported,
        !loader@.dimensions.contains_key(probe@[k]),
{
    assert(pages.len() == pages@.len());
    lemma_uncached(loader@.dimensions, pages@, pages@.len() as int, k);
}

proof fn lemma_uncached(
    known: Map<usize, PageDimensions>,
    pages: Seq<PageSource>,
    end: int,
    k: int,
)
    requires
        0 <= end <= pages.len() <= usize::MAX,
        0 <= k < uncached_pages(known, pages, end).len(),
    ensures
        uncached_pages(known, pages, end)[k] < end,
        pages[uncached_pages(known, pages, end)[k] as int].kind != PageKind::Unsupported,
        !known.contains_key(uncached_pages(known, pages, end)[k]),
    decreases end,
{
    if end > 0 {
        let before = uncached_pages(known, pages, end - 1);
        if k < before.len() {
            lemma_uncached(known, pages, end - 1, k);
        }
    }
}

/// Only a video whose size differs by so little that its shape decides is in question.
pub proof fn law_near_sizes_are_in_question(
    loader: &MangaLoader,
    page: usize,
    new: PageDimensions,
    known: Option<(u32, u32)>,
)
    requires
        call_ensures(MangaLoader::shape_in_question, (loader, page, new), known),
    ensures
        known matches Some((w, h)) ==> {
            &&& loader@.dimensions.contains_key(page)
            &&& loader@.dimensions[page].width == w && loader@.dimensions[page].height == h
            &&& new.media_type == MangaMediaType::Video
            &&& w <= new.width + 2 && new.width <= w + 2 && h <= new.height + 2 && new.height <= h + 2
        },
        loader@.dimensions.contains_key(page) && loader@.dimensions[page] != new
            && loader@.dimensions[page].media_type == MangaMediaType::Video && new.media_type
            == MangaMediaType::Video && loader@.dimensions[page].width == new.width
            && loader@.dimensions[page].height <= new.height <= loader@.dimensions[page].height + 2
            ==> known is Some,
{
}

/// Asking for dimensions marks pages of the range as being probed, at most 64 and only
/// such that nothing was known of; whether it does depends on the queue.
pub proof fn law_asked_dimensions_are_probed(
    loader: &mut MangaLoader,
    pages: &Vec<PageSource>,
    start: usize,
    end: usize,
    page: usize,
)
    requires
        call_ensures(MangaLoader::request_dimensions_range, (loader, pages, start, end), ())
            || call_ensures(
            MangaLoader::request_dimensions_range_background,
            (loader, pages, start, end),
            (),
        ),
    ensures
        final(loader)@.probing.contains(page) && !old(loader)@.probing.contains(page) ==> start <= page
            < end && page < pages@.len() && pages@[page as int].kind != PageKind::Unsupported && !old(
            loader)@.dimensions.contains_key(page),
        old(loader)@.probing.contains(page) ==> final(loader)@.probing.contains(page),
        final(loader)@.dimensions == old(loader)@.dimensions,
        final(loader)@.book == old(loader)@.book,
        final(loader)@.generation == old(loader)@.generation,
{
    let state = old(loader)@;
    let batch = state.dimension_batch(pages@, start, end);
    let outcome = choose|outcome: SendOutcome|
        final(loader)@ == #[trigger] state.after_request(batch.to_set(), outcome);
    if final(loader)@.probing.contains(page) && !state.probing.contains(page) {
        assert(pages.len() == pages@.len());
        assert(batch.contains(page));
        let k = choose|k: int| 0 <= k < batch.len() && batch[k] == page;
        let stop = if end < pages@.len() {
            end as int
        } else {
            pages@.len() as int
        };
        lemma_missing_are_unknown(state, pages@, start as int, stop, k);
    }
}

/// A new list of pages starts without dimensions and looks up every page that can be
/// shown, under its kind.
pub proof fn law_all_showable_pages_are_looked_up(
    loader: &mut MangaLoader,
    pages: &Vec<PageSource>,
    lookups: Vec<(usize, CachedMediaKind)>,
    page: usize,
)
    requires
        call_ensures(MangaLoader::begin_dimension_cache, (loader, pages), lookups),
        page < pages@.len(),
    ensures
        !final(loader)@.dimensions.contains_key(page),
        final(loader)@.book == old(loader)@.book,
        pages@[page as int].kind == PageKind::Image ==> lookups@.contains(
            (page, CachedMediaKind::Image),
        ),
        pages@[page as int].kind == PageKind::Video ==> lookups@.contains(
            (page, CachedMediaKind::Video),
        ),
{
    lemma_showable(pages@, pages@.len() as int, page as int);
}

proof fn lemma_showable(pages: Seq<PageSource>, end: int, page: int)
    requires
        0 <= page < end <= pages.len(),
    ensures
        lookup_kind(pages[page].kind) matches Some(kind) ==> showable_pages(pages, end).contains(
            (page as usize, kind),
        ),
    decreases end,
{
    let before = showable_pages(pages, end - 1);
    let all = showable_pages(pages, end);
    if page < end - 1 {
        lemma_showable(pages, end - 1, page);
        if let Some(kind) = lookup_kind(pages[page].kind) {
            let k = choose|k: int| 0 <= k < before.len() && before[k] == (page as usize, kind);
            assert(all[k] == (page as usize, kind));
        }
    } else if let Some(kind) = lookup_kind(pages[page].kind) {
        assert(all[all.len() - 1] == (page as usize, kind));
    }
}

/// What the first probes found becomes known; a page of which nothing was found keeps
/// what was known.
pub proof fn law_first_probes_become_known(
    loader: &mut MangaLoader,
    items: &Vec<(usize, Option<PageDimensions>)>,
    page_count: usize,
    cached: usize,
    k: int,
)
    requires
        call_ensures(MangaLoader::apply_probed_dimensions, (loader, items, page_count), cached),
        forall|i: int, j: int|
            0 <= i < j < items@.len() ==> (#[trigger] items@[i]).0 != (#[trigger] items@[j]).0,
        0 <= k < items@.len(),
    ensures
        items@[k].1 matches Some(d) ==> final(loader)@.dimensions.contains_key(items@[k].0) && final(
            loader)@.dimensions[items@[k].0] == d,
        items@[k].1 is None ==> final(loader)@.dimensions.contains_key(items@[k].0) == old(
            loader)@.dimensions.contains_key(items@[k].0),
        final(loader)@.book == old(loader)@.book,
{
    lemma_with_probed(old(loader)@.dimensions, items@, items@.len() as int, k);
}

proof fn lemma_with_probed(
    known: Map<usize, PageDimensions>,
    items: Seq<(usize, Option<PageDimensions>)>,
    count: int,
    k: int,
)
    requires
        0 <= count <= items.len(),
        0 <= k < items.len(),
        forall|i: int, j: int|
            0 <= i < j < items.len() ==> (#[trigger] items[i]).0 != (#[trigger] items[j]).0,
    ensures
        k >= count ==> with_probed(known, items, count).contains_key(items[k].0)
            == known.contains_key(items[k].0),
        k < count ==> (items[k].1 matches Some(d) ==> with_probed(known, items, count).contains_key(
            items[k].0,
        ) && with_probed(known, items, count)[items[k].0] == d),
        k < count && items[k].1 is None ==> with_probed(known, items, count).contains_key(items[k].0)
            == known.contains_key(items[k].0),
    decreases count,
{
    if count > 0 {
        lemma_with_probed(known, items, count - 1, k);
        if k < count - 1 {
            assert(items[k].0 != items[count - 1].0);
        } else if k > count - 1 {
            assert(items[count - 1].0 != items[k].0);
        }
    }
}

/// What is polled is of the present generation, and changes nothing but what is known of
/// pages and which are being probed.
pub proof fn law_polling_takes_dimensions_in(
    loader: &mut MangaLoader,
    max_messages: usize,
    updated: Vec<usize>,
)
    requires
        call_ensures(MangaLoader::poll_dimension_results, (loader, max_messages), updated),
    ensures
        final(loader)@.book == old(loader)@.book,
        final(loader)@.generation == old(loader)@.generation,
        max_messages == 0 ==> final(loader)@ == old(loader)@ && updated@.len() == 0,
{
    let results = choose|results: Seq<DimResult>|
        {
            &&& results.len() <= max_messages
            &&& final(loader)@ == #[trigger] old(loader)@.with_results(results)
            &&& updated@ == old(loader)@.result_updates(results)
        };
    lemma_results_keep_the_book(old(loader)@, results);
}

proof fn lemma_results_keep_the_book(state: LoaderState, results: Seq<DimResult>)
    ensures
        state.with_results(results).book == state.book,
        state.with_results(results).generation == state.generation,
    decreases results.len(),
{
    if results.len() > 0 {
        lemma_results_keep_the_book(state, results.drop_last());
        let before = state.with_results(results.drop_last());
        lemma_probed_others(before, results.last().items@, 0);
        lemma_probed_generation(before, results.last().items@);
    }
}

/// A page against the direction of scrolling counts as ten pages further off.
pub proof fn law_pages_behind_count_as_further_off(
    loader: &MangaLoader,
    pages: &Vec<PageSource>,
    visible: usize,
    jump: bool,
    target: &LoadTarget,
    now: u64,
    plan: Vec<LoadRequest>,
    a: int,
    b: int,
)
    requires
        call_ensures(MangaLoader::plan_preload, (loader, pages, visible, jump, target, now), plan),
        0 <= a < plan@.len(),
        0 <= b < plan@.len(),
        plan@[b].index < visible < plan@[a].index,
    ensures
        loader@.scrolling_down ==> (plan@[b].priority < plan@[a].priority <==> visible
            - plan@[b].index + 10 < plan@[a].index - visible),
        !loader@.scrolling_down ==> (plan@[a].priority < plan@[b].priority <==> plan@[a].index
            - visible + 10 < visible - plan@[b].index),
{
    assert(pages.len() == pages@.len());
    lemma_planned(loader@, plan@, pages@, visible, jump, *target, now, a);
    lemma_planned(loader@, plan@, pages@, visible, jump, *target, now, b);
}

/// Where enough pages are unknown, thirty are probed at the start and 64 at a time later;
/// no more pictures are taken in at a time than asked for, and 128 at most.
pub proof fn law_work_comes_in_portions(
    loader: &MangaLoader,
    pages: &Vec<PageSource>,
    probe: Vec<usize>,
    start: usize,
    end: usize,
    items: Vec<(usize, String)>,
    max_items: usize,
    received: Vec<DecodedImage>,
)
    requires
        call_ensures(MangaLoader::initial_probe_pages, (loader, pages), probe),
        call_ensures(MangaLoader::plan_dimension_batch, (loader, pages, start, end), items),
        call_ensures(MangaLoader::receive_decoded, (loader, max_items), received),
        end <= pages@.len(),
    ensures
        uncached_pages(loader@.dimensions, pages@, pages@.len() as int).len() >= 30 ==> probe@.len()
            == 30,
        uncached_pages(loader@.dimensions, pages@, pages@.len() as int).len() < 30 ==> probe@.len()
            == uncached_pages(loader@.dimensions, pages@, pages@.len() as int).len(),
        loader@.missing_pages(pages@, start as int, end as int).len() >= 64 ==> items@.len() == 64,
        loader@.missing_pages(pages@, start as int, end as int).len() < 64 ==> items@.len()
            == loader@.missing_pages(pages@, start as int, end as int).len(),
        received@.len() <= 128,
        max_items >= 1 ==> received@.len() <= max_items,
{
}

} // verus!
