//! The book on page loading that the viewer and its decoding threads share, and
//! the rules by which a decoding thread works through its requests.

use crate::channel::{try_recv, try_send, SendOutcome};
use crate::manga_loader::{
    backoff_ms, retry_backoff_for_attempt, DecodedImage, LoadRequest, RetryState,
    DECODE_BATCH_SIZE, NANOS_PER_MILLI,
};
use crate::page_map::PageMap;
use vstd::prelude::*;

verus! {

/// What a [`LoadBook`] says.
pub struct LoadBookState {
    /// The pages that are being decoded, with the generation of their request.
    pub loading: Map<usize, usize>,
    /// The largest side that a page was decoded for.
    pub loaded: Map<usize, u32>,
    /// The pages that could not be decoded.
    pub retry: Map<usize, RetryState>,
}

/// What decoding a request came to, as far as the book is concerned.
pub enum PublishedOutcome {
    /// The request was passed over.
    Skipped,
    /// The page could not be decoded.
    Failed,
    /// The page was decoded.  It is usable if it has pixels; `side` is its longer
    /// side, and `sent` says whether it reached the viewer.
    Decoded { usable: bool, side: u32, sent: SendOutcome },
}

impl LoadBookState {
    pub open spec fn empty() -> Self {
        LoadBookState { loading: Map::empty(), loaded: Map::empty(), retry: Map::empty() }
    }

    /// The page is being decoded for the given generation.
    pub open spec fn is_loading(self, page: usize, generation: usize) -> bool {
        self.loading.contains_key(page) && self.loading[page] == generation
    }

    /// The page was decoded for `side` or more.
    pub open spec fn is_loaded(self, page: usize, side: u32) -> bool {
        self.loaded.contains_key(page) && self.loaded[page] >= side
    }

    /// The page failed and may not be tried again now.
    pub open spec fn is_held_back(self, page: usize, now: u64) -> bool {
        self.retry.contains_key(page) && !self.retry[page].open(now)
    }

    /// The request for a page has come to its end.
    pub open spec fn finished(self, page: usize, generation: usize) -> Self {
        if self.is_loading(page, generation) {
            LoadBookState { loading: self.loading.remove(page), ..self }
        } else {
            self
        }
    }

    /// How often decoding a page has failed.
    pub open spec fn attempts(self, page: usize) -> u8 {
        if self.retry.contains_key(page) {
            self.retry[page].attempts
        } else {
            0
        }
    }

    /// Decoding a page failed once more.
    pub open spec fn failed(self, page: usize, now: u64) -> Self {
        let attempts = if self.attempts(page) == 255 {
            255u8
        } else {
            (self.attempts(page) + 1) as u8
        };
        let due = now + backoff_ms(attempts) * NANOS_PER_MILLI;
        LoadBookState {
            loaded: self.loaded.remove(page),
            retry: self.retry.insert(
                page,
                RetryState {
                    attempts,
                    next_retry_at: if due > u64::MAX {
                        u64::MAX
                    } else {
                        due as u64
                    },
                },
            ),
            ..self
        }
    }

    /// The page was decoded for `side` and its picture is on its way.
    pub open spec fn delivered(self, page: usize, side: u32) -> Self {
        LoadBookState {
            loaded: self.loaded.insert(
                page,
                if self.is_loaded(page, side) {
                    self.loaded[page]
                } else {
                    side
                },
            ),
            retry: self.retry.remove(page),
            ..self
        }
    }

    /// The book after a request was worked through.  A picture that the viewer
    /// had no room for does not count as decoded, so that it can be asked for
    /// again.
    pub open spec fn published(
        self,
        page: usize,
        generation: usize,
        generation_changed: bool,
        outcome: PublishedOutcome,
        now: u64,
    ) -> Self {
        let done = self.finished(page, generation);
        if generation_changed {
            done
        } else {
            match outcome {
                PublishedOutcome::Skipped => done,
                PublishedOutcome::Failed => done.failed(page, now),
                PublishedOutcome::Decoded { usable, side, sent } => match sent {
                    SendOutcome::Sent => if usable {
                        done.delivered(page, side)
                    } else {
                        done.failed(page, now)
                    },
                    SendOutcome::Full => LoadBookState { loaded: done.loaded.remove(page), ..done },
                    SendOutcome::Disconnected => done,
                },
            }
        }
    }
}

/// Which pages are being decoded, which have been, and which failed.
pub struct LoadBook {
    loading: PageMap<usize>,
    loaded: PageMap<u32>,
    retry: PageMap<RetryState>,
}

impl View for LoadBook {
    type V = LoadBookState;

    closed spec fn view(&self) -> LoadBookState {
        LoadBookState { loading: self.loading@, loaded: self.loaded@, retry: self.retry@ }
    }
}

/// What decoding a request came to.
pub enum DecodeOutcome {
    Skipped,
    Failed,
    Decoded(DecodedImage),
}

/// The picture has pixels.
pub open spec fn usable_picture(decoded: DecodedImage) -> bool {
    decoded.pixels@.len() > 0 && decoded.width > 0 && decoded.height > 0
}

pub open spec fn longer_side(decoded: DecodedImage) -> u32 {
    if decoded.width > decoded.height {
        decoded.width
    } else {
        decoded.height
    }
}

/// What the book takes note of, given whether the picture was sent.
pub open spec fn published_outcome(outcome: DecodeOutcome, sent: SendOutcome) -> PublishedOutcome {
    match outcome {
        DecodeOutcome::Skipped => PublishedOutcome::Skipped,
        DecodeOutcome::Failed => PublishedOutcome::Failed,
        DecodeOutcome::Decoded(decoded) => PublishedOutcome::Decoded {
            usable: usable_picture(decoded),
            side: longer_side(decoded),
            sent,
        },
    }
}

impl LoadBook {
    pub closed spec fn wf(&self) -> bool {
        self.loading.wf() && self.loaded.wf() && self.retry.wf()
    }

    pub fn new() -> (book: Self)
        ensures
            book.wf(),
            book@ == LoadBookState::empty(),
    {
        LoadBook { loading: PageMap::new(), loaded: PageMap::new(), retry: PageMap::new() }
    }

    /// How many pages are being decoded.
    pub fn loading_count(&self) -> (count: usize)
        requires
            self.wf(),
        ensures
            count == self@.loading.dom().len(),
    {
        self.loading.len()
    }

    pub fn is_loading(&self, page: usize, generation: usize) -> (loading: bool)
        requires
            self.wf(),
        ensures
            loading == self@.is_loading(page, generation),
    {
        match self.loading.get(page) {
            Some(current) => *current == generation,
            None => false,
        }
    }

    pub fn is_loaded(&self, page: usize, side: u32) -> (loaded: bool)
        requires
            self.wf(),
        ensures
            loaded == self@.is_loaded(page, side),
    {
        match self.loaded.get(page) {
            Some(current) => *current >= side,
            None => false,
        }
    }

    pub fn is_held_back(&self, page: usize, now: u64) -> (held_back: bool)
        requires
            self.wf(),
        ensures
            held_back == self@.is_held_back(page, now),
    {
        match self.retry.get(page) {
            Some(state) => !state.is_open(now),
            None => false,
        }
    }

    /// Takes note that a request for a page was handed out.
    pub fn start(&mut self, page: usize, generation: usize)
        requires
            old(self).wf(),
        ensures
            final(self).wf(),
            final(self)@ == (LoadBookState {
                loading: old(self)@.loading.insert(page, generation),
                ..old(self)@
            }),
    {
        self.loading.insert(page, generation);
    }

    /// Forgets how far a page was decoded.
    pub fn forget_loaded(&mut self, page: usize)
        requires
            old(self).wf(),
        ensures
            final(self).wf(),
            final(self)@ == (LoadBookState { loaded: old(self)@.loaded.remove(page), ..old(self)@ }),
    {
        let _ = self.loaded.remove(page);
    }

    /// Forgets the failures of a page.
    pub fn forget_failures(&mut self, page: usize)
        requires
            old(self).wf(),
        ensures
            final(self).wf(),
            final(self)@ == (LoadBookState { retry: old(self)@.retry.remove(page), ..old(self)@ }),
    {
        let _ = self.retry.remove(page);
    }

    /// Forgets that a page is being decoded.
    pub fn forget_loading(&mut self, page: usize)
        requires
            old(self).wf(),
        ensures
            final(self).wf(),
            final(self)@ == (LoadBookState {
                loading: old(self)@.loading.remove(page),
                ..old(self)@
            }),
    {
        let _ = self.loading.remove(page);
    }

    /// Forgets which pages are being decoded.
    pub fn clear_loading(&mut self)
        requires
            old(self).wf(),
        ensures
            final(self).wf(),
            final(self)@ == (LoadBookState { loading: Map::empty(), ..old(self)@ }),
    {
        self.loading.clear();
    }

    /// Forgets everything.
    pub fn clear(&mut self)
        ensures
            final(self).wf(),
            final(self)@ == LoadBookState::empty(),
    {
        self.loading.clear();
        self.loaded.clear();
        self.retry.clear();
    }

    /// Takes note that the request of a generation for a page has come to its
    /// end.  A newer request for the page goes on.
    pub fn clear_loading_if_generation(&mut self, page: usize, generation: usize)
        requires
            old(self).wf(),
        ensures
            final(self).wf(),
            final(self)@ == old(self)@.finished(page, generation),
    {
        if self.is_loading(page, generation) {
            let _ = self.loading.remove(page);
        }
    }

    /// Takes note that a page could not be decoded.
    pub fn register_decode_failure(&mut self, page: usize, now: u64)
        requires
            old(self).wf(),
        ensures
            final(self).wf(),
            final(self)@ == old(self)@.failed(page, now),
    {
        let _ = self.loaded.remove(page);
        let before: u8 = match self.retry.get(page) {
            Some(state) => state.attempts,
            None => 0,
        };
        let attempts: u8 = before.saturating_add(1);
        let delay: u64 = retry_backoff_for_attempt(attempts) * NANOS_PER_MILLI;
        let next_retry_at: u64 = now.saturating_add(delay);
        self.retry.insert(page, RetryState { attempts, next_retry_at });
    }

    /// Whether a request is to be decoded at all: it is of the present generation
    /// and the page was not decoded for that side yet.
    pub fn should_decode(&self, request: &LoadRequest, shutdown: bool, generation: usize) -> (decode:
        bool)
        requires
            self.wf(),
        ensures
            decode == (!shutdown && request.generation == generation && !self@.is_loaded(
                request.index,
                request.target_texture_side,
            )),
    {
        !shutdown && request.generation == generation && !self.is_loaded(
            request.index,
            request.target_texture_side,
        )
    }

    /// Takes note of what decoding a request came to, once it is known whether
    /// its picture was sent.  Says whether the decoding thread is to go on.
    pub fn record_publish(
        &mut self,
        page: usize,
        generation: usize,
        generation_changed: bool,
        outcome: PublishedOutcome,
        now: u64,
    ) -> (go_on: bool)
        requires
            old(self).wf(),
        ensures
            final(self).wf(),
            final(self)@ == old(self)@.published(page, generation, generation_changed, outcome, now),
            go_on == (generation_changed || !(outcome matches PublishedOutcome::Decoded { sent, .. }
                && sent == SendOutcome::Disconnected)),
    {
        self.clear_loading_if_generation(page, generation);
        if generation_changed {
            return true;
        }
        match outcome {
            PublishedOutcome::Skipped => true,
            PublishedOutcome::Failed => {
                self.register_decode_failure(page, now);
                true
            },
            PublishedOutcome::Decoded { usable, side, sent } => match sent {
                SendOutcome::Sent => {
                    if usable {
                        if !self.is_loaded(page, side) {
                            self.loaded.insert(page, side);
                        }
                        let _ = self.retry.remove(page);
                        proof {
                            let done = old(self)@.finished(page, generation);
                            assert(self@.loaded =~= done.delivered(page, side).loaded);
                        }
                    } else {
                        self.register_decode_failure(page, now);
                    }
                    true
                },
                SendOutcome::Full => {
                    self.forget_loaded(page);
                    true
                },
                SendOutcome::Disconnected => false,
            },
        }
    }

    /// Sends a decoded picture to the viewer and takes note of what came of the
    /// request.  Says whether the decoding thread is to go on.
    pub fn publish_one(
        &mut self,
        page: usize,
        generation: usize,
        generation_changed: bool,
        outcome: DecodeOutcome,
        results: &crossbeam_channel::Sender<DecodedImage>,
        now: u64,
    ) -> (go_on: bool)
        requires
            old(self).wf(),
        ensures
            final(self).wf(),
            exists|sent: SendOutcome|
                final(self)@ == old(self)@.published(
                    page,
                    generation,
                    generation_changed,
                    #[trigger] published_outcome(outcome, sent),
                    now,
                ) && go_on == (generation_changed || !(outcome is Decoded) || sent
                    != SendOutcome::Disconnected),
    {
        if generation_changed {
            self.clear_loading_if_generation(page, generation);
            assert(self@ == old(self)@.published(
                page,
                generation,
                true,
                published_outcome(outcome, SendOutcome::Full),
                now,
            ));
            return true;
        }
        let ghost given = outcome;
        match outcome {
            DecodeOutcome::Skipped => {
                assert(published_outcome(given, SendOutcome::Sent) is Skipped);
                self.record_publish(page, generation, false, PublishedOutcome::Skipped, now)
            },
            DecodeOutcome::Failed => {
                assert(published_outcome(given, SendOutcome::Sent) is Failed);
                self.record_publish(page, generation, false, PublishedOutcome::Failed, now)
            },
            DecodeOutcome::Decoded(decoded) => {
                let usable = decoded.pixels.len() > 0 && decoded.width > 0 && decoded.height > 0;
                let side: u32 = if decoded.width > decoded.height {
                    decoded.width
                } else {
                    decoded.height
                };
                let sent = try_send(results, decoded);
                assert(published_outcome(given, sent) == (PublishedOutcome::Decoded {
                    usable,
                    side,
                    sent,
                }));
                self.record_publish(
                    page,
                    generation,
                    false,
                    PublishedOutcome::Decoded { usable, side, sent },
                    now,
                )
            },
        }
    }
}

/// A page whose picture could not be delivered can be asked for again: it is
/// neither being decoded nor decoded.
pub proof fn law_undelivered_page_is_open(
    book: LoadBookState,
    page: usize,
    generation: usize,
    usable: bool,
    side: u32,
    now: u64,
)
    ensures
        ({
            let after = book.published(
                page,
                generation,
                false,
                PublishedOutcome::Decoded { usable, side, sent: SendOutcome::Full },
                now,
            );
            &&& !after.is_loading(page, generation)
            &&& !after.loaded.contains_key(page)
        }),
{
}

/// A request of an earlier generation never ends the request of a later one.
pub proof fn law_stale_completion_keeps_newer_request(
    book: LoadBookState,
    page: usize,
    newer: usize,
    older: usize,
    generation_changed: bool,
    outcome: PublishedOutcome,
    now: u64,
)
    requires
        book.is_loading(page, newer),
        older != newer,
    ensures
        book.published(page, older, generation_changed, outcome, now).is_loading(page, newer),
{
}

/// What decoding one page comes to says nothing of the others.
pub proof fn law_publish_is_local(
    book: LoadBookState,
    page: usize,
    generation: usize,
    generation_changed: bool,
    outcome: PublishedOutcome,
    now: u64,
    other: usize,
)
    requires
        other != page,
    ensures
        ({
            let after = book.published(page, generation, generation_changed, outcome, now);
            &&& after.loading.contains_key(other) == book.loading.contains_key(other)
            &&& after.loaded.contains_key(other) == book.loaded.contains_key(other)
            &&& after.retry.contains_key(other) == book.retry.contains_key(other)
            &&& book.loading.contains_key(other) ==> after.loading[other] == book.loading[other]
            &&& book.loaded.contains_key(other) ==> after.loaded[other] == book.loaded[other]
            &&& book.retry.contains_key(other) ==> after.retry[other] == book.retry[other]
        }),
{
}

/// `new` is `old` in the order of priorities, where `from` says which place each
/// request had; requests of one priority keep their order.
pub open spec fn ordered_through(
    old_requests: Seq<LoadRequest>,
    new_requests: Seq<LoadRequest>,
    from: Seq<int>,
) -> bool {
    &&& from.len() == old_requests.len()
    &&& new_requests.len() == old_requests.len()
    &&& forall|i: int|
        0 <= i < from.len() ==> 0 <= #[trigger] from[i] < old_requests.len() && new_requests[i]
            == old_requests[from[i]]
    &&& forall|i: int, j: int|
        0 <= i < j < from.len() ==> new_requests[i].priority < new_requests[j].priority || (
        new_requests[i].priority == new_requests[j].priority && #[trigger] from[i] < #[trigger] from[j])
}

/// `new` is `old` in the order of priorities.
pub open spec fn ordered_by_priority(
    old_requests: Seq<LoadRequest>,
    new_requests: Seq<LoadRequest>,
) -> bool {
    exists|from: Seq<int>| #[trigger] ordered_through(old_requests, new_requests, from)
}

/// `slice::sort_by_key`: the same requests in ascending order of priority, in
/// their old order where the priority is the same.
#[verifier::external_body]
fn sort_by_priority(requests: &mut Vec<LoadRequest>)
    ensures
        ordered_by_priority(old(requests)@, final(requests)@),
{
    requests.sort_by_key(|request| request.priority)
}

/// The requests in the order in which they are to be worked on.
pub fn order_requests(requests: Vec<LoadRequest>) -> (ordered: Vec<LoadRequest>)
    ensures
        ordered_by_priority(requests@, ordered@),
{
    let mut ordered = requests;
    sort_by_priority(&mut ordered);
    ordered
}

/// `batch` holds the first request, those that came out of the urgent queue and
/// those that came out of the ordinary one, in the order of priorities.
pub open spec fn is_batch_of(
    first: LoadRequest,
    urgent: Seq<LoadRequest>,
    ordinary: Seq<LoadRequest>,
    batch: Seq<LoadRequest>,
) -> bool {
    ordered_by_priority(seq![first] + urgent + ordinary, batch)
}

/// The batch of the first request and of those that came out of the two queues.
pub fn assemble_batch(
    first: LoadRequest,
    urgent: Vec<LoadRequest>,
    ordinary: Vec<LoadRequest>,
) -> (batch: Vec<LoadRequest>)
    ensures
        is_batch_of(first, urgent@, ordinary@, batch@),
{
    let mut further_urgent = urgent;
    let mut further = ordinary;
    let mut all: Vec<LoadRequest> = Vec::new();
    all.push(first);
    all.append(&mut further_urgent);
    all.append(&mut further);
    assert(all@ =~= seq![first] + urgent@ + ordinary@);
    order_requests(all)
}

/// Takes further requests out of the queues, urgent ones first, until there are
/// enough for one batch or none are left, and puts them in order.
pub fn collect_batch(
    first: LoadRequest,
    urgent: &crossbeam_channel::Receiver<LoadRequest>,
    ordinary: &crossbeam_channel::Receiver<LoadRequest>,
) -> (batch: Vec<LoadRequest>)
    ensures
        1 <= batch@.len() <= DECODE_BATCH_SIZE,
        exists|further_urgent: Seq<LoadRequest>, further: Seq<LoadRequest>| #[trigger]
            is_batch_of(first, further_urgent, further, batch@),
{
    let further_urgent = take_requests(urgent, DECODE_BATCH_SIZE - 1);
    let room: usize = DECODE_BATCH_SIZE - 1 - further_urgent.len();
    let further = take_requests(ordinary, room);
    assemble_batch(first, further_urgent, further)
}

/// Takes requests out of a queue until there are `most` of them or the queue is
/// empty.  Which they are depends on the thread that fills the queue.
fn take_requests(queue: &crossbeam_channel::Receiver<LoadRequest>, most: usize) -> (requests: Vec<
    LoadRequest,
>)
    ensures
        requests@.len() <= most,
{
    let mut requests: Vec<LoadRequest> = Vec::new();
    while requests.len() < most
        invariant
            requests@.len() <= most,
        decreases most - requests@.len(),
    {
        match try_recv(queue) {
            Some(request) => {
                requests.push(request);
            },
            None => {
                break;
            },
        }
    }
    requests
}

/// Whether the first request of an ordered batch is decoded before the others
/// are started, so that nothing competes with it.
pub fn has_urgent_head(batch: &Vec<LoadRequest>) -> (urgent: bool)
    ensures
        urgent == (batch@.len() > 0 && batch@[0].priority < 0),
{
    batch.len() > 0 && batch[0].priority < 0
}

/// In an ordered batch an urgent request comes first, if there is one at all.
pub proof fn law_urgent_request_leads(
    requests: Seq<LoadRequest>,
    ordered: Seq<LoadRequest>,
    i: int,
)
    requires
        ordered_by_priority(requests, ordered),
        0 <= i < ordered.len(),
    ensures
        ordered[0].priority <= ordered[i].priority,
{
    let from = choose|from: Seq<int>| #[trigger] ordered_through(requests, ordered, from);
    if i > 0 {
        assert(0 <= from[0] && 0 <= from[i]);
    }
}

/// A page whose picture reached the viewer counts as decoded for its side and for
/// every smaller one, never for less than before, and its failures are forgotten.
pub proof fn law_delivered_page_is_loaded(
    book: LoadBookState,
    page: usize,
    generation: usize,
    side: u32,
    smaller: u32,
    now: u64,
)
    requires
        smaller <= side,
    ensures
        ({
            let after = book.published(
                page,
                generation,
                false,
                PublishedOutcome::Decoded { usable: true, side, sent: SendOutcome::Sent },
                now,
            );
            &&& after.is_loaded(page, side)
            &&& after.is_loaded(page, smaller)
            &&& book.is_loaded(page, smaller) ==> after.is_loaded(page, smaller)
            &&& after.loaded[page] == side || (book.loaded.contains_key(page) && after.loaded[page]
                == book.loaded[page] && book.loaded[page] > side)
            &&& !after.retry.contains_key(page)
            &&& !after.is_loading(page, generation)
        }),
{
}

/// A page that could not be decoded, or whose picture has no pixels, counts as not
/// decoded and as failed once more, and it may not be tried again at once.
pub proof fn law_failed_page_is_held_back(
    book: LoadBookState,
    page: usize,
    generation: usize,
    side: u32,
    outcome: PublishedOutcome,
    now: u64,
)
    requires
        outcome is Failed || outcome == (PublishedOutcome::Decoded {
            usable: false,
            side,
            sent: SendOutcome::Sent,
        }),
        now < u64::MAX,
    ensures
        ({
            let after = book.published(page, generation, false, outcome, now);
            &&& !after.loaded.contains_key(page)
            &&& !after.is_loading(page, generation)
            &&& after.is_held_back(page, now)
            &&& book.attempts(page) < 255 ==> after.attempts(page) == book.attempts(page) + 1
            &&& after.retry[page].next_retry_at > now
        }),
{
}

/// A request that was passed over, and every request once all were cancelled, changes
/// nothing but that it is over.
pub proof fn law_passed_over_requests_only_end(
    book: LoadBookState,
    page: usize,
    generation: usize,
    generation_changed: bool,
    outcome: PublishedOutcome,
    now: u64,
)
    requires
        generation_changed || outcome is Skipped,
    ensures
        ({
            let after = book.published(page, generation, generation_changed, outcome, now);
            &&& after.loaded == book.loaded
            &&& after.retry == book.retry
            &&& !after.is_loading(page, generation)
        }),
{
}

/// A page counts as decoded for a side if it was decoded for that side or a larger
/// one, and a page that was never decoded for none.
pub proof fn law_larger_pictures_serve(book: LoadBookState, page: usize, side: u32, larger: u32)
    requires
        side <= larger,
    ensures
        book.is_loaded(page, larger) ==> book.is_loaded(page, side),
        !book.loaded.contains_key(page) ==> !book.is_loaded(page, side),
        book.loaded.contains_key(page) ==> book.is_loaded(page, book.loaded[page]),
        book.loaded.contains_key(page) && larger > book.loaded[page] ==> !book.is_loaded(page, larger),
{
}

/// What the book notes of a picture: whether it has pixels at all, and the longer of
/// its sides.
pub proof fn law_pictures_are_noted_by_their_longer_side(decoded: DecodedImage, sent: SendOutcome)
    ensures
        published_outcome(DecodeOutcome::Decoded(decoded), sent) matches PublishedOutcome::Decoded {
            usable,
            side,
            sent: noted,
        } && {
            &&& noted == sent
            &&& usable <==> decoded.width != 0 && decoded.height != 0 && decoded.pixels@.len() != 0
            &&& side >= decoded.width && side >= decoded.height
            &&& side == decoded.width || side == decoded.height
        },
{
}

/// A request is decoded unless all work ends, it was cancelled, or the page was
/// already decoded for as large a side.
pub proof fn law_needed_requests_are_decoded(
    book: &LoadBook,
    request: &LoadRequest,
    shutdown: bool,
    generation: usize,
    decode: bool,
)
    requires
        call_ensures(LoadBook::should_decode, (book, request, shutdown, generation), decode),
    ensures
        shutdown ==> !decode,
        request.generation != generation ==> !decode,
        !shutdown && request.generation == generation ==> (decode <==> !(book@.loaded.contains_key(
            request.index,
        ) && book@.loaded[request.index] >= request.target_texture_side)),
{
}

/// In an ordered batch nothing comes before what is more urgent, equally urgent
/// requests keep their order, and no request is made up.
pub proof fn law_batches_are_ordered(
    requests: Seq<LoadRequest>,
    ordered: Seq<LoadRequest>,
    i: int,
    j: int,
)
    requires
        ordered_by_priority(requests, ordered),
        0 <= i < j < ordered.len(),
    ensures
        ordered.len() == requests.len(),
        ordered[i].priority <= ordered[j].priority,
        requests.contains(ordered[i]),
        requests.contains(ordered[j]),
        exists|a: int, b: int|
            0 <= a < requests.len() && 0 <= b < requests.len() && a != b && #[trigger] requests[a]
                == ordered[i] && #[trigger] requests[b] == ordered[j] && (ordered[i].priority
                == ordered[j].priority ==> a < b),
{
    let from = choose|from: Seq<int>| #[trigger] ordered_through(requests, ordered, from);
    assert(0 <= from[i] < requests.len() && ordered[i] == requests[from[i]]);
    assert(0 <= from[j] < requests.len() && ordered[j] == requests[from[j]]);
    assert(requests[from[i]] == ordered[i] && requests[from[j]] == ordered[j]);
}

/// A page is being decoded exactly while a request of that generation is noted for it,
/// is there up to the side that is noted for it, and is held back after three failures
/// or until its time comes.
pub proof fn law_book_answers_what_is_noted(
    book: &LoadBook,
    page: usize,
    generation: usize,
    side: u32,
    now: u64,
    loading: bool,
    loaded: bool,
    held_back: bool,
)
    requires
        call_ensures(LoadBook::is_loading, (book, page, generation), loading),
        call_ensures(LoadBook::is_loaded, (book, page, side), loaded),
        call_ensures(LoadBook::is_held_back, (book, page, now), held_back),
    ensures
        loading ==> book@.loading.contains_key(page),
        book@.loading.contains_key(page) ==> (loading <==> book@.loading[page] == generation),
        loaded ==> book@.loaded.contains_key(page),
        book@.loaded.contains_key(page) ==> (loaded <==> side <= book@.loaded[page]),
        held_back ==> book@.retry.contains_key(page),
        book@.retry.contains_key(page) ==> (held_back <==> book@.retry[page].attempts >= 3 || now
            < book@.retry[page].next_retry_at),
{
}

/// A request that began is noted under its page, and nothing else changes.
pub proof fn law_begun_requests_are_noted(
    book: &mut LoadBook,
    page: usize,
    generation: usize,
    other: usize,
)
    requires
        call_ensures(LoadBook::start, (book, page, generation), ()),
    ensures
        final(book)@.loading.contains_key(page),
        final(book)@.loading[page] == generation,
        other != page ==> final(book)@.loading.contains_key(other) == old(
            book)@.loading.contains_key(other),
        final(book)@.loaded == old(book)@.loaded,
        final(book)@.retry == old(book)@.retry,
{
}

/// What is forgotten of a page is that and nothing else.
pub proof fn law_forgetting_is_of_one_kind(
    loaded: &mut LoadBook,
    failures: &mut LoadBook,
    loading: &mut LoadBook,
    page: usize,
    other: usize,
)
    requires
        call_ensures(LoadBook::forget_loaded, (loaded, page), ()),
        call_ensures(LoadBook::forget_failures, (failures, page), ()),
        call_ensures(LoadBook::forget_loading, (loading, page), ()),
    ensures
        !final(loaded)@.loaded.contains_key(page),
        final(loaded)@.retry == old(loaded)@.retry && final(loaded)@.loading == old(loaded)@.loading,
        !final(failures)@.retry.contains_key(page),
        final(failures)@.loaded == old(failures)@.loaded && final(failures)@.loading == old(
            failures)@.loading,
        !final(loading)@.loading.contains_key(page),
        final(loading)@.loaded == old(loading)@.loaded && final(loading)@.retry == old(
            loading)@.retry,
        other != page ==> final(loaded)@.loaded.contains_key(other) == old(
            loaded)@.loaded.contains_key(other),
        other != page ==> final(failures)@.retry.contains_key(other) == old(
            failures)@.retry.contains_key(other),
        other != page ==> final(loading)@.loading.contains_key(other) == old(
            loading)@.loading.contains_key(other),
{
}

/// Clearing the requests leaves what is there and what failed; clearing the book leaves
/// nothing.
pub proof fn law_cleared_books_are_empty(requests: &mut LoadBook, all: &mut LoadBook, page: usize)
    requires
        call_ensures(LoadBook::clear_loading, (requests,), ()),
        call_ensures(LoadBook::clear, (all,), ()),
    ensures
        !final(requests)@.loading.contains_key(page),
        final(requests)@.loaded == old(requests)@.loaded,
        final(requests)@.retry == old(requests)@.retry,
        !final(all)@.loading.contains_key(page) && !final(all)@.loaded.contains_key(page) && !final(
            all)@.retry.contains_key(page),
{
}

/// A request ends only the one of its own generation.
pub proof fn law_requests_end_their_own(
    book: &mut LoadBook,
    page: usize,
    generation: usize,
)
    requires
        call_ensures(LoadBook::clear_loading_if_generation, (book, page, generation), ()),
    ensures
        old(book)@.loading.contains_key(page) && old(book)@.loading[page] != generation ==> final(
            book)@ == old(book)@,
        old(book)@.loading.contains_key(page) && old(book)@.loading[page] == generation ==> !final(
            book)@.loading.contains_key(page),
        !old(book)@.loading.contains_key(page) ==> final(book)@ == old(book)@,
        final(book)@.loaded == old(book)@.loaded,
        final(book)@.retry == old(book)@.retry,
{
}

/// Each failure counts once, is followed by a wait that doubles from a quarter of a
/// second, and takes back what was there.
pub proof fn law_failures_are_counted(book: &mut LoadBook, page: usize, now: u64)
    requires
        call_ensures(LoadBook::register_decode_failure, (book, page, now), ()),
        now <= u64::MAX - 4_000_000_000,
    ensures
        final(book)@.retry.contains_key(page),
        !final(book)@.loaded.contains_key(page),
        !old(book)@.retry.contains_key(page) ==> final(book)@.retry[page].attempts == 1 && final(
            book)@.retry[page].next_retry_at == now + 250_000_000,
        old(book)@.retry.contains_key(page) && old(book)@.retry[page].attempts < 255 ==> final(
            book)@.retry[page].attempts == old(book)@.retry[page].attempts + 1,
        old(book)@.retry.contains_key(page) && old(book)@.retry[page].attempts == 1 ==> final(
            book)@.retry[page].next_retry_at == now + 500_000_000,
        old(book)@.retry.contains_key(page) && old(book)@.retry[page].attempts == 2 ==> final(
            book)@.retry[page].next_retry_at == now + 1_000_000_000,
        final(book)@.retry[page].next_retry_at <= now + 4_000_000_000,
        final(book)@.loading == old(book)@.loading,
{
}

/// A picture that reached the viewer is there up to its side, and its failures are
/// forgotten; one that did not is not there.  Work goes on until nobody listens.
pub proof fn law_published_pictures_are_there(
    book: &mut LoadBook,
    page: usize,
    generation: usize,
    usable: bool,
    side: u32,
    sent: SendOutcome,
    now: u64,
    go_on: bool,
)
    requires
        call_ensures(
            LoadBook::record_publish,
            (book, page, generation, false, (PublishedOutcome::Decoded { usable, side, sent }), now),
            go_on,
        ),
    ensures
        go_on <==> sent != SendOutcome::Disconnected,
        sent == SendOutcome::Sent && usable ==> final(book)@.loaded.contains_key(page) && final(
            book)@.loaded[page] >= side && !final(book)@.retry.contains_key(page),
        sent == SendOutcome::Sent && usable && !old(book)@.loaded.contains_key(page) ==> final(
            book)@.loaded[page] == side,
        sent == SendOutcome::Sent && !usable ==> !final(book)@.loaded.contains_key(page) && final(
            book)@.retry.contains_key(page),
        sent == SendOutcome::Full ==> !final(book)@.loaded.contains_key(page) && final(book)@.retry
            == old(book)@.retry,
        old(book)@.loading.contains_key(page) && old(book)@.loading[page] == generation ==> !final(
            book)@.loading.contains_key(page),
{
}

/// What comes of a request whose generation has passed only ends it.
pub proof fn law_late_outcomes_only_end(
    book: &mut LoadBook,
    page: usize,
    generation: usize,
    outcome: PublishedOutcome,
    now: u64,
    go_on: bool,
)
    requires
        call_ensures(LoadBook::record_publish, (book, page, generation, true, outcome, now), go_on),
    ensures
        go_on,
        final(book)@.loaded == old(book)@.loaded,
        final(book)@.retry == old(book)@.retry,
{
}

/// What is handed on is what the decoder made: a failure is noted, a skipped request is
/// not, and a picture counts by its longer side.
pub proof fn law_decoded_pictures_are_handed_on(
    book: &mut LoadBook,
    page: usize,
    generation: usize,
    outcome: DecodeOutcome,
    results: &crossbeam_channel::Sender<DecodedImage>,
    now: u64,
    go_on: bool,
)
    requires
        call_ensures(
            LoadBook::publish_one,
            (book, page, generation, false, outcome, results, now),
            go_on,
        ),
    ensures
        outcome is Failed ==> go_on && final(book)@.retry.contains_key(page),
        outcome is Skipped ==> go_on && final(book)@.retry == old(book)@.retry && final(book)@.loaded
            == old(book)@.loaded,
        outcome matches DecodeOutcome::Decoded(picture) ==> (final(book)@.loaded.contains_key(page)
            && !old(book)@.loaded.contains_key(page) ==> picture.pixels@.len() > 0 && (final(
            book)@.loaded[page] == picture.width || final(book)@.loaded[page] == picture.height)
            && final(book)@.loaded[page] >= picture.width && final(book)@.loaded[page]
            >= picture.height),
{
    let sent = choose|sent: SendOutcome|
        final(book)@ == old(book)@.published(
            page,
            generation,
            false,
            #[trigger] published_outcome(outcome, sent),
            now,
        ) && go_on == (false || !(outcome is Decoded) || sent != SendOutcome::Disconnected);
    assert(published_outcome(outcome, sent) is Failed <==> outcome is Failed);
}

/// Requests are worked through by their priority, and among equals in the order in which
/// they came; none is lost.
pub proof fn law_ordered_requests_go_by_priority(
    requests: Vec<LoadRequest>,
    ordered: Vec<LoadRequest>,
    i: int,
    j: int,
)
    requires
        call_ensures(order_requests, (requests,), ordered),
        0 <= i < j < ordered@.len(),
    ensures
        ordered@.len() == requests@.len(),
        ordered@[i].priority <= ordered@[j].priority,
        requests@.contains(ordered@[i]),
{
    let from = choose|from: Seq<int>| #[trigger]
        ordered_through(requests@, ordered@, from);
    assert(from[i] < from[j] || ordered@[i].priority < ordered@[j].priority);
    assert(ordered@[i] == requests@[from[i]]);
}

/// A batch holds the first request and all further ones, the most urgent first.
pub proof fn law_assembled_batches_hold_everything(
    first: LoadRequest,
    urgent: Vec<LoadRequest>,
    ordinary: Vec<LoadRequest>,
    batch: Vec<LoadRequest>,
    i: int,
    j: int,
    leads: bool,
)
    requires
        call_ensures(assemble_batch, (first, urgent, ordinary), batch),
        call_ensures(has_urgent_head, (&batch,), leads),
        0 <= i < j < batch@.len(),
    ensures
        batch@.len() == 1 + urgent@.len() + ordinary@.len(),
        batch@[i].priority <= batch@[j].priority,
        leads <==> batch@[0].priority < 0,
        batch@[i].priority < 0 ==> leads,
{
    let all = seq![first] + urgent@ + ordinary@;
    let from = choose|from: Seq<int>| #[trigger] ordered_through(all, batch@, from);
    assert(from[i] < from[j] || batch@[i].priority < batch@[j].priority);
    if 0 < i {
        assert(from[0] < from[i] || batch@[0].priority < batch@[i].priority);
    }
}

/// A batch that is collected holds the first request and 32 at most, the most urgent
/// first.
pub proof fn law_collected_batches_are_small(
    first: LoadRequest,
    urgent: &crossbeam_channel::Receiver<LoadRequest>,
    ordinary: &crossbeam_channel::Receiver<LoadRequest>,
    batch: Vec<LoadRequest>,
    i: int,
    j: int,
)
    requires
        call_ensures(collect_batch, (first, urgent, ordinary), batch),
    ensures
        1 <= batch@.len() <= 32,
        0 <= i < j < batch@.len() ==> batch@[i].priority <= batch@[j].priority,
{
    let (more, rest) = choose|more: Seq<LoadRequest>, rest: Seq<LoadRequest>| #[trigger]
        is_batch_of(first, more, rest, batch@);
    let all = seq![first] + more + rest;
    let from = choose|from: Seq<int>| #[trigger] ordered_through(all, batch@, from);
    if 0 <= i < j < batch@.len() {
        assert(from[i] < from[j] || batch@[i].priority < batch@[j].priority);
    }
}

} // verus!
