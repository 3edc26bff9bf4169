//! Animations in a strip.  Frames are decoded in the background and arrive one by
//! one; only the focused animation plays.

use crate::page_map::PageMap;
use vstd::prelude::*;

verus! {

/// How many pages before and after the visible ones keep their frames.
pub const KEPT_AROUND_VIEW: usize = 5;

/// The frames of an animation, as far as they have arrived.
#[derive(Clone, Copy, Debug, PartialEq, Eq, Structural)]
pub struct AnimationFrames {
    pub count: usize,
    pub current: usize,
}

#[verifier::ext_equal]
pub struct StripAnimationState {
    /// The animations that frames arrive for.
    pub streams: Set<usize>,
    /// Whether all frames have arrived, for each animation that was streamed.
    pub done: Map<usize, bool>,
    pub frames: Map<usize, AnimationFrames>,
    /// The pages that turned out to be no animations.
    pub failed: Set<usize>,
    /// The length that a seek bar shows while frames arrive.
    pub totals: Map<usize, usize>,
    pub focused: Option<usize>,
}

/// The animations of a strip.
pub struct StripAnimations {
    streams: PageMap<bool>,
    done: PageMap<bool>,
    frames: PageMap<AnimationFrames>,
    failed: PageMap<bool>,
    totals: PageMap<usize>,
    focused: Option<usize>,
}

impl View for StripAnimations {
    type V = StripAnimationState;

    closed spec fn view(&self) -> StripAnimationState {
        StripAnimationState {
            streams: self.streams@.dom(),
            done: self.done@,
            frames: self.frames@,
            failed: self.failed@.dom(),
            totals: self.totals@,
            focused: self.focused,
        }
    }
}

/// All frames of the animation have arrived, or none are expected.
pub open spec fn is_complete(state: StripAnimationState, page: usize) -> bool {
    state.done.contains_key(page) ==> state.done[page]
}

/// The animation at its start.  Frames that had arrived are thrown away if not all
/// had, for they arrive again.
pub open spec fn rewound(frames: AnimationFrames, complete: bool) -> AnimationFrames {
    AnimationFrames {
        count: if !complete && frames.count > 1 {
            1
        } else {
            frames.count
        },
        current: 0,
    }
}

/// The animations that go back to their start when the focus changes.
pub open spec fn loses_focus(state: StripAnimationState, focused: Option<usize>, page: usize) -> bool {
    ||| state.streams.contains(page) && focused != Some(page)
    ||| state.focused == Some(page) && focused != Some(page)
}

/// The pages are those with frames that lose the focus, each once.
pub open spec fn are_rewound(
    state: StripAnimationState,
    focused: Option<usize>,
    pages: Seq<usize>,
) -> bool {
    &&& pages.no_duplicates()
    &&& forall|page: usize| #[trigger]
        pages.contains(page) <==> state.frames.contains_key(page) && loses_focus(state, focused, page)
}

/// What a change of focus does.
pub open spec fn refocused(state: StripAnimationState, focused: Option<usize>) -> StripAnimationState {
    StripAnimationState {
        streams: Set::new(|page: usize| state.streams.contains(page) && focused == Some(page)),
        frames: Map::new(
            |page: usize| state.frames.contains_key(page),
            |page: usize|
                if loses_focus(state, focused, page) {
                    rewound(state.frames[page], is_complete(state, page))
                } else {
                    state.frames[page]
                },
        ),
        totals: Map::new(
            |page: usize|
                state.totals.contains_key(page) && !(state.streams.contains(page) && focused != Some(
                    page,
                )),
            |page: usize| state.totals[page],
        ),
        focused,
        ..state
    }
}

/// A page keeps its frames while these pages are visible.
pub open spec fn keeps_frames(first_visible: usize, last_visible: usize, page: usize) -> bool {
    first_visible - KEPT_AROUND_VIEW <= page <= last_visible + KEPT_AROUND_VIEW
}

/// What throwing away distant animations does.
pub open spec fn without_distant(state: StripAnimationState, first: usize, last: usize) -> StripAnimationState {
    let gone = |page: usize| state.frames.contains_key(page) && !keeps_frames(first, last, page);
    StripAnimationState {
        streams: Set::new(|page: usize| state.streams.contains(page) && !gone(page)),
        done: Map::new(
            |page: usize| state.done.contains_key(page) && !gone(page),
            |page: usize| state.done[page],
        ),
        frames: Map::new(
            |page: usize| state.frames.contains_key(page) && !gone(page),
            |page: usize| state.frames[page],
        ),
        failed: state.failed,
        totals: Map::new(
            |page: usize| state.totals.contains_key(page) && !gone(page),
            |page: usize| state.totals[page],
        ),
        focused: match state.focused {
            Some(page) => if gone(page) {
                None
            } else {
                Some(page)
            },
            None => None,
        },
    }
}

/// The state after one animation has stopped.
spec fn stopped(state: StripAnimationState, page: usize) -> StripAnimationState {
    StripAnimationState {
        streams: state.streams.remove(page),
        totals: state.totals.remove(page),
        frames: if state.frames.contains_key(page) {
            state.frames.insert(page, rewound(state.frames[page], is_complete(state, page)))
        } else {
            state.frames
        },
        ..state
    }
}

/// The state after the streams among `handled` have stopped, but the focused one.
spec fn without_streams(
    state: StripAnimationState,
    handled: Seq<usize>,
    focused: Option<usize>,
) -> StripAnimationState {
    StripAnimationState {
        streams: Set::new(
            |page: usize|
                state.streams.contains(page) && !(handled.contains(page) && focused != Some(page)),
        ),
        frames: Map::new(
            |page: usize| state.frames.contains_key(page),
            |page: usize|
                if handled.contains(page) && focused != Some(page) {
                    rewound(state.frames[page], is_complete(state, page))
                } else {
                    state.frames[page]
                },
        ),
        totals: Map::new(
            |page: usize|
                state.totals.contains_key(page) && !(handled.contains(page) && focused != Some(
                    page,
                )),
            |page: usize| state.totals[page],
        ),
        ..state
    }
}

pub proof fn lemma_push_contains(pages: Seq<usize>, page: usize)
    ensures
        forall|p: usize| #[trigger] pages.push(page).contains(p) <==> pages.contains(p) || p == page,
        pages.no_duplicates() && !pages.contains(page) ==> pages.push(page).no_duplicates(),
{
    assert forall|p: usize| #[trigger] pages.push(page).contains(p) <==> pages.contains(p) || p
        == page by {
        if pages.contains(p) {
            let k = choose|k: int| 0 <= k < pages.len() && pages[k] == p;
            assert(pages.push(page)[k] == p);
        }
        assert(pages.push(page)[pages.len() as int] == page);
        if pages.push(page).contains(p) && p != page {
            let k = choose|k: int| 0 <= k < pages.push(page).len() && pages.push(page)[k] == p;
            assert(pages[k] == p);
        }
    }
}

proof fn lemma_without_one_more(
    state: StripAnimationState,
    handled: Seq<usize>,
    page: usize,
    focused: Option<usize>,
)
    requires
        !handled.contains(page),
    ensures
        without_streams(state, handled.push(page), focused) == (if focused == Some(page) {
            without_streams(state, handled, focused)
        } else {
            stopped(without_streams(state, handled, focused), page)
        }),
{
    lemma_push_contains(handled, page);
    let more = without_streams(state, handled.push(page), focused);
    let less = without_streams(state, handled, focused);
    let expected = if focused == Some(page) {
        less
    } else {
        stopped(less, page)
    };
    assert(more.streams =~= expected.streams);
    assert(more.frames =~= expected.frames);
    assert(more.totals =~= expected.totals);
    assert(more =~= expected);
}

/// The state after one animation has been forgotten.
spec fn forgotten(state: StripAnimationState, page: usize) -> StripAnimationState {
    StripAnimationState {
        streams: state.streams.remove(page),
        done: state.done.remove(page),
        frames: state.frames.remove(page),
        failed: state.failed,
        totals: state.totals.remove(page),
        focused: if state.focused == Some(page) {
            None
        } else {
            state.focused
        },
    }
}

/// The state after the distant animations among `handled` have been forgotten.
spec fn without_pages(
    state: StripAnimationState,
    handled: Seq<usize>,
    distant: spec_fn(usize) -> bool,
) -> StripAnimationState {
    StripAnimationState {
        streams: Set::new(
            |page: usize| state.streams.contains(page) && !(handled.contains(page) && distant(page)),
        ),
        done: Map::new(
            |page: usize| state.done.contains_key(page) && !(handled.contains(page) && distant(page)),
            |page: usize| state.done[page],
        ),
        frames: Map::new(
            |page: usize|
                state.frames.contains_key(page) && !(handled.contains(page) && distant(page)),
            |page: usize| state.frames[page],
        ),
        failed: state.failed,
        totals: Map::new(
            |page: usize|
                state.totals.contains_key(page) && !(handled.contains(page) && distant(page)),
            |page: usize| state.totals[page],
        ),
        focused: match state.focused {
            Some(page) => if handled.contains(page) && distant(page) {
                None
            } else {
                Some(page)
            },
            None => None,
        },
    }
}

proof fn lemma_forget_one_more(
    state: StripAnimationState,
    handled: Seq<usize>,
    page: usize,
    distant: spec_fn(usize) -> bool,
)
    ensures
        without_pages(state, handled.push(page), distant) == (if distant(page) {
            forgotten(without_pages(state, handled, distant), page)
        } else {
            without_pages(state, handled, distant)
        }),
{
    lemma_push_contains(handled, page);
    let more = without_pages(state, handled.push(page), distant);
    let less = without_pages(state, handled, distant);
    let expected = if distant(page) {
        forgotten(less, page)
    } else {
        less
    };
    assert(more.streams =~= expected.streams);
    assert(more.done =~= expected.done);
    assert(more.frames =~= expected.frames);
    assert(more.totals =~= expected.totals);
    assert(more =~= expected);
}

/// When the next frame is due.
#[derive(Clone, Copy, Debug, PartialEq, Eq, Structural)]
pub enum FrameDue {
    Never,
    Now,
    /// After so many nanoseconds.
    After(u64),
}

impl StripAnimations {
    pub closed spec fn wf(&self) -> bool {
        &&& self.streams.wf()
        &&& self.done.wf()
        &&& self.frames.wf()
        &&& self.failed.wf()
        &&& self.totals.wf()
    }

    pub fn new() -> (animations: Self)
        ensures
            animations.wf(),
            animations@ == (StripAnimationState {
                streams: Set::empty(),
                done: Map::empty(),
                frames: Map::empty(),
                failed: Set::empty(),
                totals: Map::empty(),
                focused: None,
            }),
    {
        let animations = StripAnimations {
            streams: PageMap::new(),
            done: PageMap::new(),
            frames: PageMap::new(),
            failed: PageMap::new(),
            totals: PageMap::new(),
            focused: None,
        };
        assert(animations@.streams =~= Set::<usize>::empty());
        assert(animations@.failed =~= Set::<usize>::empty());
        animations
    }

    fn complete(&self, page: usize) -> (complete: bool)
        requires
            self.wf(),
        ensures
            complete == is_complete(self@, page),
    {
        match self.done.get(page) {
            Some(done) => *done,
            None => true,
        }
    }

    /// Sets an animation back to its start, and notes it if it has frames.
    fn rewind(&mut self, page: usize, rewound_pages: &mut Vec<usize>)
        requires
            old(self).wf(),
        ensures
            final(self).wf(),
            final(self)@ == (StripAnimationState {
                frames: if old(self)@.frames.contains_key(page) {
                    old(self)@.frames.insert(
                        page,
                        rewound(old(self)@.frames[page], is_complete(old(self)@, page)),
                    )
                } else {
                    old(self)@.frames
                },
                ..old(self)@
            }),
            final(rewound_pages)@ == (if old(self)@.frames.contains_key(page) {
                old(rewound_pages)@.push(page)
            } else {
                old(rewound_pages)@
            }),
    {
        let complete = self.complete(page);
        let known: Option<AnimationFrames> = match self.frames.get(page) {
            Some(frames) => Some(*frames),
            None => None,
        };
        if let Some(frames) = known {
            let count: usize = if !complete && frames.count > 1 {
                1
            } else {
                frames.count
            };
            self.frames.insert(page, AnimationFrames { count, current: 0 });
            rewound_pages.push(page);
        }
    }

    /// Stops the frames of an animation from arriving, and sets it back to its
    /// start.
    fn drop_stream(&mut self, page: usize, rewound_pages: &mut Vec<usize>)
        requires
            old(self).wf(),
        ensures
            final(self).wf(),
            final(self)@ == stopped(old(self)@, page),
            final(rewound_pages)@ == (if old(self)@.frames.contains_key(page) {
                old(rewound_pages)@.push(page)
            } else {
                old(rewound_pages)@
            }),
    {
        let ghost before = self@;
        self.streams.remove(page);
        self.totals.remove(page);
        assert(self@.streams =~= before.streams.remove(page));
        self.rewind(page, rewound_pages);
        assert(self@ =~= stopped(before, page));
    }

    /// Gives the focus to an animation, or to none.  All others stop arriving and
    /// go back to their start.  Returns the pages whose first frame is to be shown
    /// again.
    pub fn refocus(&mut self, focused: Option<usize>) -> (rewound_pages: Vec<usize>)
        requires
            old(self).wf(),
        ensures
            final(self).wf(),
            final(self)@ == refocused(old(self)@, focused),
            rewound_pages@.no_duplicates(),
            forall|page: usize| #[trigger]
                rewound_pages@.contains(page) <==> old(self)@.frames.contains_key(page)
                    && loses_focus(old(self)@, focused, page),
            are_rewound(old(self)@, focused, rewound_pages@),
    {
        let ghost before = self@;
        let pages = self.streams.pages();
        let mut rewound_pages: Vec<usize> = Vec::new();
        let mut i: usize = 0;
        proof {
            assert forall|page: usize| before.streams.contains(page) <==> pages@.contains(page) by {
                assert(self.streams@.contains_key(page) <==> pages@.contains(page));
            }
            assert(self@ =~= without_streams(before, pages@.take(0), focused));
        }
        while i < pages.len()
            invariant
                i <= pages@.len(),
                self.wf(),
                pages@.no_duplicates(),
                self@ == without_streams(before, pages@.take(i as int), focused),
                rewound_pages@.no_duplicates(),
                forall|page: usize| #[trigger]
                    rewound_pages@.contains(page) <==> before.frames.contains_key(page) && focused
                        != Some(page) && pages@.take(i as int).contains(page),
            decreases pages@.len() - i,
        {
            let page: usize = pages[i];
            let ghost previous = rewound_pages@;
            let ghost handled = pages@.take(i as int);
            proof {
                assert(pages@.take(i + 1) =~= handled.push(page));
                assert(!handled.contains(page));
                lemma_push_contains(handled, page);
                lemma_without_one_more(before, handled, page, focused);
                lemma_push_contains(previous, page);
                assert(!previous.contains(page));
            }
            let keeps = match focused {
                Some(f) => f == page,
                None => false,
            };
            if !keeps {
                self.drop_stream(page, &mut rewound_pages);
            }
            i = i + 1;
        }
        assert(pages@.take(pages@.len() as int) =~= pages@);
        let previous_focus = self.focused;
        self.focused = focused;
        let ghost between = self@;
        let ghost previous = rewound_pages@;
        if let Some(page) = previous_focus {
            let kept = match focused {
                Some(f) => f == page,
                None => false,
            };
            let dropped = contains_page(&pages, page);
            if !kept && !dropped {
                proof {
                    lemma_push_contains(previous, page);
                    assert(!previous.contains(page));
                }
                self.rewind(page, &mut rewound_pages);
            }
        }
        proof {
            let after = refocused(before, focused);
            assert(self@.streams =~= after.streams);
            assert(self@.totals =~= after.totals);
            assert(self@.frames =~= after.frames);
            assert(self@ =~= after);
        }
        rewound_pages
    }

    /// The animation whose frames are to be decoded: the focused one, unless they
    /// have all arrived, are arriving, or there are none.
    pub fn stream_to_start(&self) -> (page: Option<usize>)
        requires
            self.wf(),
        ensures
            page == (match self@.focused {
                Some(p) => if !(self@.frames.contains_key(p) && is_complete(self@, p))
                    && !self@.streams.contains(p) && !self@.failed.contains(p) {
                    Some(p)
                } else {
                    None
                },
                None => None,
            }),
    {
        match self.focused {
            None => None,
            Some(page) => {
                let whole = self.frames.contains(page) && self.complete(page);
                if !whole && !self.streams.contains(page) && !self.failed.contains(page) {
                    Some(page)
                } else {
                    None
                }
            },
        }
    }

    /// Takes note that frames of an animation will arrive.  `first_frames` is how
    /// many could be decoded at once, if none were there.
    pub fn stream_started(&mut self, page: usize, first_frames: Option<usize>)
        requires
            old(self).wf(),
        ensures
            final(self).wf(),
            final(self)@.streams == old(self)@.streams.insert(page),
            final(self)@.done == old(self)@.done.insert(page, false),
            final(self)@.failed == old(self)@.failed,
            final(self)@.focused == old(self)@.focused,
            final(self)@.frames == (if !old(self)@.frames.contains_key(page) && first_frames is Some {
                old(self)@.frames.insert(
                    page,
                    (AnimationFrames { count: first_frames->0, current: 0 }),
                )
            } else {
                old(self)@.frames
            }),
            final(self)@.totals == (if old(self)@.totals.contains_key(page) {
                old(self)@.totals
            } else {
                old(self)@.totals.insert(
                    page,
                    (if old(self)@.frames.contains_key(page) {
                        old(self)@.frames[page].count
                    } else if first_frames is Some {
                        first_frames->0
                    } else {
                        1
                    }),
                )
            }),
    {
        self.streams.insert(page, true);
        self.done.insert(page, false);
        if !self.frames.contains(page) {
            if let Some(count) = first_frames {
                self.frames.insert(page, AnimationFrames { count, current: 0 });
            }
        }
        let base: usize = match self.frames.get(page) {
            Some(frames) => frames.count,
            None => 1,
        };
        if !self.totals.contains(page) {
            self.totals.insert(page, base);
        }
        assert(self@.streams =~= old(self)@.streams.insert(page));
    }

    /// Takes note that a page is no animation, so that it is not tried again.
    pub fn stream_refused(&mut self, page: usize)
        requires
            old(self).wf(),
        ensures
            final(self).wf(),
            final(self)@ == (StripAnimationState {
                failed: old(self)@.failed.insert(page),
                ..old(self)@
            }),
    {
        self.failed.insert(page, true);
        assert(self@ =~= (StripAnimationState {
            failed: old(self)@.failed.insert(page),
            ..old(self)@
        }));
    }

    /// Takes in one more frame.
    pub fn frame_arrived(&mut self, page: usize)
        requires
            old(self).wf(),
            old(self)@.frames.contains_key(page) ==> old(self)@.frames[page].count < usize::MAX,
        ensures
            final(self).wf(),
            final(self)@ == (StripAnimationState {
                frames: if old(self)@.frames.contains_key(page) {
                    old(self)@.frames.insert(
                        page,
                        AnimationFrames {
                            count: (old(self)@.frames[page].count + 1) as usize,
                            ..old(self)@.frames[page]
                        },
                    )
                } else {
                    old(self)@.frames
                },
                ..old(self)@
            }),
    {
        let known: Option<AnimationFrames> = match self.frames.get(page) {
            Some(frames) => Some(*frames),
            None => None,
        };
        if let Some(frames) = known {
            self.frames.insert(
                page,
                AnimationFrames { count: frames.count + 1, current: frames.current },
            );
        }
    }

    /// Takes note that all frames of an animation have arrived.
    pub fn stream_ended(&mut self, page: usize)
        requires
            old(self).wf(),
        ensures
            final(self).wf(),
            final(self)@ == (StripAnimationState {
                streams: old(self)@.streams.remove(page),
                done: old(self)@.done.insert(page, true),
                totals: old(self)@.totals.remove(page),
                ..old(self)@
            }),
    {
        self.streams.remove(page);
        self.done.insert(page, true);
        self.totals.remove(page);
        assert(self@ =~= (StripAnimationState {
            streams: old(self)@.streams.remove(page),
            done: old(self)@.done.insert(page, true),
            totals: old(self)@.totals.remove(page),
            ..old(self)@
        }));
    }

    /// Takes note of which frame of an animation is shown.
    pub fn frame_shown(&mut self, page: usize, current: usize)
        requires
            old(self).wf(),
        ensures
            final(self).wf(),
            final(self)@ == (StripAnimationState {
                frames: if old(self)@.frames.contains_key(page) {
                    old(self)@.frames.insert(
                        page,
                        AnimationFrames { current, ..old(self)@.frames[page] },
                    )
                } else {
                    old(self)@.frames
                },
                ..old(self)@
            }),
    {
        let known: Option<AnimationFrames> = match self.frames.get(page) {
            Some(frames) => Some(*frames),
            None => None,
        };
        if let Some(frames) = known {
            self.frames.insert(page, AnimationFrames { count: frames.count, current });
        }
    }

    /// Whether an animation may go on to its next frame.  While frames arrive it
    /// waits at the last one instead of starting again.
    pub fn may_advance(&self, page: usize, paused: bool) -> (may: bool)
        requires
            self.wf(),
        ensures
            may == (self@.frames.contains_key(page) && !paused && self@.frames[page].count > 1 && !(
            !is_complete(self@, page) && self@.frames[page].current == self@.frames[page].count - 1)),
    {
        match self.frames.get(page) {
            None => false,
            Some(frames) => {
                if paused || frames.count <= 1 {
                    false
                } else if !self.complete(page) && frames.current == frames.count - 1 {
                    false
                } else {
                    true
                }
            },
        }
    }

    /// When the next frame of an animation is due.
    pub fn next_frame_due(&self, page: usize, paused: bool, delay_nanos: u64, elapsed_nanos: u64) -> (
    due: FrameDue)
        requires
            self.wf(),
        ensures
            due == (if !self@.frames.contains_key(page) || self@.frames[page].count <= 1 || paused {
                FrameDue::Never
            } else if elapsed_nanos < delay_nanos {
                FrameDue::After((delay_nanos - elapsed_nanos) as u64)
            } else {
                FrameDue::Now
            }),
    {
        match self.frames.get(page) {
            None => FrameDue::Never,
            Some(frames) => {
                if frames.count <= 1 || paused {
                    FrameDue::Never
                } else if elapsed_nanos < delay_nanos {
                    FrameDue::After(delay_nanos - elapsed_nanos)
                } else {
                    FrameDue::Now
                }
            },
        }
    }

    /// Whether frames of any animation are arriving.
    pub fn is_streaming(&self) -> (streaming: bool)
        requires
            self.wf(),
        ensures
            streaming <==> exists|page: usize| self@.streams.contains(page),
    {
        let pages = self.streams.pages();
        if pages.len() > 0 {
            assert(pages@.contains(pages@[0]));
            assert(self.streams@.contains_key(pages@[0]));
            assert(self@.streams.contains(pages@[0]));
            true
        } else {
            assert forall|page: usize| !self@.streams.contains(page) by {
                assert(self.streams@.contains_key(page) <==> pages@.contains(page));
            }
            false
        }
    }

    /// Forgets an animation.
    fn forget(&mut self, page: usize)
        requires
            old(self).wf(),
        ensures
            final(self).wf(),
            final(self)@ == forgotten(old(self)@, page),
    {
        let ghost before = self@;
        self.frames.remove(page);
        self.streams.remove(page);
        self.done.remove(page);
        self.totals.remove(page);
        if let Some(focused) = self.focused {
            if focused == page {
                self.focused = None;
            }
        }
        assert(self@.streams =~= before.streams.remove(page));
        assert(self@ =~= forgotten(before, page));
    }

    /// Throws away the animations that are far from the visible pages.
    pub fn evict_distant(&mut self, first_visible: usize, last_visible: usize)
        requires
            old(self).wf(),
        ensures
            final(self).wf(),
            final(self)@ == without_distant(old(self)@, first_visible, last_visible),
    {
        let ghost before = self@;
        let first: usize = if first_visible < KEPT_AROUND_VIEW {
            0
        } else {
            first_visible - KEPT_AROUND_VIEW
        };
        let last: usize = last_visible.saturating_add(KEPT_AROUND_VIEW);
        let pages = self.frames.pages();
        let mut i: usize = 0;
        let ghost distant: spec_fn(usize) -> bool = |page: usize|
            !keeps_frames(first_visible, last_visible, page);
        assert(self@ =~= without_pages(before, pages@.take(0), distant));
        while i < pages.len()
            invariant
                i <= pages@.len(),
                self.wf(),
                first == (if first_visible < KEPT_AROUND_VIEW {
                    0
                } else {
                    first_visible - KEPT_AROUND_VIEW
                }),
                last == (if last_visible + KEPT_AROUND_VIEW > usize::MAX {
                    usize::MAX as int
                } else {
                    last_visible + KEPT_AROUND_VIEW
                }),
                distant == (|page: usize| !keeps_frames(first_visible, last_visible, page)),
                self@ == without_pages(before, pages@.take(i as int), distant),
            decreases pages@.len() - i,
        {
            let page: usize = pages[i];
            let ghost handled = pages@.take(i as int);
            proof {
                assert(pages@.take(i + 1) =~= handled.push(page));
                lemma_push_contains(handled, page);
                lemma_forget_one_more(before, handled, page, distant);
                assert(distant(page) <==> page < first || page > last);
            }
            if page < first || page > last {
                self.forget(page);
            }
            i = i + 1;
        }
        proof {
            assert(pages@.take(pages@.len() as int) =~= pages@);
            let after = without_distant(before, first_visible, last_visible);
            assert forall|page: usize| before.frames.contains_key(page) <==> pages@.contains(page) by {
                assert(old(self).frames@.contains_key(page) <==> pages@.contains(page));
            }
            assert(self@.streams =~= after.streams);
            assert(self@.done =~= after.done);
            assert(self@.frames =~= after.frames);
            assert(self@.totals =~= after.totals);
            assert(self@ =~= after);
        }
    }

    /// Forgets all animations.
    pub fn clear(&mut self)
        ensures
            final(self).wf(),
            final(self)@ == (StripAnimationState {
                streams: Set::empty(),
                done: Map::empty(),
                frames: Map::empty(),
                failed: Set::empty(),
                totals: Map::empty(),
                focused: None,
            }),
    {
        self.streams.clear();
        self.done.clear();
        self.frames.clear();
        self.failed.clear();
        self.totals.clear();
        self.focused = None;
        assert(self@.streams =~= Set::<usize>::empty());
        assert(self@.failed =~= Set::<usize>::empty());
    }
}

fn contains_page(pages: &Vec<usize>, page: usize) -> (found: bool)
    ensures
        found == pages@.contains(page),
{
    let mut i: usize = 0;
    while i < pages.len()
        invariant
            i <= pages@.len(),
            forall|k: int| 0 <= k < i ==> pages@[k] != page,
        decreases pages@.len() - i,
    {
        if pages[i] == page {
            assert(pages@[i as int] == page);
            return true;
        }
        i = i + 1;
    }
    false
}

/// After a change of focus, frames arrive for the focused animation at most.
pub proof fn law_one_stream_at_most(state: StripAnimationState, focused: Option<usize>, page: usize)
    ensures
        refocused(state, focused).streams.contains(page) ==> focused == Some(page),
{
}

/// An animation that loses the focus shows its first frame, and keeps its other
/// frames only if all had arrived.
pub proof fn law_losing_focus_rewinds(state: StripAnimationState, focused: Option<usize>, page: usize)
    requires
        state.focused == Some(page),
        focused != Some(page),
        state.frames.contains_key(page),
    ensures
        refocused(state, focused).frames[page].current == 0,
        !is_complete(state, page) ==> refocused(state, focused).frames[page].count <= 1,
        is_complete(state, page) ==> refocused(state, focused).frames[page].count
            == state.frames[page].count,
{
}

/// Giving the focus to the same animation twice changes nothing more.
pub proof fn law_refocus_twice(state: StripAnimationState, focused: Option<usize>)
    ensures
        refocused(refocused(state, focused), focused) == refocused(state, focused),
{
    let once = refocused(state, focused);
    let twice = refocused(once, focused);
    assert(twice.streams =~= once.streams);
    assert(twice.frames =~= once.frames);
    assert(twice.totals =~= once.totals);
    assert(twice =~= once);
}

/// What is near the visible pages is not thrown away.
pub proof fn law_near_animations_stay(
    state: StripAnimationState,
    first: usize,
    last: usize,
    page: usize,
)
    requires
        state.frames.contains_key(page),
        first - KEPT_AROUND_VIEW <= page <= last + KEPT_AROUND_VIEW,
    ensures
        without_distant(state, first, last).frames.contains_key(page),
        without_distant(state, first, last).frames[page] == state.frames[page],
{
}

/// Only the animation in focus goes on arriving; one that loses the focus starts over,
/// and of one that had not arrived whole only the first frame is kept.
pub proof fn law_focus_moves_on(
    animations: &mut StripAnimations,
    focused: Option<usize>,
    rewound_pages: Vec<usize>,
    page: usize,
)
    requires
        call_ensures(StripAnimations::refocus, (animations, focused), rewound_pages),
    ensures
        final(animations)@.focused == focused,
        final(animations)@.streams.contains(page) <==> old(animations)@.streams.contains(page)
            && focused == Some(page),
        final(animations)@.frames.contains_key(page) == old(animations)@.frames.contains_key(page),
        focused == Some(page) && old(animations)@.frames.contains_key(page) ==> final(
            animations)@.frames[page] == old(animations)@.frames[page],
        old(animations)@.frames.contains_key(page) && old(animations)@.focused == Some(page) && focused
            != Some(page) ==> final(animations)@.frames[page].current == 0,
        old(animations)@.frames.contains_key(page) && old(animations)@.focused == Some(page) && focused
            != Some(page) && (old(animations)@.done.contains_key(page) ==> old(
            animations)@.done[page]) ==> final(animations)@.frames[page].count == old(
            animations)@.frames[page].count,
        old(animations)@.frames.contains_key(page) && old(animations)@.streams.contains(page)
            && focused != Some(page) && old(animations)@.done.contains_key(page) && !old(
            animations)@.done[page] ==> final(animations)@.frames[page].count <= 1 || final(
            animations)@.frames[page].count == old(animations)@.frames[page].count && old(
            animations)@.frames[page].count <= 1,
        final(animations)@.failed == old(animations)@.failed,
        final(animations)@.done == old(animations)@.done,
{
}

/// The animation in focus is to be streamed unless it is there, on its way, or has
/// failed.
pub proof fn law_focused_animations_are_streamed(animations: &StripAnimations, page: Option<usize>)
    requires
        call_ensures(StripAnimations::stream_to_start, (animations,), page),
    ensures
        page is Some ==> page == animations@.focused,
        page matches Some(p) ==> !animations@.streams.contains(p) && !animations@.failed.contains(p),
        animations@.focused matches Some(p) ==> !animations@.frames.contains_key(p)
            && !animations@.streams.contains(p) && !animations@.failed.contains(p) ==> page == Some(p),
        animations@.focused matches Some(p) ==> animations@.frames.contains_key(p)
            && animations@.done.contains_key(p) && animations@.done[p] ==> page is None,
{
}

/// A stream that began is noted as such and not as done; the frames that are there stay.
pub proof fn law_begun_streams_are_noted(
    animations: &mut StripAnimations,
    page: usize,
    first_frames: Option<usize>,
    other: usize,
)
    requires
        call_ensures(StripAnimations::stream_started, (animations, page, first_frames), ()),
    ensures
        final(animations)@.streams.contains(page),
        final(animations)@.done.contains_key(page) && !final(animations)@.done[page],
        old(animations)@.frames.contains_key(page) ==> final(animations)@.frames == old(
            animations)@.frames,
        !old(animations)@.frames.contains_key(page) ==> (first_frames matches Some(count) ==> final(
            animations)@.frames.contains_key(page) && final(animations)@.frames[page].count == count
            && final(animations)@.frames[page].current == 0),
        other != page ==> final(animations)@.streams.contains(other) == old(
            animations)@.streams.contains(other),
        final(animations)@.focused == old(animations)@.focused,
{
}

/// A stream that was refused counts as failed; nothing else changes.
pub proof fn law_refused_streams_fail(animations: &mut StripAnimations, page: usize, other: usize)
    requires
        call_ensures(StripAnimations::stream_refused, (animations, page), ()),
    ensures
        final(animations)@.failed.contains(page),
        other != page ==> final(animations)@.failed.contains(other) == old(
            animations)@.failed.contains(other),
        final(animations)@.frames == old(animations)@.frames,
        final(animations)@.streams == old(animations)@.streams,
{
}

/// A frame that arrives is one more, and the frame that is shown stays the same; the end
/// of the stream completes the animation.
pub proof fn law_frames_arrive_one_by_one(
    arriving: &mut StripAnimations,
    ending: &mut StripAnimations,
    page: usize,
)
    requires
        call_ensures(StripAnimations::frame_arrived, (arriving, page), ()),
        call_ensures(StripAnimations::stream_ended, (ending, page), ()),
        old(arriving)@.frames.contains_key(page),
        old(arriving)@.frames[page].count < usize::MAX,
    ensures
        final(arriving)@.frames[page].count == old(arriving)@.frames[page].count + 1,
        final(arriving)@.frames[page].current == old(arriving)@.frames[page].current,
        final(arriving)@.streams == old(arriving)@.streams,
        !final(ending)@.streams.contains(page),
        final(ending)@.done.contains_key(page) && final(ending)@.done[page],
        final(ending)@.frames == old(ending)@.frames,
{
}

/// The frame that is shown is noted, and how many there are stays the same.
pub proof fn law_shown_frames_are_noted(animations: &mut StripAnimations, page: usize, current: usize)
    requires
        call_ensures(StripAnimations::frame_shown, (animations, page, current), ()),
        old(animations)@.frames.contains_key(page),
    ensures
        final(animations)@.frames[page].current == current,
        final(animations)@.frames[page].count == old(animations)@.frames[page].count,
        final(animations)@.streams == old(animations)@.streams,
{
}

/// An animation goes on unless it is paused, but waits at its last frame while more are
/// to come; a frame is due when its delay has passed.
pub proof fn law_strip_animations_wait_for_frames(
    animations: &StripAnimations,
    page: usize,
    paused: bool,
    may: bool,
    delay: u64,
    elapsed: u64,
    due: FrameDue,
)
    requires
        call_ensures(StripAnimations::may_advance, (animations, page, paused), may),
        call_ensures(StripAnimations::next_frame_due, (animations, page, paused, delay, elapsed), due),
    ensures
        may ==> !paused && animations@.frames.contains_key(page) && animations@.frames[page].count > 1,
        may && animations@.done.contains_key(page) && !animations@.done[page]
            ==> animations@.frames[page].current + 1 != animations@.frames[page].count,
        animations@.frames.contains_key(page) && !paused && animations@.frames[page].current + 1
            < animations@.frames[page].count ==> may,
        due is Never <==> paused || !animations@.frames.contains_key(page)
            || animations@.frames[page].count <= 1,
        due is Now ==> elapsed >= delay,
        due matches FrameDue::After(left) ==> left > 0 && elapsed + left == delay,
{
}

/// Animations far from the view are forgotten, and the others are kept as they are.
pub proof fn law_distant_animations_are_forgotten(
    animations: &mut StripAnimations,
    first: usize,
    last: usize,
    page: usize,
)
    requires
        call_ensures(StripAnimations::evict_distant, (animations, first, last), ()),
        first <= last,
    ensures
        first <= page <= last ==> final(animations)@.frames.contains_key(page) == old(
            animations)@.frames.contains_key(page) && final(animations)@.streams.contains(page)
            == old(animations)@.streams.contains(page),
        final(animations)@.frames.contains_key(page) ==> old(animations)@.frames.contains_key(page)
            && final(animations)@.frames[page] == old(animations)@.frames[page],
        old(animations)@.frames.contains_key(page) && !final(animations)@.frames.contains_key(page)
            ==> !final(animations)@.streams.contains(page) && !final(animations)@.done.contains_key(
            page,
        ) && final(animations)@.focused != Some(page) && (page < first || page > last),
        old(animations)@.frames.contains_key(page) ==> (final(animations)@.frames.contains_key(page)
            <==> first <= page + 5 && page <= last + 5),
{
}

/// The pages that are named are those that had frames and lost the focus, or whose stream
/// was ended because it is elsewhere.
pub proof fn law_rewound_pages_are_named(
    animations: &mut StripAnimations,
    focused: Option<usize>,
    rewound_pages: Vec<usize>,
    page: usize,
)
    requires
        call_ensures(StripAnimations::refocus, (animations, focused), rewound_pages),
    ensures
        focused == Some(page) ==> !rewound_pages@.contains(page),
        rewound_pages@.contains(page) ==> old(animations)@.frames.contains_key(page) && (old(
            animations)@.streams.contains(page) || old(animations)@.focused == Some(page)),
        old(animations)@.frames.contains_key(page) && old(animations)@.focused == Some(page) && focused
            != Some(page) ==> rewound_pages@.contains(page),
        old(animations)@.frames.contains_key(page) && old(animations)@.streams.contains(page)
            && focused != Some(page) ==> rewound_pages@.contains(page),
{
}

} // verus!
