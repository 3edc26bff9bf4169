//! What full-screen mode remembers of each image: zoom, pan and rotation.

use crate::text::same_text;
use vstd::prelude::*;

verus! {

/// How an image was viewed.  Zoom and pan are kept as the bits of the numbers.
#[derive(Clone, Copy, Debug, PartialEq, Eq, Structural)]
pub struct FullscreenViewState {
    pub zoom_bits: u32,
    pub zoom_target_bits: u32,
    pub offset_x_bits: u32,
    pub offset_y_bits: u32,
    /// How many quarter turns clockwise the image was rotated by, from 0 to 3.
    pub rotation_steps: u8,
}

/// The rotation after one more quarter turn.
pub open spec fn turned(steps: u8, clockwise: bool) -> u8 {
    if clockwise {
        ((steps + 1) % 4) as u8
    } else {
        ((steps + 3) % 4) as u8
    }
}

/// How the images that were viewed in full screen were viewed.
pub struct ViewMemory {
    entries: Vec<(String, FullscreenViewState)>,
}

impl View for ViewMemory {
    type V = Map<Seq<char>, FullscreenViewState>;

    closed spec fn view(&self) -> Map<Seq<char>, FullscreenViewState> {
        Map::new(
            |path: Seq<char>| known_at(self.entries@, path) >= 0,
            |path: Seq<char>| self.entries@[known_at(self.entries@, path)].1,
        )
    }
}

/// Where the entry of `path` stands; a negative number if there is none.
spec fn known_at(entries: Seq<(String, FullscreenViewState)>, path: Seq<char>) -> int
    decreases entries.len(),
{
    if entries.len() == 0 {
        -1
    } else if entries.last().0@ == path {
        entries.len() - 1
    } else {
        known_at(entries.drop_last(), path)
    }
}

proof fn lemma_known_at(entries: Seq<(String, FullscreenViewState)>, path: Seq<char>)
    ensures
        -1 <= known_at(entries, path) < entries.len(),
        known_at(entries, path) >= 0 ==> entries[known_at(entries, path)].0@ == path,
        forall|i: int|
            known_at(entries, path) < i < entries.len() ==> (#[trigger] entries[i]).0@ != path,
    decreases entries.len(),
{
    if entries.len() > 0 && entries.last().0@ != path {
        lemma_known_at(entries.drop_last(), path);
        assert forall|i: int|
            known_at(entries, path) < i < entries.len() implies (#[trigger] entries[i]).0@ != path by {
            if i < entries.len() - 1 {
                assert(entries.drop_last()[i] == entries[i]);
            }
        }
    }
}

/// The entry stands where the last one with its path stands.
proof fn lemma_known_is(entries: Seq<(String, FullscreenViewState)>, path: Seq<char>, at: int)
    requires
        0 <= at < entries.len(),
        entries[at].0@ == path,
        forall|i: int| at < i < entries.len() ==> (#[trigger] entries[i]).0@ != path,
    ensures
        known_at(entries, path) == at,
{
    lemma_known_at(entries, path);
    let k = known_at(entries, path);
    if k < at {
        assert(entries[at].0@ != path);
    } else if k > at {
        assert(entries[k].0@ != path);
    }
}

impl ViewMemory {
    pub fn new() -> (memory: Self)
        ensures
            memory@ == Map::<Seq<char>, FullscreenViewState>::empty(),
    {
        let memory = ViewMemory { entries: Vec::new() };
        assert(memory@ =~= Map::<Seq<char>, FullscreenViewState>::empty());
        memory
    }

    /// Forgets how all images were viewed.
    pub fn clear(&mut self)
        ensures
            final(self)@ == Map::<Seq<char>, FullscreenViewState>::empty(),
    {
        self.entries = Vec::new();
        assert(self@ =~= Map::<Seq<char>, FullscreenViewState>::empty());
    }

    fn find(&self, path: &str) -> (at: Option<usize>)
        ensures
            at is Some <==> known_at(self.entries@, path@) >= 0,
            at matches Some(i) ==> i == known_at(self.entries@, path@),
    {
        let mut i: usize = self.entries.len();
        while i > 0
            invariant
                i <= self.entries@.len(),
                forall|k: int| i <= k < self.entries@.len() ==> (#[trigger] self.entries@[k]).0@ != path@,
            decreases i,
        {
            i = i - 1;
            if same_text(self.entries[i].0.as_str(), path) {
                proof {
                    lemma_known_is(self.entries@, path@, i as int);
                }
                return Some(i);
            }
        }
        proof {
            lemma_known_at(self.entries@, path@);
        }
        None
    }

    /// How an image was viewed.
    pub fn get(&self, path: &str) -> (state: Option<FullscreenViewState>)
        ensures
            state == (if self@.contains_key(path@) {
                Some(self@[path@])
            } else {
                None
            }),
    {
        proof {
            lemma_known_at(self.entries@, path@);
        }
        match self.find(path) {
            Some(i) => Some(self.entries[i].1),
            None => None,
        }
    }

    /// Remembers how an image is viewed.
    pub fn insert(&mut self, path: &str, state: FullscreenViewState)
        ensures
            final(self)@ == old(self)@.insert(path@, state),
    {
        let ghost before = self.entries@;
        match self.find(path) {
            Some(i) => {
                let key = path.to_owned();
                proof {
                    lemma_known_at(before, path@);
                }
                self.entries.set(i, (key, state));
                proof {
                    lemma_known_is(self.entries@, path@, i as int);
                    assert forall|other: Seq<char>| other != path@ implies #[trigger] known_at(
                        self.entries@,
                        other,
                    ) == known_at(before, other) by {
                        lemma_known_at(before, other);
                        lemma_known_at(self.entries@, other);
                        let k = known_at(before, other);
                        let m = known_at(self.entries@, other);
                        if m > k {
                            assert(before[m].0@ == self.entries@[m].0@);
                        } else if k > m {
                            assert(self.entries@[k].0@ == before[k].0@);
                        }
                    }
                }
            },
            None => {
                let key = path.to_owned();
                self.entries.push((key, state));
                proof {
                    lemma_known_is(self.entries@, path@, before.len() as int);
                    assert(self.entries@.drop_last() =~= before);
                }
            },
        }
        proof {
            assert forall|other: Seq<char>| #[trigger] self@.contains_key(other) <==> old(self)@.insert(
                path@,
                state,
            ).contains_key(other) by {
                assert(self@.contains_key(other) <==> known_at(self.entries@, other) >= 0);
                assert(old(self)@.contains_key(other) <==> known_at(before, other) >= 0);
            }
            assert forall|other: Seq<char>| #[trigger] self@.contains_key(other) implies self@[other]
                == old(self)@.insert(path@, state)[other] by {
                lemma_known_at(before, other);
                lemma_known_at(self.entries@, other);
            }
            assert(self@ =~= old(self)@.insert(path@, state));
        }
    }

    /// Remembers how the current image is viewed, in full screen.  The rotation is
    /// what it was, as long as the image is loaded.
    pub fn save_current_fullscreen_view_state(
        &mut self,
        fullscreen: bool,
        path: Option<&str>,
        image_loaded: bool,
        view: FullscreenViewState,
    )
        ensures
            !fullscreen || path is None ==> final(self)@ == old(self)@,
            fullscreen ==> (path matches Some(p) ==> final(self)@ == old(self)@.insert(
                p@,
                (FullscreenViewState {
                    rotation_steps: (if image_loaded && old(self)@.contains_key(p@) {
                        old(self)@[p@].rotation_steps
                    } else {
                        0
                    }),
                    ..view
                }),
            )),
    {
        if !fullscreen {
            return;
        }
        match path {
            None => {},
            Some(p) => {
                let rotation_steps: u8 = match self.get(p) {
                    Some(state) => if image_loaded {
                        state.rotation_steps
                    } else {
                        0
                    },
                    None => 0,
                };
                self.insert(p, FullscreenViewState { rotation_steps, ..view });
            },
        }
    }

    /// How an image is to be viewed again, in full screen.
    pub fn restore_fullscreen_view_state(&self, fullscreen: bool, path: &str) -> (state: Option<
        FullscreenViewState,
    >)
        ensures
            state == (if fullscreen && self@.contains_key(path@) {
                Some(self@[path@])
            } else {
                None
            }),
    {
        if !fullscreen {
            return None;
        }
        self.get(path)
    }

    /// Remembers a quarter turn of the current image, in full screen.  `view` is
    /// how it is viewed, should nothing be remembered of it.
    pub fn update_fullscreen_rotation(
        &mut self,
        fullscreen: bool,
        path: Option<&str>,
        clockwise: bool,
        view: FullscreenViewState,
    )
        requires
            forall|p: Seq<char>| #[trigger]
                old(self)@.contains_key(p) ==> old(self)@[p].rotation_steps < 4,
        ensures
            !fullscreen || path is None ==> final(self)@ == old(self)@,
            fullscreen ==> (path matches Some(p) ==> final(self)@ == old(self)@.insert(
                p@,
                (if old(self)@.contains_key(p@) {
                    FullscreenViewState {
                        rotation_steps: turned(old(self)@[p@].rotation_steps, clockwise),
                        ..old(self)@[p@]
                    }
                } else {
                    FullscreenViewState { rotation_steps: turned(0, clockwise), ..view }
                }),
            )),
    {
        if !fullscreen {
            return;
        }
        match path {
            None => {},
            Some(p) => {
                let known = match self.get(p) {
                    Some(state) => state,
                    None => FullscreenViewState { rotation_steps: 0, ..view },
                };
                let rotation_steps: u8 = if clockwise {
                    (known.rotation_steps + 1) % 4
                } else {
                    (known.rotation_steps + 3) % 4
                };
                self.insert(p, FullscreenViewState { rotation_steps, ..known });
            },
        }
    }
}

/// A turn one way and a turn the other way cancel out.
pub proof fn law_turns_cancel(steps: u8)
    requires
        steps < 4,
    ensures
        turned(turned(steps, true), false) == steps,
        turned(turned(steps, false), true) == steps,
{
}

/// Four turns the same way lead back to the start, and a rotation always stays
/// below four.
pub proof fn law_four_turns_are_none(steps: u8, clockwise: bool)
    requires
        steps < 4,
    ensures
        turned(turned(turned(turned(steps, clockwise), clockwise), clockwise), clockwise) == steps,
        turned(steps, clockwise) < 4,
{
}

/// A turn clockwise adds one quarter and a turn the other way takes one off, around the
/// full circle.
pub proof fn law_turns_go_round(steps: u8)
    requires
        steps < 4,
    ensures
        steps < 3 ==> turned(steps, true) == steps + 1,
        steps == 3 ==> turned(steps, true) == 0,
        steps > 0 ==> turned(steps, false) == steps - 1,
        steps == 0 ==> turned(steps, false) == 3,
{
}

/// What is remembered of an image is found again in full screen, and nothing is outside
/// it.
pub proof fn law_remembered_views_are_found(
    memory: &mut ViewMemory,
    path: &str,
    state: FullscreenViewState,
    after: &ViewMemory,
    asked: &str,
    fullscreen: bool,
    found: Option<FullscreenViewState>,
)
    requires
        call_ensures(ViewMemory::insert, (memory, path, state), ()),
        *after == *final(memory),
        call_ensures(ViewMemory::restore_fullscreen_view_state, (after, fullscreen, asked), found),
    ensures
        !fullscreen ==> found is None,
        fullscreen && asked@ == path@ ==> found == Some(state),
        fullscreen && asked@ != path@ ==> (found is Some <==> old(memory)@.contains_key(asked@)),
        fullscreen && asked@ != path@ ==> (found matches Some(known) ==> known == old(
            memory)@[asked@]),
{
}

/// Saving keeps the zoom and the place as they are and the rotation as it was; it forgets
/// the rotation of an image that is not loaded, and does nothing outside full screen.
pub proof fn law_saved_views_keep_their_rotation(
    memory: &mut ViewMemory,
    fullscreen: bool,
    path: Option<&str>,
    image_loaded: bool,
    view: FullscreenViewState,
)
    requires
        call_ensures(
            ViewMemory::save_current_fullscreen_view_state,
            (memory, fullscreen, path, image_loaded, view),
            (),
        ),
    ensures
        !fullscreen || path is None ==> final(memory)@ == old(memory)@,
        fullscreen ==> (path matches Some(p) ==> {
            &&& final(memory)@.contains_key(p@)
            &&& final(memory)@[p@].zoom_bits == view.zoom_bits
            &&& final(memory)@[p@].zoom_target_bits == view.zoom_target_bits
            &&& final(memory)@[p@].offset_x_bits == view.offset_x_bits
            &&& final(memory)@[p@].offset_y_bits == view.offset_y_bits
            &&& image_loaded && old(memory)@.contains_key(p@) ==> final(memory)@[p@].rotation_steps
                == old(memory)@[p@].rotation_steps
            &&& !image_loaded || !old(memory)@.contains_key(p@) ==> final(
                memory)@[p@].rotation_steps == 0
        }),
{
}

/// A quarter turn is remembered with the view that is known of the image, or the present
/// one, and of no other image.
pub proof fn law_turns_are_remembered(
    memory: &mut ViewMemory,
    fullscreen: bool,
    path: Option<&str>,
    clockwise: bool,
    view: FullscreenViewState,
    other: Seq<char>,
)
    requires
        call_ensures(
            ViewMemory::update_fullscreen_rotation,
            (memory, fullscreen, path, clockwise, view),
            (),
        ),
    ensures
        !fullscreen || path is None ==> final(memory)@ == old(memory)@,
        fullscreen ==> (path matches Some(p) ==> {
            &&& final(memory)@.contains_key(p@)
            &&& !old(memory)@.contains_key(p@) ==> final(memory)@[p@].zoom_bits == view.zoom_bits
                && final(memory)@[p@].rotation_steps == (if clockwise {
                1int
            } else {
                3
            })
            &&& old(memory)@.contains_key(p@) && old(memory)@[p@].rotation_steps < 3 && clockwise
                ==> final(memory)@[p@] == (FullscreenViewState {
                rotation_steps: (old(memory)@[p@].rotation_steps + 1) as u8,
                ..old(memory)@[p@]
            })
            &&& old(memory)@.contains_key(p@) && 0 < old(memory)@[p@].rotation_steps < 4
                && !clockwise ==> final(memory)@[p@] == (FullscreenViewState {
                rotation_steps: (old(memory)@[p@].rotation_steps - 1) as u8,
                ..old(memory)@[p@]
            })
            &&& other != p@ ==> final(memory)@.contains_key(other) == old(memory)@.contains_key(
                other,
            )
            &&& other != p@ && old(memory)@.contains_key(other) ==> final(memory)@[other] == old(
                memory)@[other]
        }),
{
}

} // verus!
