//! Which page of a strip has the focus, and which videos are kept for it.

use crate::coordinate::Coordinate;
use crate::manga_loader::MangaMediaType;
use crate::overlays::MediaType;
use vstd::prelude::*;

verus! {

/// The position of the largest single-precision number: a page at that distance
/// is never chosen.
pub const FARTHEST: Coordinate = 2_139_095_039;

/// A page that may get the focus, and how far it is from the middle of the screen.
#[derive(Clone, Copy, Debug)]
pub struct FocusCandidate {
    pub page: usize,
    pub distance: Coordinate,
}

/// The first of the nearest candidates.
pub open spec fn is_nearest(candidates: Seq<FocusCandidate>, at: int) -> bool {
    &&& 0 <= at < candidates.len()
    &&& candidates[at].distance < FARTHEST
    &&& forall|i: int| 0 <= i < at ==> (#[trigger] candidates[i]).distance > candidates[at].distance
    &&& forall|i: int|
        at <= i < candidates.len() ==> (#[trigger] candidates[i]).distance
            >= candidates[at].distance
}

/// The page of the first of the nearest candidates.
pub fn nearest_page(candidates: &Vec<FocusCandidate>) -> (page: Option<usize>)
    ensures
        page matches Some(p) ==> exists|at: int|
            is_nearest(candidates@, at) && p == (#[trigger] candidates@[at]).page,
        page is None <==> forall|i: int|
            0 <= i < candidates@.len() ==> (#[trigger] candidates@[i]).distance >= FARTHEST,
{
    let mut best: Option<usize> = None;
    let mut best_distance: Coordinate = FARTHEST;
    let mut i: usize = 0;
    let ghost mut found: int = -1;
    while i < candidates.len()
        invariant
            i <= candidates@.len(),
            -1 <= found < i,
            best_distance <= FARTHEST,
            found == -1 ==> best is None && best_distance == FARTHEST,
            found >= 0 ==> {
                &&& best == Some(candidates@[found].page)
                &&& best_distance == candidates@[found].distance
                &&& best_distance < FARTHEST
                &&& forall|k: int|
                    0 <= k < found ==> (#[trigger] candidates@[k]).distance > best_distance
            },
            forall|k: int| 0 <= k < i ==> (#[trigger] candidates@[k]).distance >= best_distance,
        decreases candidates@.len() - i,
    {
        if candidates[i].distance < best_distance {
            best_distance = candidates[i].distance;
            best = Some(candidates[i].page);
            proof {
                found = i as int;
            }
        }
        i = i + 1;
    }
    proof {
        if found >= 0 {
            assert(is_nearest(candidates@, found));
            assert(candidates@[found].distance < FARTHEST);
        }
    }
    best
}

/// There is one first of the nearest candidates at most.
pub proof fn law_nearest_is_unique(candidates: Seq<FocusCandidate>, a: int, b: int)
    requires
        is_nearest(candidates, a),
        is_nearest(candidates, b),
    ensures
        a == b,
{
    if a < b {
        assert(candidates[a].distance > candidates[b].distance);
    } else if b < a {
        assert(candidates[b].distance > candidates[a].distance);
    }
}

/// The page that is chosen where nothing is near: the current one.
pub open spec fn default_page(current_index: usize, count: usize) -> int {
    if count == 0 {
        0
    } else if current_index > count - 1 {
        count - 1
    } else {
        current_index as int
    }
}

fn clamped_page(current_index: usize, count: usize) -> (page: usize)
    ensures
        page == default_page(current_index, count),
{
    if count == 0 {
        0
    } else if current_index > count - 1 {
        count - 1
    } else {
        current_index
    }
}

/// The page of the first of the nearest candidates, or the current page if there is
/// none.
fn nearest_or_current(
    candidates: &Vec<FocusCandidate>,
    current_index: usize,
    count: usize,
) -> (page: usize)
    ensures
        forall|at: int| is_nearest(candidates@, at) ==> page == (#[trigger] candidates@[at]).page,
        (forall|i: int|
            0 <= i < candidates@.len() ==> (#[trigger] candidates@[i]).distance >= FARTHEST)
            ==> page == default_page(current_index, count),
{
    match nearest_page(candidates) {
        Some(page) => {
            proof {
                let found = choose|at: int|
                    is_nearest(candidates@, at) && page == (#[trigger] candidates@[at]).page;
                assert forall|at: int| is_nearest(candidates@, at) implies page == (
                #[trigger] candidates@[at]).page by {
                    law_nearest_is_unique(candidates@, found, at);
                }
            }
            page
        },
        None => clamped_page(current_index, count),
    }
}

/// `page` is that of the first of the nearest of `near`; where none of them is near,
/// of the first of the nearest of `all`; and `otherwise` if none of them is either.
pub open spec fn is_nearest_in_two_steps(
    near: Seq<FocusCandidate>,
    all: Seq<FocusCandidate>,
    otherwise: int,
    page: usize,
) -> bool {
    &&& forall|at: int| is_nearest(near, at) ==> page == (#[trigger] near[at]).page
    &&& (forall|i: int| 0 <= i < near.len() ==> (#[trigger] near[i]).distance >= FARTHEST) ==> {
        &&& forall|at: int| is_nearest(all, at) ==> page == (#[trigger] all[at]).page
        &&& (forall|i: int| 0 <= i < all.len() ==> (#[trigger] all[i]).distance >= FARTHEST)
            ==> page == otherwise
    }
}

/// The page that has the focus: the first of the nearest pages on screen.  Where a
/// wall of columns was moved off the screen sideways, it is the page whose middle is
/// nearest in height, of all pages; else it is the current page.  Without a strip,
/// or without pages, it is what is current.
pub fn manga_get_focused_media_index(
    strip_open: bool,
    on_screen: &Vec<FocusCandidate>,
    all: &Vec<FocusCandidate>,
    current_index: usize,
    count: usize,
) -> (page: usize)
    ensures
        !strip_open || count == 0 ==> page == current_index,
        strip_open && count > 0 ==> is_nearest_in_two_steps(
            on_screen@,
            all@,
            default_page(current_index, count),
            page,
        ),
{
    if !strip_open || count == 0 {
        return current_index;
    }
    nearest_in_two_steps(on_screen, all, current_index, count)
}

/// The page of a masonry layout at a height: of those that reach over it the one
/// nearest to the middle of the screen, else the one whose middle is nearest.
pub fn masonry_index_at_y(
    reaching: &Vec<FocusCandidate>,
    all: &Vec<FocusCandidate>,
    current_index: usize,
    count: usize,
) -> (page: usize)
    ensures
        is_nearest_in_two_steps(reaching@, all@, default_page(current_index, count), page),
{
    nearest_in_two_steps(reaching, all, current_index, count)
}

/// The page of the first of the nearest of `near`, else of `all`, else the current
/// page.
fn nearest_in_two_steps(
    near: &Vec<FocusCandidate>,
    all: &Vec<FocusCandidate>,
    current_index: usize,
    count: usize,
) -> (page: usize)
    ensures
        is_nearest_in_two_steps(near@, all@, default_page(current_index, count), page),
{
    match nearest_page(near) {
        Some(page) => {
            proof {
                let found = choose|at: int|
                    is_nearest(near@, at) && page == (#[trigger] near@[at]).page;
                assert(near@[found].distance < FARTHEST);
                assert forall|at: int| is_nearest(near@, at) implies page == (
                #[trigger] near@[at]).page by {
                    law_nearest_is_unique(near@, found, at);
                }
            }
            page
        },
        None => nearest_or_current(all, current_index, count),
    }
}

/// The page that has the focus, if it is an animation.
pub fn manga_get_focused_animated_index(focused: usize, media_type: Option<MangaMediaType>) -> (page:
    Option<usize>)
    ensures
        page == (if media_type == Some(MangaMediaType::AnimatedImage) {
            Some(focused)
        } else {
            None
        }),
{
    match media_type {
        Some(MangaMediaType::AnimatedImage) => Some(focused),
        _ => None,
    }
}

/// Whether a page moves.
pub fn manga_is_video_or_animated(media_type: Option<MangaMediaType>) -> (moves: bool)
    ensures
        moves == (media_type == Some(MangaMediaType::Video) || media_type == Some(
            MangaMediaType::AnimatedImage,
        )),
{
    match media_type {
        Some(MangaMediaType::Video) => true,
        Some(MangaMediaType::AnimatedImage) => true,
        _ => false,
    }
}

/// What a change of focus asks of the videos.
#[derive(Clone, Copy, Debug, PartialEq, Eq, Structural)]
pub enum VideoFocusStep {
    Nothing,
    /// Pause all other videos and go on with this one.
    Resume(usize),
    /// Pause all other videos and open this one.
    Create(usize),
    PauseAll,
}

/// The video that has the focus.
#[derive(Clone, Copy, Debug)]
pub struct VideoFocus {
    pub page: Option<usize>,
}

impl VideoFocus {
    /// Gives the focus to a page.  At most one video plays: the focused one.
    pub fn manga_update_video_focus(&mut self, focused: usize, is_video: bool, has_player: bool) -> (
    step: VideoFocusStep)
        ensures
            final(self).page == (if is_video {
                Some(focused)
            } else {
                None
            }),
            step == (if is_video {
                if old(self).page == Some(focused) {
                    VideoFocusStep::Nothing
                } else if has_player {
                    VideoFocusStep::Resume(focused)
                } else {
                    VideoFocusStep::Create(focused)
                }
            } else if old(self).page is Some {
                VideoFocusStep::PauseAll
            } else {
                VideoFocusStep::Nothing
            }),
    {
        if is_video {
            let unchanged = match self.page {
                Some(page) => page == focused,
                None => false,
            };
            if unchanged {
                return VideoFocusStep::Nothing;
            }
            self.page = Some(focused);
            if has_player {
                VideoFocusStep::Resume(focused)
            } else {
                VideoFocusStep::Create(focused)
            }
        } else {
            match self.page {
                Some(_) => {
                    self.page = None;
                    VideoFocusStep::PauseAll
                },
                None => VideoFocusStep::Nothing,
            }
        }
    }
}

pub open spec fn page_distance(a: usize, b: usize) -> int {
    if a < b {
        b - a
    } else {
        a - b
    }
}

/// The players but that of the focused page, of the first `count`.
pub open spec fn other_players(players: Seq<usize>, focused: usize, count: int) -> Seq<usize>
    decreases count,
{
    if count <= 0 {
        Seq::empty()
    } else {
        let before = other_players(players, focused, count - 1);
        if players[count - 1] == focused {
            before
        } else {
            before.push(players[count - 1])
        }
    }
}

/// How many players have to go so that no more than `limit` are left.  That of the
/// focused page stays in any case.
pub open spec fn players_to_evict(players: Seq<usize>, focused: usize, limit: usize) -> int {
    let others = other_players(players, focused, players.len() as int).len();
    if players.len() <= limit {
        0
    } else if players.len() - limit < others {
        players.len() - limit
    } else {
        others as int
    }
}

proof fn lemma_other_players(players: Seq<usize>, focused: usize, count: int)
    requires
        0 <= count <= players.len(),
        players.no_duplicates(),
    ensures
        other_players(players, focused, count).no_duplicates(),
        other_players(players, focused, count).len() <= count,
        forall|p: usize|
            other_players(players, focused, count).contains(p) <==> p != focused && players.take(
                count,
            ).contains(p),
    decreases count,
{
    if count > 0 {
        lemma_other_players(players, focused, count - 1);
        let before = other_players(players, focused, count - 1);
        let all = other_players(players, focused, count);
        let last = players[count - 1];
        let shorter = players.take(count - 1);
        assert(players.take(count) =~= players.take(count - 1).push(last));
        assert(!players.take(count - 1).contains(last));
        assert forall|p: usize| all.contains(p) <==> p != focused && players.take(count).contains(p) by {
            if before.contains(p) {
                let i = choose|i: int| 0 <= i < before.len() && before[i] == p;
                assert(all[i] == p);
                let j = choose|j: int| 0 <= j < shorter.len() && shorter[j] == p;
                assert(players.take(count)[j] == p);
            }
            if p == last {
                assert(players.take(count)[count - 1] == p);
                if p != focused {
                    assert(all[all.len() - 1] == p);
                }
            }
            if all.contains(p) && p != last {
                let i = choose|i: int| 0 <= i < all.len() && all[i] == p;
                assert(before[i] == p);
            }
            if players.take(count).contains(p) && p != last {
                let j = choose|j: int| 0 <= j < count && players.take(count)[j] == p;
                assert(players.take(count - 1)[j] == p);
            }
        }
    }
}

fn distance_between(a: usize, b: usize) -> (distance: usize)
    ensures
        distance == page_distance(a, b),
{
    if a < b {
        b - a
    } else {
        a - b
    }
}

/// Where the page furthest from the focused one stands.
fn furthest_position(pages: &Vec<usize>, focused: usize) -> (at: usize)
    requires
        pages@.len() > 0,
    ensures
        at < pages@.len(),
        forall|i: int|
            0 <= i < pages@.len() ==> page_distance(#[trigger] pages@[i], focused) <= page_distance(
                pages@[at as int],
                focused,
            ),
{
    let mut at: usize = 0;
    let mut i: usize = 1;
    while i < pages.len()
        invariant
            1 <= i <= pages@.len(),
            at < i,
            forall|k: int|
                0 <= k < i ==> page_distance(#[trigger] pages@[k], focused) <= page_distance(
                    pages@[at as int],
                    focused,
                ),
        decreases pages@.len() - i,
    {
        if distance_between(pages[i], focused) > distance_between(pages[at], focused) {
            at = i;
        }
        i = i + 1;
    }
    at
}

/// The players that have to go, the furthest from the focused page first.
pub fn manga_evict_distant_video_players(players: &Vec<usize>, focused: usize, limit: usize) -> (
evicted: Vec<usize>)
    requires
        players@.no_duplicates(),
    ensures
        evicted@.len() == players_to_evict(players@, focused, limit),
        evicted@.no_duplicates(),
        forall|i: int|
            0 <= i < evicted@.len() ==> players@.contains(#[trigger] evicted@[i]) && evicted@[i]
                != focused,
        forall|i: int, p: usize|
            #![trigger evicted@[i], players@.contains(p)]
            0 <= i < evicted@.len() && players@.contains(p) && p != focused && !evicted@.contains(p)
                ==> page_distance(p, focused) <= page_distance(evicted@[i], focused),
        forall|i: int, j: int|
            0 <= i <= j < evicted@.len() ==> page_distance(#[trigger] evicted@[j], focused)
                <= page_distance(#[trigger] evicted@[i], focused),
{
    let mut left: Vec<usize> = Vec::new();
    let mut i: usize = 0;
    while i < players.len()
        invariant
            i <= players@.len(),
            left@ == other_players(players@, focused, i as int),
        decreases players@.len() - i,
    {
        if players[i] != focused {
            left.push(players[i]);
        }
        i = i + 1;
    }
    proof {
        lemma_other_players(players@, focused, players@.len() as int);
        assert(players@.take(players@.len() as int) =~= players@);
    }
    let excess: usize = if players.len() <= limit {
        0
    } else if players.len() - limit < left.len() {
        players.len() - limit
    } else {
        left.len()
    };
    let ghost others = left@;
    let mut evicted: Vec<usize> = Vec::new();
    while evicted.len() < excess
        invariant
            evicted@.len() <= excess <= others.len(),
            left@.len() + evicted@.len() == others.len(),
            left@.no_duplicates(),
            evicted@.no_duplicates(),
            forall|p: usize| others.contains(p) <==> p != focused && players@.contains(p),
            forall|p: usize|
                #![trigger others.contains(p)]
                others.contains(p) <==> (left@.contains(p) || evicted@.contains(p)),
            forall|p: usize|
                #![trigger left@.contains(p)]
                #![trigger evicted@.contains(p)]
                !(left@.contains(p) && evicted@.contains(p)),
            forall|i: int, k: int|
                #![trigger evicted@[i], left@[k]]
                0 <= i < evicted@.len() && 0 <= k < left@.len() ==> page_distance(left@[k], focused)
                    <= page_distance(evicted@[i], focused),
            forall|i: int, j: int|
                0 <= i <= j < evicted@.len() ==> page_distance(#[trigger] evicted@[j], focused)
                    <= page_distance(#[trigger] evicted@[i], focused),
        decreases excess - evicted@.len(),
    {
        let at: usize = furthest_position(&left, focused);
        let ghost left_before = left@;
        let ghost evicted_before = evicted@;
        let page: usize = left.remove(at);
        evicted.push(page);
        proof {
            assert(left_before[at as int] == page);
            assert(left_before.contains(page));
            assert(left@ =~= left_before.remove(at as int));
            assert forall|k: int| 0 <= k < left@.len() implies left_before.contains(
                #[trigger] left@[k],
            ) && left@[k] != page by {
                let from = if k < at {
                    k
                } else {
                    k + 1
                };
                assert(left@[k] == left_before[from]);
            }
            assert forall|p: usize| left_before.contains(p) && p != page implies left@.contains(p) by {
                let k = choose|k: int| 0 <= k < left_before.len() && left_before[k] == p;
                if k < at {
                    assert(left@[k] == p);
                } else {
                    assert(left@[k - 1] == p);
                }
            }
            assert(!evicted_before.contains(page));
            assert forall|p: usize| evicted@.contains(p) <==> evicted_before.contains(p) || p == page by {
                if evicted_before.contains(p) {
                    let k = choose|k: int| 0 <= k < evicted_before.len() && evicted_before[k] == p;
                    assert(evicted@[k] == p);
                }
                assert(evicted@[evicted_before.len() as int] == page);
            }
            assert forall|p: usize|
                #![trigger others.contains(p)]
                others.contains(p) <==> (left@.contains(p) || evicted@.contains(p)) by {
                assert(left_before.contains(p) || evicted_before.contains(p) <==> others.contains(p));
            }
            assert forall|p: usize|
                #![trigger left@.contains(p)]
                #![trigger evicted@.contains(p)]
                !(left@.contains(p) && evicted@.contains(p)) by {
                if left@.contains(p) {
                    let k = choose|k: int| 0 <= k < left@.len() && left@[k] == p;
                    assert(left_before.contains(left@[k]));
                    assert(!(left_before.contains(p) && evicted_before.contains(p)));
                }
            }
            assert forall|i: int, k: int|
                #![trigger evicted@[i], left@[k]]
                0 <= i < evicted@.len() && 0 <= k < left@.len() implies page_distance(
                left@[k],
                focused,
            ) <= page_distance(evicted@[i], focused) by {
                let from = if k < at {
                    k
                } else {
                    k + 1
                };
                assert(left@[k] == left_before[from]);
                if i < evicted_before.len() {
                    assert(evicted@[i] == evicted_before[i]);
                }
            }
            assert forall|i: int, j: int| 0 <= i <= j < evicted@.len() implies page_distance(
                #[trigger] evicted@[j],
                focused,
            ) <= page_distance(#[trigger] evicted@[i], focused) by {
                if j < evicted_before.len() {
                    assert(evicted@[i] == evicted_before[i] && evicted@[j] == evicted_before[j]);
                } else if i < evicted_before.len() {
                    assert(evicted@[i] == evicted_before[i]);
                    assert(left_before[at as int] == evicted@[j]);
                }
            }
        }
    }
    proof {
        assert forall|i: int| 0 <= i < evicted@.len() implies players@.contains(
            #[trigger] evicted@[i],
        ) && evicted@[i] != focused by {
            let page = evicted@[i];
            assert(evicted@.contains(page));
            assert(others.contains(page) <==> (left@.contains(page) || evicted@.contains(page)));
        }
        assert forall|i: int, p: usize|
            #![trigger evicted@[i], players@.contains(p)]
            0 <= i < evicted@.len() && players@.contains(p) && p != focused && !evicted@.contains(
                p,
            ) implies page_distance(p, focused) <= page_distance(evicted@[i], focused) by {
            assert(others.contains(p));
            assert(left@.contains(p) || evicted@.contains(p));
            let k = choose|k: int| 0 <= k < left@.len() && left@[k] == p;
            assert(left@[k] == p);
        }
    }
    evicted
}

/// A picture of a page that stays on screen while the page is opened by itself.
#[derive(Clone, Copy, Debug, PartialEq, Eq, Structural)]
pub struct ModeSwitchPlaceholder {
    pub texture: u64,
    pub width: u32,
    pub height: u32,
    pub media_type: MediaType,
}

/// A texture with its size.
#[derive(Clone, Copy, Debug)]
pub struct SizedTexture {
    pub texture: u64,
    pub width: u32,
    pub height: u32,
}

pub open spec fn has_area(texture: SizedTexture) -> bool {
    texture.width > 0 && texture.height > 0
}

/// The page shows what a file of the given kind shows.
pub open spec fn is_compatible(target: MediaType, shown: MangaMediaType) -> bool {
    match target {
        MediaType::Image => shown != MangaMediaType::Video,
        MediaType::Video => shown == MangaMediaType::Video,
    }
}

pub open spec fn picture_of(texture: SizedTexture, media_type: MediaType) -> ModeSwitchPlaceholder {
    ModeSwitchPlaceholder {
        texture: texture.texture,
        width: texture.width,
        height: texture.height,
        media_type,
    }
}

/// The picture that stays on screen while a page is opened by itself: the last
/// frame of a video, or else the texture of the page.
pub fn prepare_mode_switch_placeholder_from_manga_index(
    target: Option<MediaType>,
    video_frame: Option<SizedTexture>,
    cached: Option<(SizedTexture, MangaMediaType)>,
) -> (placeholder: Option<ModeSwitchPlaceholder>)
    ensures
        placeholder == (match target {
            None => None,
            Some(kind) => if kind == MediaType::Video && video_frame is Some && has_area(
                video_frame->0,
            ) {
                Some(picture_of(video_frame->0, MediaType::Video))
            } else if cached is Some && is_compatible(kind, (cached->0).1) && has_area(
                (cached->0).0,
            ) {
                Some(picture_of((cached->0).0, kind))
            } else {
                None
            },
        }),
{
    let kind = match target {
        None => {
            return None;
        },
        Some(kind) => kind,
    };
    if kind == MediaType::Video {
        if let Some(frame) = video_frame {
            if frame.width > 0 && frame.height > 0 {
                return Some(
                    ModeSwitchPlaceholder {
                        texture: frame.texture,
                        width: frame.width,
                        height: frame.height,
                        media_type: MediaType::Video,
                    },
                );
            }
        }
    }
    match cached {
        None => None,
        Some((page, shown)) => {
            let compatible = match kind {
                MediaType::Image => shown != MangaMediaType::Video,
                MediaType::Video => shown == MangaMediaType::Video,
            };
            if compatible && page.width > 0 && page.height > 0 {
                Some(
                    ModeSwitchPlaceholder {
                        texture: page.texture,
                        width: page.width,
                        height: page.height,
                        media_type: kind,
                    },
                )
            } else {
                None
            }
        },
    }
}

/// The page that is chosen belongs to a candidate, and no candidate is nearer.
pub proof fn law_chosen_page_is_nearest(candidates: &Vec<FocusCandidate>, page: Option<usize>) -> (at:
    int)
    requires
        call_ensures(nearest_page, (candidates,), page),
        page is Some,
    ensures
        0 <= at < candidates@.len(),
        page == Some(candidates@[at].page),
        candidates@[at].distance < 2_139_095_039,
        forall|i: int|
            0 <= i < candidates@.len() ==> (#[trigger] candidates@[i]).distance
                >= candidates@[at].distance,
        forall|i: int|
            0 <= i < at ==> (#[trigger] candidates@[i]).distance > candidates@[at].distance,
{
    choose|at: int| is_nearest(candidates@, at) && page->0 == (#[trigger] candidates@[at]).page
}

/// The page in focus is that of the nearest candidate on screen; where a candidate on
/// screen is nearest, the others do not count.
pub proof fn law_nearest_on_screen_has_the_focus(
    on_screen: &Vec<FocusCandidate>,
    all: &Vec<FocusCandidate>,
    current: usize,
    count: usize,
    page: usize,
    at: int,
)
    requires
        call_ensures(
            manga_get_focused_media_index,
            (true, on_screen, all, current, count),
            page,
        ),
        count > 0,
        0 <= at < on_screen@.len(),
        on_screen@[at].distance < 2_139_095_039,
        forall|i: int|
            0 <= i < on_screen@.len() && i != at ==> (#[trigger] on_screen@[i]).distance
                > on_screen@[at].distance,
    ensures
        page == on_screen@[at].page,
{
    assert(is_nearest(on_screen@, at));
}

/// Where nothing is on screen, the nearest of all pages has the focus, and where there is
/// nothing at all, the current page, or the last one if that is beyond the end.
pub proof fn law_focus_falls_back(
    strip_open: bool,
    on_screen: &Vec<FocusCandidate>,
    all: &Vec<FocusCandidate>,
    current: usize,
    count: usize,
    page: usize,
    at: int,
)
    requires
        call_ensures(
            manga_get_focused_media_index,
            (strip_open, on_screen, all, current, count),
            page,
        ),
        on_screen@.len() == 0,
    ensures
        !strip_open || count == 0 ==> page == current,
        strip_open && count > 0 && all@.len() == 0 && current < count ==> page == current,
        strip_open && count > 0 && all@.len() == 0 && current >= count ==> page == count - 1,
        strip_open && count > 0 && 0 <= at < all@.len() && all@[at].distance < 2_139_095_039 && (
        forall|i: int|
            0 <= i < all@.len() && i != at ==> (#[trigger] all@[i]).distance > all@[at].distance)
            ==> page == all@[at].page,
{
    if 0 <= at < all@.len() && all@[at].distance < 2_139_095_039 && (forall|i: int|
        0 <= i < all@.len() && i != at ==> (#[trigger] all@[i]).distance > all@[at].distance) {
        assert(is_nearest(all@, at));
    }
}

/// At a height the nearest of the pages that reach over it is found, and else the nearest
/// of all.
pub proof fn law_page_at_a_height_reaches_over_it(
    reaching: &Vec<FocusCandidate>,
    all: &Vec<FocusCandidate>,
    current: usize,
    count: usize,
    page: usize,
    at: int,
)
    requires
        call_ensures(masonry_index_at_y, (reaching, all, current, count), page),
    ensures
        0 <= at < reaching@.len() && reaching@[at].distance < 2_139_095_039 && (forall|i: int|
            0 <= i < reaching@.len() && i != at ==> (#[trigger] reaching@[i]).distance
                > reaching@[at].distance) ==> page == reaching@[at].page,
        reaching@.len() == 0 && 0 <= at < all@.len() && all@[at].distance < 2_139_095_039 && (
        forall|i: int|
            0 <= i < all@.len() && i != at ==> (#[trigger] all@[i]).distance > all@[at].distance)
            ==> page == all@[at].page,
{
    if 0 <= at < reaching@.len() && reaching@[at].distance < 2_139_095_039 && (forall|i: int|
        0 <= i < reaching@.len() && i != at ==> (#[trigger] reaching@[i]).distance
            > reaching@[at].distance) {
        assert(is_nearest(reaching@, at));
    }
    if 0 <= at < all@.len() && all@[at].distance < 2_139_095_039 && (forall|i: int|
        0 <= i < all@.len() && i != at ==> (#[trigger] all@[i]).distance > all@[at].distance) {
        assert(is_nearest(all@, at));
    }
}

/// Pages are told apart by what they show.
pub proof fn law_moving_pages(
    focused: usize,
    media_type: Option<MangaMediaType>,
    animated: Option<usize>,
    moves: bool,
)
    requires
        call_ensures(manga_get_focused_animated_index, (focused, media_type), animated),
        call_ensures(manga_is_video_or_animated, (media_type,), moves),
    ensures
        animated is Some <==> media_type == Some(MangaMediaType::AnimatedImage),
        animated matches Some(page) ==> page == focused,
        media_type is None || media_type == Some(MangaMediaType::StaticImage) ==> !moves,
        media_type == Some(MangaMediaType::Video) || media_type == Some(
            MangaMediaType::AnimatedImage,
        ) ==> moves,
{
}

/// The focus is on the page if that is a video, and on none otherwise.  A video that has
/// just got it is resumed or opened, one that had it before is left alone, and one that
/// lost it to a picture is paused.
pub proof fn law_focused_video_plays(
    focus: &mut VideoFocus,
    focused: usize,
    is_video: bool,
    has_player: bool,
    step: VideoFocusStep,
)
    requires
        call_ensures(VideoFocus::manga_update_video_focus, (focus, focused, is_video, has_player), step),
    ensures
        is_video ==> final(focus).page == Some(focused),
        !is_video ==> final(focus).page is None,
        step is Nothing <==> final(focus).page == old(focus).page,
        step matches VideoFocusStep::Resume(page) ==> page == focused && has_player && is_video,
        step matches VideoFocusStep::Create(page) ==> page == focused && !has_player && is_video,
        step is PauseAll <==> !is_video && old(focus).page is Some,
{
}

/// No more players go than have to, never that of the page in focus, and of two players
/// the one that goes is not nearer than the one that stays.
pub proof fn law_distant_players_go(
    players: &Vec<usize>,
    focused: usize,
    limit: usize,
    evicted: Vec<usize>,
    goes: usize,
    stays: usize,
)
    requires
        call_ensures(manga_evict_distant_video_players, (players, focused, limit), evicted),
        evicted@.contains(goes),
        players@.contains(stays),
        !evicted@.contains(stays),
    ensures
        players@.contains(goes),
        goes != focused,
        stays == focused || page_distance(stays, focused) <= page_distance(goes, focused),
        page_distance(goes, focused) == (if goes < focused {
            focused - goes
        } else {
            goes - focused
        }),
        players@.len() > limit,
        evicted@.len() <= players@.len() - limit,
{
    let i = choose|i: int| 0 <= i < evicted@.len() && evicted@[i] == goes;
    assert(players@.contains(evicted@[i]));
}

/// As long as there are others than the page in focus, enough players go.
pub proof fn law_enough_players_go(
    players: &Vec<usize>,
    focused: usize,
    limit: usize,
    evicted: Vec<usize>,
)
    requires
        call_ensures(manga_evict_distant_video_players, (players, focused, limit), evicted),
        players@.no_duplicates(),
        limit >= 1,
    ensures
        players@.len() - evicted@.len() <= limit,
{
    lemma_others_are_many(players@, focused, players@.len() as int);
}

proof fn lemma_others_are_many(players: Seq<usize>, focused: usize, count: int)
    requires
        0 <= count <= players.len(),
        players.no_duplicates(),
    ensures
        other_players(players, focused, count).len() >= count - 1,
        !players.take(count).contains(focused) ==> other_players(players, focused, count).len()
            == count,
    decreases count,
{
    if count > 0 {
        lemma_others_are_many(players, focused, count - 1);
        let last = players[count - 1];
        let shorter = players.take(count - 1);
        let longer = players.take(count);
        assert(longer[count - 1] == last);
        if shorter.contains(focused) {
            let k = choose|k: int| 0 <= k < shorter.len() && shorter[k] == focused;
            assert(longer[k] == focused);
            assert(players[k] == focused);
        }
    }
}

/// The picture that stays on screen is of the page: the last frame of a video where there
/// is one, else the texture if it shows what the file shows.  A picture without an area
/// is of no use.
pub proof fn law_mode_switch_keeps_the_picture(
    target: Option<MediaType>,
    frame: Option<SizedTexture>,
    cached: Option<(SizedTexture, MangaMediaType)>,
    placeholder: Option<ModeSwitchPlaceholder>,
)
    requires
        call_ensures(
            prepare_mode_switch_placeholder_from_manga_index,
            (target, frame, cached),
            placeholder,
        ),
    ensures
        placeholder matches Some(p) ==> target == Some(p.media_type) && p.width > 0 && p.height > 0,
        (target == Some(MediaType::Video) && (frame matches Some(f) && f.width > 0 && f.height > 0))
            ==> (placeholder matches Some(p) && p.texture == frame->0.texture && p.width
            == frame->0.width && p.height == frame->0.height),
        target == Some(MediaType::Image) ==> (cached matches Some((page, shown)) ==> shown
            != MangaMediaType::Video && page.width > 0 && page.height > 0 ==> (placeholder matches Some(
            p,
        ) && p.texture == page.texture && p.width == page.width && p.height == page.height)),
        target == Some(MediaType::Video) && frame is None ==> (cached matches Some((page, shown))
            ==> shown == MangaMediaType::Video && page.width > 0 && page.height > 0 ==> (
        placeholder matches Some(p) && p.texture == page.texture)),
        target == Some(MediaType::Image) ==> (cached matches Some((page, shown)) ==> shown
            == MangaMediaType::Video ==> placeholder is None),
        target == Some(MediaType::Video) && frame is None ==> (cached matches Some((page, shown))
            ==> shown != MangaMediaType::Video ==> placeholder is None),
        target is None || (cached is None && frame is None) ==> placeholder is None,
{
}

} // verus!
