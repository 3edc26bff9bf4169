//! Turning pages in a strip.

use crate::channel::SendOutcome;
use crate::manga_loader::{
    preload_step, LoadRequest, LoadTarget, LoaderState, MangaLoader, PageSource,
};
use crate::strip_mode::navigation_preload_window;
use vstd::prelude::*;

verus! {

/// What turning a page does.
#[derive(Clone, Copy, Debug, PartialEq, Eq, Structural)]
pub enum PageTurn {
    Stay,
    /// Scroll to the top of the page.
    ShowTop(usize),
    /// Scroll to the bottom of the page.
    ShowBottom(usize),
    /// Make the page the current one and scroll to it.
    GoTo(usize),
}

/// The page before, if there is one.
pub open spec fn turned_back(page: usize) -> PageTurn {
    if page == 0 {
        PageTurn::Stay
    } else {
        PageTurn::GoTo((page - 1) as usize)
    }
}

/// The page after, if there is one.
pub open spec fn turned_on(page: usize, count: usize) -> PageTurn {
    let target = if page + 1 < count {
        page + 1
    } else {
        count - 1
    };
    if target == page {
        PageTurn::Stay
    } else {
        PageTurn::GoTo(target as usize)
    }
}

/// Goes to the page before the one at the top of the screen.
pub fn manga_page_up(top: usize) -> (turn: PageTurn)
    ensures
        turn == turned_back(top),
{
    if top == 0 {
        PageTurn::Stay
    } else {
        PageTurn::GoTo(top - 1)
    }
}

/// Goes to the page after the one at the top of the screen.
pub fn manga_page_down(top: usize, count: usize) -> (turn: PageTurn)
    ensures
        turn == (if count == 0 {
            PageTurn::Stay
        } else {
            turned_on(top, count)
        }),
{
    if count == 0 {
        return PageTurn::Stay;
    }
    let target: usize = if top < count - 1 {
        top + 1
    } else {
        count - 1
    };
    if target == top {
        PageTurn::Stay
    } else {
        PageTurn::GoTo(target)
    }
}

/// The page that a smooth turn back starts from.  While the strip still moves, the
/// page at the top lags behind the current one.
pub fn page_up_origin(top: usize, current_index: usize) -> (page: usize)
    ensures
        page == (if top < current_index {
            top
        } else {
            current_index
        }),
{
    if top < current_index {
        top
    } else {
        current_index
    }
}

/// The page that a smooth turn on starts from.
pub fn page_down_origin(top: usize, current_index: usize) -> (page: usize)
    ensures
        page == (if top > current_index {
            top
        } else {
            current_index
        }),
{
    if top > current_index {
        top
    } else {
        current_index
    }
}

/// Goes to the page before, smoothly.  If the top of the page is out of sight, that
/// is shown first.
pub fn manga_page_up_smooth(origin: usize, top_is_visible: bool) -> (turn: PageTurn)
    ensures
        turn == (if !top_is_visible {
            PageTurn::ShowTop(origin)
        } else {
            turned_back(origin)
        }),
{
    if !top_is_visible {
        PageTurn::ShowTop(origin)
    } else {
        manga_page_up(origin)
    }
}

/// Goes to the page after, smoothly.  If the bottom of the page is out of sight,
/// that is shown first.
pub fn manga_page_down_smooth(origin: usize, count: usize, bottom_is_visible: bool) -> (turn:
    PageTurn)
    ensures
        turn == (if count == 0 {
            PageTurn::Stay
        } else if !bottom_is_visible {
            PageTurn::ShowBottom(origin)
        } else {
            turned_on(origin, count)
        }),
{
    if count == 0 {
        PageTurn::Stay
    } else if !bottom_is_visible {
        PageTurn::ShowBottom(origin)
    } else {
        manga_page_down(origin, count)
    }
}

/// Goes to the page before while the key is held, whatever is in sight.
pub fn manga_page_up_smooth_continuous(top: usize, current_index: usize) -> (turn: PageTurn)
    ensures
        turn == turned_back(
            if top < current_index {
                top
            } else {
                current_index
            },
        ),
{
    manga_page_up(page_up_origin(top, current_index))
}

/// Goes to the page after while the key is held, whatever is in sight.
pub fn manga_page_down_smooth_continuous(top: usize, current_index: usize, count: usize) -> (turn:
    PageTurn)
    ensures
        turn == (if count == 0 {
            PageTurn::Stay
        } else {
            turned_on(
                if top > current_index {
                    top
                } else {
                    current_index
                },
                count,
            )
        }),
{
    manga_page_down(page_down_origin(top, current_index), count)
}

/// Turning a page on and back leads to the same page, inside the strip.
pub proof fn law_turning_back_undoes_turning_on(page: usize, count: usize)
    requires
        page + 1 < count,
    ensures
        turned_on(page, count) == PageTurn::GoTo((page + 1) as usize),
        turned_back((page + 1) as usize) == PageTurn::GoTo(page),
{
}

/// Turning pages never leaves the strip, and stops at its ends.
pub proof fn law_turning_stays_in_strip(page: usize, count: usize)
    requires
        page < count,
    ensures
        turned_on(page, count) matches PageTurn::GoTo(target) ==> target < count,
        turned_back(page) matches PageTurn::GoTo(target) ==> target < count,
        turned_on((count - 1) as usize, count) == PageTurn::Stay,
        turned_back(0) == PageTurn::Stay,
{
}

/// The loader after dimensions around a page were asked for, if the queue had
/// room.
pub open spec fn is_primed(
    before: LoaderState,
    asked: LoaderState,
    pages: Seq<PageSource>,
    start: int,
    end: int,
) -> bool {
    asked == before || asked == before.with_probing(
        before.dimension_batch(pages, start as usize, end as usize).to_set(),
    )
}

/// The pages around `target` whose dimensions are asked for when one goes there.
pub open spec fn priming_window(target: usize, masonry_mode: bool, count: int) -> (int, int) {
    let (behind, ahead) = if masonry_mode {
        (60int, 120int)
    } else {
        (30int, 60int)
    };
    (
        if target < behind {
            0
        } else {
            target - behind
        },
        if target + ahead < count {
            target + ahead
        } else {
            count
        },
    )
}

/// Asks for what is around a page before one goes there.
pub fn prime_around(
    loader: &mut MangaLoader,
    pages: &Vec<PageSource>,
    target_page: usize,
    masonry_mode: bool,
    target: &LoadTarget,
    now: u64,
)
    requires
        old(loader).wf(),
    ensures
        final(loader).wf(),
        pages@.len() == 0 ==> final(loader)@ == old(loader)@,
        pages@.len() > 0 ==> exists|
            asked: LoaderState,
            drained: Set<usize>,
            plan: Seq<LoadRequest>,
            ordered: Seq<LoadRequest>,
            outcomes: Seq<SendOutcome>,
        |
            is_primed(
                old(loader)@,
                asked,
                pages@,
                priming_window(target_page, masonry_mode, pages@.len() as int).0,
                priming_window(target_page, masonry_mode, pages@.len() as int).1,
            ) && #[trigger] preload_step(
                asked,
                final(loader)@,
                pages@,
                target_page,
                *target,
                now,
                drained,
                plan,
                ordered,
                outcomes,
            ),
{
    if pages.len() == 0 {
        return;
    }
    let (behind, ahead): (usize, usize) = navigation_preload_window(masonry_mode);
    let start: usize = target_page.saturating_sub(behind);
    let reach: usize = target_page.saturating_add(ahead);
    let end: usize = if reach < pages.len() {
        reach
    } else {
        pages.len()
    };
    loader.request_dimensions_range(pages, start, end);
    let ghost asked = loader@;
    loader.update_preload_queue(pages, target_page, target, now);
    assert(is_primed(
        old(loader)@,
        asked,
        pages@,
        priming_window(target_page, masonry_mode, pages@.len() as int).0,
        priming_window(target_page, masonry_mode, pages@.len() as int).1,
    ));
}

/// Gives up what was asked for and asks for the dimensions at the start of the
/// strip.
pub fn prime_start(loader: &mut MangaLoader, pages: &Vec<PageSource>, masonry_mode: bool)
    requires
        old(loader).wf(),
    ensures
        final(loader).wf(),
        exists|drained: Set<usize>| #[trigger]
            is_primed(
                old(loader)@.cancelled(drained),
                final(loader)@,
                pages@,
                0,
                priming_window(0, masonry_mode, pages@.len() as int).1,
            ),
{
    let (_, ahead): (usize, usize) = navigation_preload_window(masonry_mode);
    loader.cancel_pending_loads();
    let ghost drained = choose|drained: Set<usize>|
        loader@ == #[trigger] old(loader)@.cancelled(drained);
    let end: usize = if ahead < pages.len() {
        ahead
    } else {
        pages.len()
    };
    loader.request_dimensions_range(pages, 0, end);
    assert(is_primed(
        old(loader)@.cancelled(drained),
        loader@,
        pages@,
        0,
        priming_window(0, masonry_mode, pages@.len() as int).1,
    ));
}

/// Gives up what was asked for and asks for the dimensions at the end of the strip.
pub fn prime_end(loader: &mut MangaLoader, pages: &Vec<PageSource>, masonry_mode: bool)
    requires
        old(loader).wf(),
        pages@.len() > 0,
    ensures
        final(loader).wf(),
        exists|drained: Set<usize>| #[trigger]
            is_primed(
                old(loader)@.cancelled(drained),
                final(loader)@,
                pages@,
                priming_window(
                    (pages@.len() - 1) as usize,
                    masonry_mode,
                    pages@.len() as int,
                ).0,
                pages@.len() as int,
            ),
{
    let (behind, _): (usize, usize) = navigation_preload_window(masonry_mode);
    loader.cancel_pending_loads();
    let ghost drained = choose|drained: Set<usize>|
        loader@ == #[trigger] old(loader)@.cancelled(drained);
    let last: usize = pages.len() - 1;
    let start: usize = last.saturating_sub(behind);
    loader.request_dimensions_range(pages, start, pages.len());
    assert(is_primed(
        old(loader)@.cancelled(drained),
        loader@,
        pages@,
        priming_window((pages@.len() - 1) as usize, masonry_mode, pages@.len() as int).0,
        pages@.len() as int,
    ));
}

/// One frame less to wait after a large jump.  Says whether the wait is over now.
pub fn tick_preload_cooldown(frames: u32) -> (next: (u32, bool))
    ensures
        next == (if frames > 0 {
            ((frames - 1) as u32, frames == 1)
        } else {
            (0u32, false)
        }),
{
    if frames > 0 {
        (frames - 1, frames == 1)
    } else {
        (0, false)
    }
}

/// Turning on leads to the page after and turning back to the page before, and at
/// either end of the strip nothing happens.
pub proof fn law_pages_turn_to_the_neighbours(
    page: usize,
    count: usize,
    on: PageTurn,
    back: PageTurn,
)
    requires
        page < count,
        call_ensures(manga_page_down, (page, count), on),
        call_ensures(manga_page_up, (page,), back),
    ensures
        page + 1 < count ==> on == PageTurn::GoTo((page + 1) as usize),
        page + 1 == count ==> on == PageTurn::Stay,
        page > 0 ==> back == PageTurn::GoTo((page - 1) as usize),
        page == 0 ==> back == PageTurn::Stay,
{
}

/// A smooth turn shows the rest of the page first, in the direction of the turn, and
/// goes on to the neighbour once that is in sight.
pub proof fn law_smooth_turns_show_the_rest_first(
    page: usize,
    count: usize,
    in_sight: bool,
    on: PageTurn,
    back: PageTurn,
)
    requires
        page < count,
        call_ensures(manga_page_down_smooth, (page, count, in_sight), on),
        call_ensures(manga_page_up_smooth, (page, in_sight), back),
    ensures
        !in_sight ==> on == PageTurn::ShowBottom(page) && back == PageTurn::ShowTop(page),
        in_sight && page + 1 < count ==> on == PageTurn::GoTo((page + 1) as usize),
        in_sight && page > 0 ==> back == PageTurn::GoTo((page - 1) as usize),
        in_sight && page + 1 == count ==> on == PageTurn::Stay,
        in_sight && page == 0 ==> back == PageTurn::Stay,
{
}

/// While the strip still moves, a turn starts from the page that is further along in
/// its direction, so that held keys never turn back.
pub proof fn law_held_keys_go_on(
    top: usize,
    current: usize,
    count: usize,
    on: PageTurn,
    back: PageTurn,
)
    requires
        top < count,
        current < count,
        call_ensures(manga_page_down_smooth_continuous, (top, current, count), on),
        call_ensures(manga_page_up_smooth_continuous, (top, current), back),
    ensures
        on matches PageTurn::GoTo(page) ==> page > top && page > current && (page == top + 1 || page
            == current + 1),
        on is Stay <==> top + 1 == count || current + 1 == count,
        back matches PageTurn::GoTo(page) ==> page < top && page < current && (page + 1 == top || page
            + 1 == current),
        back is Stay <==> top == 0 || current == 0,
        !(on is ShowTop || on is ShowBottom),
        !(back is ShowTop || back is ShowBottom),
{
}

/// Around the page that one goes to, the dimensions of pages on both sides of it are
/// asked for, as far as there are pages.
pub proof fn law_priming_surrounds_the_target(target: usize, masonry_mode: bool, count: int)
    requires
        target < count,
    ensures
        ({
            let (start, end) = priming_window(target, masonry_mode, count);
            &&& 0 <= start <= target < end <= count
            &&& end - target <= 120 && target - start <= 60
            &&& start == 0 || target - start >= 30
            &&& end == count || end - target >= 60
        }),
{
}

/// Paging starts from the outermost of the page at the top and the current one.
pub proof fn law_paging_starts_outermost(top: usize, current: usize, up: usize, down: usize)
    requires
        call_ensures(page_up_origin, (top, current), up),
        call_ensures(page_down_origin, (top, current), down),
    ensures
        up <= top && up <= current,
        up == top || up == current,
        down >= top && down >= current,
        down == top || down == current,
{
}

/// Priming asks around the page that one goes to, notes that one is there, and does
/// nothing without pages.
pub proof fn law_priming_goes_to_the_target(
    loader: &mut MangaLoader,
    pages: &Vec<PageSource>,
    target_page: usize,
    masonry_mode: bool,
    target: &LoadTarget,
    now: u64,
)
    requires
        call_ensures(prime_around, (loader, pages, target_page, masonry_mode, target, now), ()),
    ensures
        pages@.len() == 0 ==> final(loader)@ == old(loader)@,
        pages@.len() > 0 ==> final(loader)@.last_visible == target_page,
        final(loader)@.dimensions == old(loader)@.dimensions,
{
}

/// A cool-down ends with the frame in which it says so.
pub proof fn law_cooldowns_end(frames: u32, next: (u32, bool))
    requires
        call_ensures(tick_preload_cooldown, (frames,), next),
    ensures
        frames > 0 ==> next.0 == frames - 1,
        frames == 0 ==> next.0 == 0,
        next.1 <==> frames > 0 && next.0 == 0,
{
}

/// Going to the start or the end cancels what was asked for before, and asks for
/// dimensions at that end only.
pub proof fn law_priming_the_ends_starts_anew(
    start: &mut MangaLoader,
    end: &mut MangaLoader,
    pages: &Vec<PageSource>,
    masonry_mode: bool,
    page: usize,
)
    requires
        call_ensures(prime_start, (start, pages, masonry_mode), ()),
        call_ensures(prime_end, (end, pages, masonry_mode), ()),
        pages@.len() > 0,
    ensures
        !final(start)@.book.loading.contains_key(page),
        !final(end)@.book.loading.contains_key(page),
        final(start)@.generation != old(start)@.generation,
        final(end)@.generation != old(end)@.generation,
        final(start)@.dimensions == old(start)@.dimensions,
        final(end)@.dimensions == old(end)@.dimensions,
{
    let drained = choose|drained: Set<usize>| #[trigger]
        is_primed(
            old(start)@.cancelled(drained),
            final(start)@,
            pages@,
            0,
            priming_window(0, masonry_mode, pages@.len() as int).1,
        );
    let others = choose|drained: Set<usize>| #[trigger]
        is_primed(
            old(end)@.cancelled(drained),
            final(end)@,
            pages@,
            priming_window((pages@.len() - 1) as usize, masonry_mode, pages@.len() as int).0,
            pages@.len() as int,
        );
}

} // verus!
