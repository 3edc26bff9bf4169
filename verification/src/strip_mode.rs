//! The two strip layouts, entering and leaving them, and the sizes that go with
//! them.

use crate::navigation::{capped, circular_distance, circular_index_distance};
use vstd::prelude::*;

verus! {

/// The number of columns of a masonry layout.
pub const MASONRY_MIN_COLUMNS: usize = 2;

pub const MASONRY_MAX_COLUMNS: usize = 10;

#[derive(Clone, Copy, Debug, PartialEq, Eq, Structural)]
pub enum MangaLayoutMode {
    LongStrip,
    Masonry,
}

/// What a layout button does.
#[derive(Clone, Copy, Debug, PartialEq, Eq, Structural)]
pub enum StripToggle {
    /// Enter the strip in the layout.
    Enter,
    /// Leave the strip.
    Leave,
    /// Go on in the other layout.
    Relayout,
}

/// What the button of a layout does: it enters the strip, leaves it if it is in
/// that layout, or changes the layout.
pub fn toggle_strip_mode(manga_mode: bool, current: MangaLayoutMode, chosen: MangaLayoutMode) -> (
toggle: StripToggle)
    ensures
        toggle == (if !manga_mode {
            StripToggle::Enter
        } else if current == chosen {
            StripToggle::Leave
        } else {
            StripToggle::Relayout
        }),
{
    if !manga_mode {
        StripToggle::Enter
    } else if current == chosen {
        StripToggle::Leave
    } else {
        StripToggle::Relayout
    }
}

/// How one left a strip to view a page alone, so that one can go back.
#[derive(Clone, Copy, Debug)]
pub struct StripReturn {
    pub mode: Option<MangaLayoutMode>,
    /// The page and the reach of the textures, for a masonry layout.
    pub masonry: Option<MasonryReturn>,
    /// The textures of the masonry layout were kept.
    pub preserve_masonry_cache: bool,
}

#[derive(Clone, Copy, Debug, PartialEq, Eq, Structural)]
pub struct MasonryReturn {
    pub opened_index: usize,
    /// How far from the page the kept textures are of use.
    pub cache_reuse_radius: usize,
}

/// The way back to a strip that is left.
pub open spec fn way_back(
    layout_mode: MangaLayoutMode,
    manga_mode: bool,
    masonry: MasonryReturn,
) -> StripReturn {
    let from_masonry = layout_mode == MangaLayoutMode::Masonry && manga_mode;
    StripReturn {
        mode: Some(layout_mode),
        masonry: if from_masonry {
            Some(masonry)
        } else {
            None
        },
        preserve_masonry_cache: from_masonry,
    }
}

impl StripReturn {
    pub open spec fn none() -> Self {
        StripReturn { mode: None, masonry: None, preserve_masonry_cache: false }
    }

    /// Forgets the way back.  Says whether textures that were kept for it are to
    /// be thrown away.
    pub fn clear_strip_return_context(&mut self, manga_mode: bool) -> (clear_cache: bool)
        ensures
            *final(self) == StripReturn::none(),
            clear_cache == (old(self).preserve_masonry_cache && !manga_mode),
    {
        let clear_cache = self.preserve_masonry_cache && !manga_mode;
        self.mode = None;
        self.masonry = None;
        self.preserve_masonry_cache = false;
        clear_cache
    }

    /// Remembers the way back.
    pub fn activate_strip_return_context(
        &mut self,
        layout_mode: MangaLayoutMode,
        manga_mode: bool,
        masonry: MasonryReturn,
    )
        ensures
            *final(self) == way_back(layout_mode, manga_mode, masonry),
    {
        let from_masonry = layout_mode == MangaLayoutMode::Masonry && manga_mode;
        self.mode = Some(layout_mode);
        self.preserve_masonry_cache = from_masonry;
        self.masonry = if from_masonry {
            Some(masonry)
        } else {
            None
        };
    }
}

/// The textures that were kept are still of use.
pub open spec fn reuses_cache(state: MasonryReturn, current: usize, count: usize) -> bool {
    &&& count > 0
    &&& circular_distance(state.opened_index, capped(current, count) as usize, count) <= (
    if state.cache_reuse_radius < 1 {
        1
    } else {
        state.cache_reuse_radius as int
    })
}

/// Whether the textures that were kept are still of use.
pub fn should_reuse_masonry_cache_on_return(
    state: &MasonryReturn,
    current_index: usize,
    count: usize,
) -> (reuse: bool)
    ensures
        reuse == reuses_cache(*state, current_index, count),
{
    if count == 0 {
        return false;
    }
    let current: usize = if current_index > count - 1 {
        count - 1
    } else {
        current_index
    };
    let traveled: usize = circular_index_distance(state.opened_index, current, count);
    traveled <= state.cache_reuse_radius || traveled <= 1
}

/// How to go back to a strip.
#[derive(Clone, Copy, Debug, PartialEq, Eq, Structural)]
pub enum ReturnStep {
    Stay,
    /// Enter the strip with the textures that were kept.
    ReuseCache(MangaLayoutMode),
    /// Enter the strip anew; `clear_cache` says whether textures are thrown away
    /// first.
    Reenter { mode: MangaLayoutMode, clear_cache: bool },
}

/// How to go back to a strip from a page that is viewed alone.
pub open spec fn return_step(
    context: StripReturn,
    fullscreen: bool,
    manga_mode: bool,
    current_index: usize,
    count: usize,
) -> ReturnStep {
    match context.mode {
        None => ReturnStep::Stay,
        Some(mode) => if !fullscreen || manga_mode {
            ReturnStep::Stay
        } else if mode == MangaLayoutMode::Masonry && context.masonry is Some && reuses_cache(
            context.masonry->0,
            current_index,
            count,
        ) {
            ReturnStep::ReuseCache(mode)
        } else {
            ReturnStep::Reenter { mode, clear_cache: mode == MangaLayoutMode::Masonry }
        },
    }
}

/// How to go back to a strip from a page that is viewed alone.
pub fn return_to_strip_mode_from_middle_click(
    context: &StripReturn,
    fullscreen: bool,
    manga_mode: bool,
    current_index: usize,
    count: usize,
) -> (step: ReturnStep)
    ensures
        step == return_step(*context, fullscreen, manga_mode, current_index, count),
{
    match context.mode {
        None => ReturnStep::Stay,
        Some(mode) => {
            if !fullscreen || manga_mode {
                return ReturnStep::Stay;
            }
            let reuse = match (mode, context.masonry) {
                (MangaLayoutMode::Masonry, Some(state)) => should_reuse_masonry_cache_on_return(
                    &state,
                    current_index,
                    count,
                ),
                _ => false,
            };
            if reuse {
                ReturnStep::ReuseCache(mode)
            } else {
                ReturnStep::Reenter { mode, clear_cache: mode == MangaLayoutMode::Masonry }
            }
        },
    }
}

/// How much more a masonry layout preloads.
pub fn masonry_cache_multiplier(masonry_mode: bool) -> (multiplier: usize)
    ensures
        multiplier == (if masonry_mode {
            2int
        } else {
            1
        }),
{
    if masonry_mode {
        2
    } else {
        1
    }
}

/// How many pages before and after a page are asked for when one navigates to it.
pub fn navigation_preload_window(masonry_mode: bool) -> (window: (usize, usize))
    ensures
        window == (if masonry_mode {
            (60usize, 120usize)
        } else {
            (30usize, 60usize)
        }),
{
    let mul: usize = masonry_cache_multiplier(masonry_mode);
    (30 * mul, 60 * mul)
}

pub open spec fn columns(wanted: int) -> int {
    if wanted < MASONRY_MIN_COLUMNS {
        MASONRY_MIN_COLUMNS as int
    } else if wanted > MASONRY_MAX_COLUMNS {
        MASONRY_MAX_COLUMNS as int
    } else {
        wanted
    }
}

/// The number of columns, as far as it is allowed.
pub fn clamp_columns(wanted: usize) -> (count: usize)
    ensures
        count == columns(wanted as int),
        2 <= count <= 10,
{
    if wanted < MASONRY_MIN_COLUMNS {
        MASONRY_MIN_COLUMNS
    } else if wanted > MASONRY_MAX_COLUMNS {
        MASONRY_MAX_COLUMNS
    } else {
        wanted
    }
}

/// The new number of columns, if it is another than the present one.
pub fn set_masonry_items_per_row(present: usize, wanted: usize) -> (change: Option<usize>)
    ensures
        change == (if columns(wanted as int) == present {
            None
        } else {
            Some(columns(wanted as int) as usize)
        }),
{
    let count: usize = clamp_columns(wanted);
    if count == present {
        None
    } else {
        Some(count)
    }
}

/// What opening a page of a strip by itself does to the strip.
#[derive(Clone, Copy, Debug, PartialEq, Eq, Structural)]
pub enum StripRelease {
    /// Work in progress stops, textures and dimensions stay.
    Suspend,
    /// Everything is thrown away.
    ThrowAway,
}

/// Opens a page of a strip by itself.  The way back is remembered; a masonry layout
/// keeps its textures.
pub fn open_strip_item_in_solo_fullscreen(
    context: &mut StripReturn,
    layout_mode: MangaLayoutMode,
    manga_mode: bool,
    index: usize,
    count: usize,
    cache_reuse_radius: usize,
) -> (release: Option<StripRelease>)
    ensures
        index >= count ==> release is None && *final(context) == *old(context),
        index < count ==> {
            &&& release == Some(
                if layout_mode == MangaLayoutMode::Masonry {
                    StripRelease::Suspend
                } else {
                    StripRelease::ThrowAway
                },
            )
            &&& *final(context) == way_back(
                layout_mode,
                manga_mode,
                (MasonryReturn { opened_index: index, cache_reuse_radius }),
            )
        },
{
    if index >= count {
        return None;
    }
    context.activate_strip_return_context(
        layout_mode,
        manga_mode,
        MasonryReturn { opened_index: index, cache_reuse_radius },
    );
    if layout_mode == MangaLayoutMode::Masonry {
        Some(StripRelease::Suspend)
    } else {
        Some(StripRelease::ThrowAway)
    }
}

/// Opening a page of a masonry layout by itself and going back right away uses the
/// textures that were kept.
pub proof fn law_straight_return_reuses_cache(index: usize, count: usize, radius: usize)
    requires
        index < count,
    ensures
        return_step(
            way_back(
                MangaLayoutMode::Masonry,
                true,
                MasonryReturn { opened_index: index, cache_reuse_radius: radius },
            ),
            true,
            false,
            index,
            count,
        ) == ReturnStep::ReuseCache(MangaLayoutMode::Masonry),
{
}

/// Whether a masonry layout has to be computed anew.
pub fn masonry_layout_is_stale(
    valid: bool,
    width_changed: bool,
    laid_out_columns: usize,
    items_per_row: usize,
    laid_out_count: usize,
    count: usize,
) -> (stale: bool)
    ensures
        stale == (!valid || width_changed || laid_out_columns != columns(items_per_row as int)
            || laid_out_count != count),
{
    !valid || width_changed || laid_out_columns != clamp_columns(items_per_row) || laid_out_count
        != count
}

/// The button of a layout always leads to that layout, but for the one that is
/// already shown, whose button leaves the strip.
pub proof fn law_layout_buttons_toggle(
    manga_mode: bool,
    current: MangaLayoutMode,
    chosen: MangaLayoutMode,
    toggle: StripToggle,
)
    requires
        call_ensures(toggle_strip_mode, (manga_mode, current, chosen), toggle),
    ensures
        toggle is Enter <==> !manga_mode,
        toggle is Leave <==> manga_mode && current == chosen,
        toggle is Relayout <==> manga_mode && current != chosen,
{
}

/// One goes back to the layout that one came from, and only where there is a way back:
/// in full screen, from a page that is viewed alone.
pub proof fn law_return_leads_where_one_came_from(
    context: StripReturn,
    fullscreen: bool,
    manga_mode: bool,
    current: usize,
    count: usize,
)
    ensures
        return_step(context, fullscreen, manga_mode, current, count) is Stay <==> context.mode is None
            || !fullscreen || manga_mode,
        return_step(context, fullscreen, manga_mode, current, count) matches ReturnStep::ReuseCache(mode)
            ==> context.mode == Some(mode) && mode == MangaLayoutMode::Masonry,
        return_step(context, fullscreen, manga_mode, current, count) matches ReturnStep::Reenter {
            mode,
            clear_cache,
        } ==> context.mode == Some(mode) && (clear_cache <==> mode == MangaLayoutMode::Masonry),
{
}

/// Textures that were kept are used again if one went no further than they reach, in
/// either direction around the ends, and thrown away otherwise.
pub proof fn law_kept_textures_reach_so_far(
    opened: usize,
    radius: usize,
    current: usize,
    count: usize,
)
    requires
        opened < count,
        current < count,
    ensures
        ({
            let state = MasonryReturn { opened_index: opened, cache_reuse_radius: radius };
            let reach = if radius == 0 {
                1int
            } else {
                radius as int
            };
            reuses_cache(state, current, count) <==> (-reach <= current - opened <= reach || current
                - opened >= count - reach || opened - current >= count - reach)
        }),
{
}

/// A page of a wall is opened with its place and its reach remembered; a page of a
/// long strip with its layout alone.
pub proof fn law_way_back_remembers_the_layout(
    layout_mode: MangaLayoutMode,
    manga_mode: bool,
    masonry: MasonryReturn,
)
    ensures
        way_back(layout_mode, manga_mode, masonry).mode == Some(layout_mode),
        way_back(layout_mode, manga_mode, masonry).masonry is Some <==> manga_mode && layout_mode
            == MangaLayoutMode::Masonry,
        way_back(layout_mode, manga_mode, masonry).masonry is Some ==> way_back(
            layout_mode,
            manga_mode,
            masonry,
        ).masonry == Some(masonry),
        way_back(layout_mode, manga_mode, masonry).preserve_masonry_cache <==> manga_mode && layout_mode
            == MangaLayoutMode::Masonry,
{
}

/// There are from two to ten columns, and as many as were asked for where that is
/// allowed; asking for what is there changes nothing.
pub proof fn law_columns_are_what_was_asked_for(present: usize, wanted: usize, change: Option<usize>)
    requires
        call_ensures(set_masonry_items_per_row, (present, wanted), change),
    ensures
        2 <= columns(wanted as int) <= 10,
        2 <= wanted <= 10 ==> columns(wanted as int) == wanted,
        wanted < 2 ==> columns(wanted as int) == 2,
        wanted > 10 ==> columns(wanted as int) == 10,
        change matches Some(count) ==> count == columns(wanted as int) && count != present,
        change is None ==> present == columns(wanted as int),
{
}

/// A layout is computed anew if anything that it was computed from has changed.
pub proof fn law_stale_layouts(
    valid: bool,
    width_changed: bool,
    laid_out_columns: usize,
    items_per_row: usize,
    laid_out_count: usize,
    count: usize,
    stale: bool,
)
    requires
        call_ensures(
            masonry_layout_is_stale,
            (valid, width_changed, laid_out_columns, items_per_row, laid_out_count, count),
            stale,
        ),
    ensures
        !stale ==> valid && !width_changed && laid_out_count == count && (2 <= items_per_row <= 10
            ==> laid_out_columns == items_per_row),
        valid && !width_changed && laid_out_count == count && 2 <= items_per_row <= 10
            && laid_out_columns == items_per_row ==> !stale,
{
}

/// A wall of columns asks for twice as many pages as a long strip, and both ask for
/// more pages after the one that is gone to than before it.
pub proof fn law_more_is_asked_for_ahead(long: (usize, usize), wall: (usize, usize))
    requires
        call_ensures(navigation_preload_window, (false,), long),
        call_ensures(navigation_preload_window, (true,), wall),
    ensures
        wall.0 == 2 * long.0,
        wall.1 == 2 * long.1,
        0 < long.0 < long.1,
{
}

/// Leaving the way back forgets it; a wall of columns that was kept for it is thrown away
/// unless it is shown.
pub proof fn law_cleared_ways_back_are_gone(
    context: &mut StripReturn,
    manga_mode: bool,
    clear_cache: bool,
)
    requires
        call_ensures(StripReturn::clear_strip_return_context, (context, manga_mode), clear_cache),
    ensures
        final(context).mode is None,
        final(context).masonry is None,
        !final(context).preserve_masonry_cache,
        clear_cache <==> old(context).preserve_masonry_cache && !manga_mode,
{
}

/// The way back leads to the layout that one came from; a wall of columns is kept for it.
pub proof fn law_ways_back_lead_to_the_layout(
    context: &mut StripReturn,
    layout_mode: MangaLayoutMode,
    manga_mode: bool,
    masonry: MasonryReturn,
)
    requires
        call_ensures(
            StripReturn::activate_strip_return_context,
            (context, layout_mode, manga_mode, masonry),
            (),
        ),
    ensures
        final(context).mode == Some(layout_mode),
        final(context).preserve_masonry_cache <==> layout_mode == MangaLayoutMode::Masonry
            && manga_mode,
        final(context).masonry is Some <==> final(context).preserve_masonry_cache,
        final(context).masonry matches Some(kept) ==> kept == masonry,
{
}

/// A wall of columns is used again only near the page that was opened out of it.
pub proof fn law_walls_are_used_again_nearby(
    state: &MasonryReturn,
    current: usize,
    count: usize,
    reuse: bool,
)
    requires
        call_ensures(should_reuse_masonry_cache_on_return, (state, current, count), reuse),
    ensures
        count == 0 ==> !reuse,
        current == state.opened_index && current < count ==> reuse,
        reuse && state.opened_index < count && current < count ==> ({
            let radius = if state.cache_reuse_radius < 1 {
                1
            } else {
                state.cache_reuse_radius as int
            };
            let apart = if current < state.opened_index {
                state.opened_index - current
            } else {
                current - state.opened_index
            };
            count == 1 || apart <= radius || count - apart <= radius
        }),
{
}

/// One returns only from full screen outside a strip, and to the layout that one came
/// from.
pub proof fn law_returns_lead_to_the_layout(
    context: &StripReturn,
    fullscreen: bool,
    manga_mode: bool,
    current: usize,
    count: usize,
    step: ReturnStep,
)
    requires
        call_ensures(
            return_to_strip_mode_from_middle_click,
            (context, fullscreen, manga_mode, current, count),
            step,
        ),
    ensures
        step is Stay <==> context.mode is None || !fullscreen || manga_mode,
        step matches ReturnStep::ReuseCache(mode) ==> context.mode == Some(mode) && mode
            == MangaLayoutMode::Masonry,
        step matches ReturnStep::Reenter { mode, clear_cache } ==> context.mode == Some(mode) && (
        clear_cache <==> mode == MangaLayoutMode::Masonry),
{
}

/// A wall of columns keeps twice as many textures; it has two columns at least and ten at
/// most.
pub proof fn law_walls_have_columns(
    masonry_mode: bool,
    multiplier: usize,
    wanted: usize,
    count: usize,
)
    requires
        call_ensures(masonry_cache_multiplier, (masonry_mode,), multiplier),
        call_ensures(clamp_columns, (wanted,), count),
    ensures
        masonry_mode ==> multiplier == 2,
        !masonry_mode ==> multiplier == 1,
        2 <= count <= 10,
        2 <= wanted <= 10 ==> count == wanted,
        wanted < 2 ==> count == 2,
        wanted > 10 ==> count == 10,
{
}

/// A page that is opened out of a strip leaves a way back; a wall of columns is suspended
/// and a long strip thrown away.  A page that does not exist leaves everything as it was.
pub proof fn law_opened_pages_leave_a_way_back(
    context: &mut StripReturn,
    layout_mode: MangaLayoutMode,
    manga_mode: bool,
    index: usize,
    count: usize,
    radius: usize,
    release: Option<StripRelease>,
)
    requires
        call_ensures(
            open_strip_item_in_solo_fullscreen,
            (context, layout_mode, manga_mode, index, count, radius),
            release,
        ),
    ensures
        release is Some <==> index < count,
        release is None ==> *final(context) == *old(context),
        release is Some ==> final(context).mode == Some(layout_mode),
        release == Some(StripRelease::Suspend) <==> index < count && layout_mode
            == MangaLayoutMode::Masonry,
        release is Some ==> (final(context).masonry matches Some(kept) ==> kept.opened_index == index
            && kept.cache_reuse_radius == radius),
{
}

} // verus!
