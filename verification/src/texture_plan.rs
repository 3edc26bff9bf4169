//! How many textures of a strip are kept, and how large they are made.

use crate::coordinate::float_value;
use crate::coordinate::Coordinate;
use crate::scaling::ResizeFilter;
use crate::strip_mode::{clamp_columns, columns};
use vstd::arithmetic::power2::{lemma_pow2_pos, lemma_pow2_unfold, pow2};
use vstd::prelude::*;

verus! {

pub const MANGA_CACHE_MIN_ENTRIES: usize = 64;

pub const MANGA_CACHE_MAX_ENTRIES: usize = 512;

/// How many textures a long strip keeps at most.
pub const LONG_STRIP_CACHE_MAX_ENTRIES: usize = 320;

pub const MANGA_TEXTURE_UPGRADE_MIN_DELTA_SIDE: u32 = 64;

/// The shortest side that a visible page of a long strip is asked for with.
pub const MANGA_DYNAMIC_TARGET_MIN_SIDE: u32 = 192;

/// The shortest side that a page of a masonry layout is asked for with.
pub const MANGA_MASONRY_DYNAMIC_TARGET_MIN_SIDE: u32 = 96;

/// A texture of a long strip is at least this long, zoomed out or not.
pub const MANGA_PRELOAD_TARGET_MIN_SIDE: u32 = 256;

/// The zoom factors at which something changes, as positions of the
/// single-precision numbers 0.35, 0.45, 0.5, 0.55, 0.6, 0.75, 0.8, 0.95, 1, 1.5 and 2.
pub const ZOOM_35: Coordinate = 1_051_931_443;

pub const ZOOM_45: Coordinate = 1_055_286_886;

pub const ZOOM_50: Coordinate = 1_056_964_608;

pub const ZOOM_55: Coordinate = 1_057_803_469;

pub const ZOOM_60: Coordinate = 1_058_642_330;

pub const ZOOM_75: Coordinate = 1_061_158_912;

pub const ZOOM_80: Coordinate = 1_061_997_773;

pub const ZOOM_95: Coordinate = 1_064_514_355;

pub const ZOOM_100: Coordinate = 1_065_353_216;

pub const ZOOM_150: Coordinate = 1_069_547_520;

pub const ZOOM_200: Coordinate = 1_073_741_824;

/// How many times the textures are needed that are needed at full size.
pub open spec fn zoom_factor(masonry_mode: bool, zoom: Coordinate) -> int {
    if masonry_mode {
        if zoom <= ZOOM_35 {
            4
        } else if zoom <= ZOOM_55 {
            3
        } else if zoom <= ZOOM_80 {
            2
        } else {
            1
        }
    } else if zoom <= ZOOM_45 {
        3
    } else if zoom <= ZOOM_75 {
        2
    } else {
        1
    }
}

pub open spec fn larger(a: int, b: int) -> int {
    if a > b {
        a
    } else {
        b
    }
}

pub open spec fn between(value: int, low: int, high: int) -> int {
    if value < low {
        low
    } else if value > high {
        high
    } else {
        value
    }
}

/// How many textures are to be kept.
pub open spec fn cache_capacity(
    masonry_mode: bool,
    items_per_row: usize,
    zoom: Coordinate,
    visible_page_count: usize,
    visible_indices_count: usize,
) -> int {
    let visible = larger(1, larger(visible_page_count as int, visible_indices_count as int));
    if masonry_mode {
        between(
            visible * (2 + columns(items_per_row as int) / 2) * zoom_factor(true, zoom),
            MANGA_CACHE_MIN_ENTRIES as int,
            MANGA_CACHE_MAX_ENTRIES as int,
        )
    } else {
        between(
            visible * 4 * zoom_factor(false, zoom),
            MANGA_CACHE_MIN_ENTRIES as int,
            LONG_STRIP_CACHE_MAX_ENTRIES as int,
        )
    }
}

/// How many textures are to be kept.
pub fn manga_compute_cache_capacity_target(
    masonry_mode: bool,
    items_per_row: usize,
    zoom: Coordinate,
    visible_page_count: usize,
    visible_indices_count: usize,
) -> (capacity: usize)
    ensures
        capacity == cache_capacity(
            masonry_mode,
            items_per_row,
            zoom,
            visible_page_count,
            visible_indices_count,
        ),
        MANGA_CACHE_MIN_ENTRIES <= capacity <= MANGA_CACHE_MAX_ENTRIES,
{
    let more: usize = if visible_page_count > visible_indices_count {
        visible_page_count
    } else {
        visible_indices_count
    };
    let visible: usize = if more < 1 {
        1
    } else if more > MANGA_CACHE_MAX_ENTRIES {
        MANGA_CACHE_MAX_ENTRIES
    } else {
        more
    };
    let factor: usize = if masonry_mode {
        if zoom <= ZOOM_35 {
            4
        } else if zoom <= ZOOM_55 {
            3
        } else if zoom <= ZOOM_80 {
            2
        } else {
            1
        }
    } else if zoom <= ZOOM_45 {
        3
    } else if zoom <= ZOOM_75 {
        2
    } else {
        1
    };
    let (density, most): (usize, usize) = if masonry_mode {
        (2 + clamp_columns(items_per_row) / 2, MANGA_CACHE_MAX_ENTRIES)
    } else {
        (4, LONG_STRIP_CACHE_MAX_ENTRIES)
    };
    proof {
        let full = larger(1, larger(visible_page_count as int, visible_indices_count as int));
        assert(1 <= density <= 7 && 1 <= factor <= 4);
        assert(visible * density * factor <= 512 * 7 * 4) by (nonlinear_arith)
            requires
                visible <= 512,
                density <= 7,
                factor <= 4,
        ;
        assert(visible * density <= 512 * 7) by (nonlinear_arith)
            requires
                visible <= 512,
                density <= 7,
        ;
        if full > 512 {
            assert(full * density * factor >= 512) by (nonlinear_arith)
                requires
                    full > 512,
                    density >= 1,
                    factor >= 1,
            ;
            assert(visible * density * factor >= 512) by (nonlinear_arith)
                requires
                    visible == 512,
                    density >= 1,
                    factor >= 1,
            ;
        }
    }
    let wanted: usize = visible * density * factor;
    if wanted < MANGA_CACHE_MIN_ENTRIES {
        MANGA_CACHE_MIN_ENTRIES
    } else if wanted > most {
        most
    } else {
        wanted
    }
}

/// How much sharper than needed a masonry layout is at a zoom factor, in percent.
pub fn masonry_zoom_quality_boost(zoom: Coordinate) -> (percent: u32)
    ensures
        percent == (if zoom <= ZOOM_35 {
            85int
        } else if zoom <= ZOOM_60 {
            90
        } else if zoom <= ZOOM_100 {
            100
        } else if zoom <= ZOOM_150 {
            108
        } else if zoom <= ZOOM_200 {
            116
        } else {
            124
        }),
{
    if zoom <= ZOOM_35 {
        85
    } else if zoom <= ZOOM_60 {
        90
    } else if zoom <= ZOOM_100 {
        100
    } else if zoom <= ZOOM_150 {
        108
    } else if zoom <= ZOOM_200 {
        116
    } else {
        124
    }
}

/// The filters that pages and animations are scaled with.  A masonry layout is
/// scaled fast.
pub fn manga_decode_filters_for_strip_mode(
    masonry_mode: bool,
    downscale: ResizeFilter,
    animation: ResizeFilter,
) -> (filters: (ResizeFilter, ResizeFilter))
    ensures
        filters == (if masonry_mode {
            (ResizeFilter::Triangle, ResizeFilter::Triangle)
        } else {
            (downscale, animation)
        }),
{
    if masonry_mode {
        (ResizeFilter::Triangle, ResizeFilter::Triangle)
    } else {
        (downscale, animation)
    }
}

/// The longest side that a texture can have.
pub open spec fn longest_side(max_texture_side: u32) -> int {
    larger(1, max_texture_side as int)
}

/// A texture side within what is of use and what is possible.
pub open spec fn side_within(scaled: u32, least: u32, max_texture_side: u32) -> int {
    let max_side = longest_side(max_texture_side);
    between(
        scaled as int,
        if least < max_side {
            least as int
        } else {
            max_side
        },
        max_side,
    )
}

/// A texture side within what is of use and what is possible.
pub fn clamp_texture_side(scaled: u32, least: u32, max_texture_side: u32) -> (side: u32)
    ensures
        side == side_within(scaled, least, max_texture_side),
{
    let max_side: u32 = if max_texture_side < 1 {
        1
    } else {
        max_texture_side
    };
    let low: u32 = if least < max_side {
        least
    } else {
        max_side
    };
    if scaled < low {
        low
    } else if scaled > max_side {
        max_side
    } else {
        scaled
    }
}

/// How large the textures of the coming pages are made.  `masonry_side` and
/// `strip_side` are what the visible pages take on screen in either layout, with
/// some to spare.
pub fn manga_target_texture_side_for_preload(
    manga_mode: bool,
    masonry_mode: bool,
    count: usize,
    zoom: Coordinate,
    max_texture_side: u32,
    masonry_side: u32,
    strip_side: u32,
) -> (side: u32)
    ensures
        side == (if !manga_mode || count == 0 {
            longest_side(max_texture_side)
        } else if masonry_mode {
            side_within(
                masonry_side,
                MANGA_MASONRY_DYNAMIC_TARGET_MIN_SIDE,
                max_texture_side,
            )
        } else if zoom >= ZOOM_95 {
            longest_side(max_texture_side)
        } else {
            side_within(strip_side, MANGA_PRELOAD_TARGET_MIN_SIDE, max_texture_side)
        }),
{
    let max_side: u32 = if max_texture_side < 1 {
        1
    } else {
        max_texture_side
    };
    if !manga_mode || count == 0 {
        return max_side;
    }
    if masonry_mode {
        return clamp_texture_side(
            masonry_side,
            MANGA_MASONRY_DYNAMIC_TARGET_MIN_SIDE,
            max_texture_side,
        );
    }
    if zoom >= ZOOM_95 {
        return max_side;
    }
    clamp_texture_side(strip_side, MANGA_PRELOAD_TARGET_MIN_SIDE, max_texture_side)
}

/// The side that a page is asked for again with: what it takes on screen, but no
/// longer than the page itself.
pub fn manga_retry_target_side_for_rect(
    dimensions: Option<(u32, u32)>,
    masonry_mode: bool,
    scaled: u32,
    max_texture_side: u32,
) -> (side: u32)
    ensures
        side == between(
            side_of_source(
                dimensions,
                side_within(
                    scaled,
                    (if masonry_mode {
                        MANGA_MASONRY_DYNAMIC_TARGET_MIN_SIDE
                    } else {
                        MANGA_DYNAMIC_TARGET_MIN_SIDE
                    }),
                    max_texture_side,
                ),
            ),
            1,
            longest_side(max_texture_side),
        ),
        1 <= side,
{
    let least: u32 = if masonry_mode {
        MANGA_MASONRY_DYNAMIC_TARGET_MIN_SIDE
    } else {
        MANGA_DYNAMIC_TARGET_MIN_SIDE
    };
    let wanted: u32 = clamp_texture_side(scaled, least, max_texture_side);
    let side: u32 = manga_clamp_target_side_to_source(dimensions, wanted);
    clamp_texture_side(side, 1, max_texture_side)
}

/// The side, but no longer than the page itself.
pub open spec fn side_of_source(dimensions: Option<(u32, u32)>, target_side: int) -> int {
    match dimensions {
        None => target_side,
        Some((w, h)) => {
            let own = larger(1, larger(w as int, h as int));
            if target_side < own {
                target_side
            } else {
                own
            }
        },
    }
}

/// The side, but no longer than the page itself.
pub fn manga_clamp_target_side_to_source(dimensions: Option<(u32, u32)>, target_side: u32) -> (side:
    u32)
    ensures
        side == side_of_source(dimensions, target_side as int),
{
    match dimensions {
        None => target_side,
        Some((w, h)) => {
            let longer: u32 = if w > h {
                w
            } else {
                h
            };
            let own: u32 = if longer < 1 {
                1
            } else {
                longer
            };
            if target_side < own {
                target_side
            } else {
                own
            }
        },
    }
}

/// A texture is to be replaced by a larger one.  That has to be larger by a fixed
/// amount and by a ratio; `ratio_threshold` is the side that is larger by that
/// ratio.
pub open spec fn upgrade_needed(existing_side: int, desired_side: int, ratio_threshold: int) -> bool {
    let delta_threshold = existing_side + MANGA_TEXTURE_UPGRADE_MIN_DELTA_SIDE;
    &&& desired_side > existing_side
    &&& desired_side >= ratio_threshold
    &&& desired_side >= (if delta_threshold > u32::MAX {
        u32::MAX as int
    } else {
        delta_threshold
    })
}

/// Whether a texture is to be replaced by a larger one.
pub fn manga_texture_upgrade_needed(existing_side: u32, desired_side: u32, ratio_threshold: u32) -> (
needed: bool)
    ensures
        needed == upgrade_needed(
            existing_side as int,
            desired_side as int,
            ratio_threshold as int,
        ),
{
    if desired_side <= existing_side {
        return false;
    }
    let delta_threshold: u32 = existing_side.saturating_add(MANGA_TEXTURE_UPGRADE_MIN_DELTA_SIDE);
    desired_side >= ratio_threshold && desired_side >= delta_threshold
}

/// At least 64 textures are kept; a wall of columns keeps 512 at most and a long strip
/// 320.  As long as neither limit is met, every visible page has at least as many kept
/// as the layout has in reserve for it.
pub proof fn law_enough_textures_are_kept(
    masonry_mode: bool,
    items_per_row: usize,
    zoom: Coordinate,
    pages: usize,
    indices: usize,
    capacity: usize,
)
    requires
        call_ensures(
            manga_compute_cache_capacity_target,
            (masonry_mode, items_per_row, zoom, pages, indices),
            capacity,
        ),
    ensures
        64 <= capacity <= 512,
        !masonry_mode ==> capacity <= 320,
        !masonry_mode && capacity < 320 ==> capacity >= 4 * pages && capacity >= 4 * indices,
        masonry_mode && capacity < 512 ==> capacity >= 3 * pages && capacity >= 3 * indices,
        pages <= 5 && indices <= 5 && !masonry_mode ==> capacity == 64,
        !masonry_mode && zoom > ZOOM_75 && 16 <= pages <= 80 && indices <= pages ==> capacity == 4
            * pages,
        !masonry_mode && ZOOM_45 < zoom <= ZOOM_75 && 8 <= pages <= 40 && indices <= pages
            ==> capacity == 8 * pages,
        !masonry_mode && zoom <= ZOOM_45 && 6 <= pages <= 26 && indices <= pages ==> capacity == 12
            * pages,
{
    let visible = larger(1, larger(pages as int, indices as int));
    let density = 2 + columns(items_per_row as int) / 2;
    let factor = zoom_factor(masonry_mode, zoom);
    assert(visible * density * factor >= 3 * visible) by (nonlinear_arith)
        requires
            visible >= 1,
            density >= 3,
            factor >= 1,
    ;
    assert(visible * 4 * factor >= 4 * visible) by (nonlinear_arith)
        requires
            visible >= 1,
            factor >= 1,
    ;
    assert(factor == 1 ==> visible * 4 * factor == 4 * visible) by (nonlinear_arith);
    assert(factor == 2 ==> visible * 4 * factor == 8 * visible) by (nonlinear_arith);
    assert(factor == 3 ==> visible * 4 * factor == 12 * visible) by (nonlinear_arith);
}

/// More visible pages or a smaller zoom never lead to fewer textures.
pub proof fn law_more_pages_keep_more_textures(
    masonry_mode: bool,
    items_per_row: usize,
    zoom: Coordinate,
    pages: usize,
    indices: usize,
    capacity: usize,
    smaller_zoom: Coordinate,
    more_pages: usize,
    more_indices: usize,
    larger_capacity: usize,
)
    requires
        call_ensures(
            manga_compute_cache_capacity_target,
            (masonry_mode, items_per_row, zoom, pages, indices),
            capacity,
        ),
        call_ensures(
            manga_compute_cache_capacity_target,
            (masonry_mode, items_per_row, smaller_zoom, more_pages, more_indices),
            larger_capacity,
        ),
        smaller_zoom <= zoom,
        pages <= more_pages,
        indices <= more_indices,
    ensures
        capacity <= larger_capacity,
{
    let few = larger(1, larger(pages as int, indices as int));
    let many = larger(1, larger(more_pages as int, more_indices as int));
    let density = 2 + columns(items_per_row as int) / 2;
    let low = zoom_factor(masonry_mode, zoom);
    let high = zoom_factor(masonry_mode, smaller_zoom);
    assert(few * density * low <= many * density * high) by (nonlinear_arith)
        requires
            1 <= few <= many,
            density >= 0,
            1 <= low <= high,
    ;
    assert(few * 4 * low <= many * 4 * high) by (nonlinear_arith)
        requires
            1 <= few <= many,
            1 <= low <= high,
    ;
}

/// A larger zoom makes pages sharper, from 85 to 124 per cent, and exactly as sharp as
/// they are at full size.
pub proof fn law_zooming_in_sharpens(
    zoom: Coordinate,
    larger_zoom: Coordinate,
    percent: u32,
    larger_percent: u32,
)
    requires
        call_ensures(masonry_zoom_quality_boost, (zoom,), percent),
        call_ensures(masonry_zoom_quality_boost, (larger_zoom,), larger_percent),
        zoom <= larger_zoom,
    ensures
        85 <= percent <= larger_percent <= 124,
        zoom == ZOOM_100 ==> percent == 100,
        zoom <= ZOOM_35 ==> percent == 85,
        ZOOM_35 < zoom <= ZOOM_60 ==> percent == 90,
        ZOOM_60 < zoom <= ZOOM_100 ==> percent == 100,
        ZOOM_100 < zoom <= ZOOM_150 ==> percent == 108,
        ZOOM_150 < zoom <= ZOOM_200 ==> percent == 116,
        zoom > ZOOM_200 ==> percent == 124,
{
}

/// A wall of columns is scaled fast, a strip as it was chosen.
pub proof fn law_strips_are_scaled_as_chosen(
    masonry_mode: bool,
    downscale: ResizeFilter,
    animation: ResizeFilter,
    filters: (ResizeFilter, ResizeFilter),
)
    requires
        call_ensures(
            manga_decode_filters_for_strip_mode,
            (masonry_mode, downscale, animation),
            filters,
        ),
    ensures
        !masonry_mode ==> filters.0 == downscale && filters.1 == animation,
        masonry_mode ==> filters.0 == ResizeFilter::Triangle && filters.1 == ResizeFilter::Triangle,
{
}

/// A texture side is what was asked for, as far as it lies within the limits, and else
/// the limit that is nearest.
pub proof fn law_sides_stay_within_limits(scaled: u32, least: u32, max_side: u32, side: u32)
    requires
        call_ensures(clamp_texture_side, (scaled, least, max_side), side),
        0 < max_side,
        least <= max_side,
    ensures
        least <= side <= max_side,
        least <= scaled <= max_side ==> side == scaled,
        scaled < least ==> side == least,
        scaled > max_side ==> side == max_side,
{
}

/// Pages that are shown near their full size are preloaded as large as possible; others
/// as large as they are shown, within limits.
pub proof fn law_preloaded_pages_are_large_enough(
    manga_mode: bool,
    masonry_mode: bool,
    count: usize,
    zoom: Coordinate,
    max_side: u32,
    masonry_side: u32,
    strip_side: u32,
    side: u32,
)
    requires
        call_ensures(
            manga_target_texture_side_for_preload,
            (manga_mode, masonry_mode, count, zoom, max_side, masonry_side, strip_side),
            side,
        ),
        max_side >= 256,
    ensures
        side <= max_side,
        !manga_mode || count == 0 ==> side == max_side,
        manga_mode && count > 0 && !masonry_mode && zoom >= ZOOM_95 ==> side == max_side,
        manga_mode && count > 0 && !masonry_mode && zoom < ZOOM_95 ==> side >= 256,
        manga_mode && count > 0 && !masonry_mode && zoom < ZOOM_95 && 256 <= strip_side <= max_side
            ==> side == strip_side,
        manga_mode && count > 0 && !masonry_mode && zoom < ZOOM_95 && strip_side < 256 ==> side == 256,
        manga_mode && count > 0 && masonry_mode ==> side >= 96,
        manga_mode && count > 0 && masonry_mode && 96 <= masonry_side <= max_side ==> side
            == masonry_side,
        manga_mode && count > 0 && masonry_mode && masonry_side < 96 ==> side == 96,
{
}

/// A page is asked for again no larger than it is, no larger than a texture can be, and
/// otherwise as large as it is shown.
pub proof fn law_retries_ask_for_what_is_shown(
    dimensions: Option<(u32, u32)>,
    masonry_mode: bool,
    scaled: u32,
    max_side: u32,
    side: u32,
)
    requires
        call_ensures(
            manga_retry_target_side_for_rect,
            (dimensions, masonry_mode, scaled, max_side),
            side,
        ),
        max_side >= 192,
    ensures
        1 <= side <= max_side,
        dimensions matches Some((w, h)) ==> w > 0 || h > 0 ==> side <= w || side <= h,
        dimensions is None && 192 <= scaled <= max_side ==> side == scaled,
        dimensions is None && !masonry_mode && scaled < 192 ==> side == 192,
        dimensions is None && masonry_mode && scaled < 96 ==> side == 96,
        dimensions is None && masonry_mode && 96 <= scaled <= max_side ==> side == scaled,
        dimensions matches Some((w, h)) ==> 192 <= scaled <= max_side && (scaled <= w || scaled <= h)
            ==> side == scaled,
{
}

/// A side is shortened to the longer side of the page and left alone otherwise.
pub proof fn law_sides_are_no_longer_than_the_page(
    dimensions: Option<(u32, u32)>,
    target: u32,
    side: u32,
)
    requires
        call_ensures(manga_clamp_target_side_to_source, (dimensions, target), side),
    ensures
        side <= target,
        dimensions is None ==> side == target,
        dimensions matches Some((w, h)) ==> target <= w || target <= h ==> side == target,
        dimensions matches Some((w, h)) ==> target > w && target > h && (w > 0 || h > 0) ==> (side
            == w || side == h) && side >= w && side >= h,
{
}

/// A texture is replaced only by one that is longer by 64 at least and reaches the
/// threshold, and then always.
pub proof fn law_textures_are_replaced_by_larger_ones(
    existing: u32,
    desired: u32,
    threshold: u32,
    needed: bool,
)
    requires
        call_ensures(manga_texture_upgrade_needed, (existing, desired, threshold), needed),
        existing <= u32::MAX - 64,
    ensures
        needed <==> desired >= existing + 64 && desired >= threshold,
{
}

/// The zoom factors are positions of the numbers that are nearest to them: a factor and
/// its share of the position of one differ by half a unit of the last place at most.
pub proof fn law_zoom_factors_are_what_they_are_called()
    ensures
        ({
            let one = float_value(ZOOM_100 as u32);
            &&& 2 * float_value(ZOOM_50 as u32) == one
            &&& 4 * float_value(ZOOM_75 as u32) == 3 * one
            &&& 2 * float_value(ZOOM_150 as u32) == 3 * one
            &&& float_value(ZOOM_200 as u32) == 2 * one
            &&& one == 0x80_0000 * pow2(127)
            &&& is_near(float_value(ZOOM_35 as u32), 35, one, pow2(125) as int)
            &&& is_near(float_value(ZOOM_45 as u32), 45, one, pow2(125) as int)
            &&& is_near(float_value(ZOOM_55 as u32), 55, one, pow2(126) as int)
            &&& is_near(float_value(ZOOM_60 as u32), 60, one, pow2(126) as int)
            &&& is_near(float_value(ZOOM_80 as u32), 80, one, pow2(126) as int)
            &&& is_near(float_value(ZOOM_95 as u32), 95, one, pow2(126) as int)
        }),
{
    lemma_pow2_unfold(126);
    lemma_pow2_unfold(127);
    lemma_pow2_unfold(128);
    lemma_pow2_pos(125);
    let p = pow2(125) as int;
    assert(float_value(ZOOM_100 as u32) == 0x80_0000 * (4 * p));
    assert(float_value(ZOOM_200 as u32) == 0x80_0000 * (8 * p));
    assert(float_value(ZOOM_150 as u32) == 0xc0_0000 * (4 * p));
    assert(float_value(ZOOM_50 as u32) == 0x80_0000 * (2 * p));
    assert(float_value(ZOOM_75 as u32) == 0xc0_0000 * (2 * p));
    assert(float_value(ZOOM_35 as u32) == 0xb3_3333 * p);
    assert(float_value(ZOOM_45 as u32) == 0xe6_6666 * p);
    assert(float_value(ZOOM_55 as u32) == 0x8c_cccd * (2 * p));
    assert(float_value(ZOOM_60 as u32) == 0x99_999a * (2 * p));
    assert(float_value(ZOOM_80 as u32) == 0xcc_cccd * (2 * p));
    assert(float_value(ZOOM_95 as u32) == 0xf3_3333 * (2 * p));
}

/// `value` is so many hundredths of `one`, to half of `unit`.
pub open spec fn is_near(value: int, hundredths: int, one: int, unit: int) -> bool {
    -50 * unit <= 100 * value - hundredths * one <= 50 * unit
}

} // verus!
