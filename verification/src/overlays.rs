//! The overlays at the bottom of the window: media controls, the mode buttons and
//! the zoom bar.

use crate::manga_loader::MangaMediaType;
use vstd::prelude::*;

verus! {

/// The height of the bar with the media controls, in points.
pub const CONTROLS_BAR_HEIGHT: u32 = 56;

/// The height of a panel of the zoom bar with the space above it.
pub const MANGA_HUD_PANEL_VERTICAL_STEP: u32 = 48;

/// The kinds of media that are shown alone.
#[derive(Clone, Copy, Debug, PartialEq, Eq, Structural)]
pub enum MediaType {
    Image,
    Video,
}

/// What is shown, as far as it decides which overlays there are.
#[derive(Clone, Copy, Debug)]
pub struct OverlayContext {
    pub manga_mode: bool,
    pub masonry_mode: bool,
    pub fullscreen: bool,
    /// A video is open by itself.
    pub video_open: bool,
    /// The image that is open by itself is animated.
    pub image_animated: bool,
    /// What the page in the middle of the strip shows.
    pub focused_media: Option<MangaMediaType>,
    /// A video of the strip plays.
    pub strip_video_focused: bool,
    pub media_type: Option<MediaType>,
}

impl OverlayContext {
    /// There is something to play, to pause or to seek in.
    pub open spec fn controllable(self) -> bool {
        ||| self.video_open
        ||| !self.manga_mode && self.image_animated
        ||| self.manga_mode && self.fullscreen && (self.focused_media == Some(MangaMediaType::Video)
            || self.focused_media == Some(MangaMediaType::AnimatedImage) || self.strip_video_focused)
    }

    /// There is something to zoom.
    pub open spec fn zoomable(self) -> bool {
        self.manga_mode || self.media_type is Some
    }

    /// How far up the zone in the bottom right corner reaches that brings up the
    /// overlays.  It has room for all that may appear there.
    pub open spec fn zone_height(self) -> int {
        80 + (if self.fullscreen {
            72int
        } else {
            0
        }) + (if self.controllable() {
            64int
        } else {
            0
        }) + (if self.zoomable() {
            MANGA_HUD_PANEL_VERTICAL_STEP as int
        } else {
            0
        }) + (if self.zoomable() && self.masonry_mode {
            MANGA_HUD_PANEL_VERTICAL_STEP as int
        } else {
            0
        })
    }

    pub fn has_controllable_media(&self) -> (controllable: bool)
        ensures
            controllable == self.controllable(),
    {
        let strip_media = match self.focused_media {
            Some(MangaMediaType::Video) => true,
            Some(MangaMediaType::AnimatedImage) => true,
            _ => false,
        };
        self.video_open || (!self.manga_mode && self.image_animated) || (self.manga_mode
            && self.fullscreen && (strip_media || self.strip_video_focused))
    }

    pub fn allows_zoom_bar(&self) -> (zoomable: bool)
        ensures
            zoomable == self.zoomable(),
    {
        self.manga_mode || self.media_type.is_some()
    }

    pub fn hover_zone_height(&self) -> (height: u32)
        ensures
            height == self.zone_height(),
    {
        let mut height: u32 = 80;
        if self.fullscreen {
            height = height + 72;
        }
        if self.has_controllable_media() {
            height = height + 64;
        }
        if self.allows_zoom_bar() {
            height = height + MANGA_HUD_PANEL_VERTICAL_STEP;
            if self.masonry_mode {
                height = height + MANGA_HUD_PANEL_VERTICAL_STEP;
            }
        }
        height
    }
}

/// Where the pointer is.
#[derive(Clone, Copy, Debug)]
pub struct OverlayPointer {
    pub near_bottom: bool,
    /// In the zone of [`OverlayContext::hover_zone_height`].
    pub in_corner_zone: bool,
    pub over_controls_bar: bool,
}

/// The overlays and what is being done with them.
#[derive(Clone, Copy, Debug)]
pub struct BottomOverlays {
    pub seeking: bool,
    pub volume_dragging: bool,
    pub manga_video_seeking: bool,
    pub manga_video_volume_dragging: bool,
    pub gif_seeking: bool,
    pub zoom_plus_held: bool,
    pub zoom_minus_held: bool,
    pub mouse_over_video_controls: bool,
    pub show_video_controls: bool,
    pub show_manga_toggle: bool,
    pub show_manga_zoom_bar: bool,
}

impl BottomOverlays {
    /// The overlays are being used, or the pointer asks for them.
    pub open spec fn wanted(self, context: OverlayContext, pointer: OverlayPointer) -> bool {
        if context.controllable() {
            pointer.near_bottom || pointer.in_corner_zone || pointer.over_controls_bar || self.seeking
                || self.volume_dragging || self.manga_video_seeking
                || self.manga_video_volume_dragging || self.gif_seeking || self.zoom_plus_held
                || self.zoom_minus_held
        } else {
            pointer.in_corner_zone || self.zoom_plus_held || self.zoom_minus_held
        }
    }

    /// The overlays after a frame.  Nothing stays held once they are hidden.
    pub open spec fn updated(
        self,
        context: OverlayContext,
        pointer: OverlayPointer,
        recently_wanted: bool,
    ) -> Self {
        let visible = self.wanted(context, pointer) || recently_wanted;
        BottomOverlays {
            seeking: self.seeking,
            volume_dragging: self.volume_dragging,
            manga_video_seeking: visible && self.manga_video_seeking,
            manga_video_volume_dragging: visible && self.manga_video_volume_dragging,
            gif_seeking: visible && self.gif_seeking,
            zoom_plus_held: visible && self.zoom_plus_held,
            zoom_minus_held: visible && self.zoom_minus_held,
            mouse_over_video_controls: context.controllable() && pointer.over_controls_bar,
            show_video_controls: context.controllable() && visible,
            show_manga_toggle: context.fullscreen && visible,
            show_manga_zoom_bar: context.fullscreen && visible && context.zoomable(),
        }
    }

    /// Decides which overlays are shown.  `recently_wanted` says whether they were
    /// wanted so shortly before that they stay.  Says whether they are wanted now.
    pub fn update_bottom_overlays_visibility(
        &mut self,
        context: &OverlayContext,
        pointer: &OverlayPointer,
        recently_wanted: bool,
    ) -> (wanted: bool)
        ensures
            wanted == old(self).wanted(*context, *pointer),
            *final(self) == old(self).updated(*context, *pointer, recently_wanted),
    {
        let controllable = context.has_controllable_media();
        let zoomable = context.allows_zoom_bar();
        let zoom_held = self.zoom_plus_held || self.zoom_minus_held;
        self.mouse_over_video_controls = controllable && pointer.over_controls_bar;
        let wanted = if controllable {
            pointer.near_bottom || pointer.in_corner_zone || self.seeking || self.volume_dragging
                || self.manga_video_seeking || self.manga_video_volume_dragging || self.gif_seeking
                || self.mouse_over_video_controls || zoom_held
        } else {
            pointer.in_corner_zone || zoom_held
        };
        let visible = wanted || recently_wanted;
        self.show_video_controls = controllable && visible;
        self.show_manga_toggle = context.fullscreen && visible;
        self.show_manga_zoom_bar = context.fullscreen && visible && zoomable;
        if !visible {
            self.zoom_plus_held = false;
            self.zoom_minus_held = false;
            self.manga_video_seeking = false;
            self.manga_video_volume_dragging = false;
            self.gif_seeking = false;
        }
        wanted
    }
}

/// The mode buttons and the zoom bar are shown in full screen only.
pub proof fn law_strip_overlays_need_fullscreen(
    overlays: BottomOverlays,
    context: OverlayContext,
    pointer: OverlayPointer,
    recently_wanted: bool,
)
    requires
        !context.fullscreen,
    ensures
        !overlays.updated(context, pointer, recently_wanted).show_manga_toggle,
        !overlays.updated(context, pointer, recently_wanted).show_manga_zoom_bar,
{
}

/// Overlays that are wanted are shown, as far as there is anything to show.
pub proof fn law_wanted_overlays_show(
    overlays: BottomOverlays,
    context: OverlayContext,
    pointer: OverlayPointer,
    recently_wanted: bool,
)
    requires
        overlays.wanted(context, pointer),
    ensures
        overlays.updated(context, pointer, recently_wanted).show_video_controls
            == context.controllable(),
        overlays.updated(context, pointer, recently_wanted).show_manga_toggle == context.fullscreen,
        overlays.updated(context, pointer, recently_wanted).show_manga_zoom_bar == (
        context.fullscreen && context.zoomable()),
{
}

/// What the pointer is over, of what takes clicks for itself.
#[derive(Clone, Copy, Debug)]
pub struct PointerHits {
    pub window_buttons: bool,
    pub title_text: bool,
    pub controls_bar: bool,
    pub zoom_panel: bool,
    /// The panel above the zoom panel that sets the number of columns.
    pub rows_panel: bool,
    pub mode_buttons: bool,
}

/// Whether the pointer is over something that takes clicks for itself, so that
/// they are no shortcuts.  `hits` is missing where the pointer is not over the
/// window.
pub fn pointer_over_shortcut_blocking_ui(
    overlays: &BottomOverlays,
    mouse_over_window_buttons: bool,
    mouse_over_title_text: bool,
    title_text_dragging: bool,
    fullscreen: bool,
    masonry_mode: bool,
    hits: Option<PointerHits>,
) -> (blocked: bool)
    ensures
        blocked == (mouse_over_window_buttons || mouse_over_title_text || title_text_dragging
            || overlays.mouse_over_video_controls || (hits matches Some(h) && {
            ||| overlays.show_video_controls && h.controls_bar
            ||| fullscreen && overlays.show_manga_zoom_bar && (h.zoom_panel || masonry_mode
                && h.rows_panel)
            ||| fullscreen && overlays.show_manga_toggle && h.mode_buttons
        })),
{
    if mouse_over_window_buttons || mouse_over_title_text || title_text_dragging
        || overlays.mouse_over_video_controls {
        return true;
    }
    match hits {
        None => false,
        Some(h) => {
            if overlays.show_video_controls && h.controls_bar {
                return true;
            }
            if !fullscreen {
                return false;
            }
            if overlays.show_manga_zoom_bar {
                if h.zoom_panel {
                    return true;
                }
                if masonry_mode && h.rows_panel {
                    return true;
                }
            }
            overlays.show_manga_toggle && h.mode_buttons
        },
    }
}

/// How far the mode buttons stand above the bottom because of what is below them.
pub fn mode_buttons_offset(show_video_controls: bool, show_zoom_bar: bool, masonry_mode: bool) -> (
offset: u32)
    ensures
        offset == (if show_video_controls {
            CONTROLS_BAR_HEIGHT + 8
        } else {
            0
        }) + (if !show_zoom_bar {
            0int
        } else if masonry_mode {
            2 * MANGA_HUD_PANEL_VERTICAL_STEP
        } else {
            MANGA_HUD_PANEL_VERTICAL_STEP as int
        }),
{
    let controls: u32 = if show_video_controls {
        CONTROLS_BAR_HEIGHT + 8
    } else {
        0
    };
    let zoom: u32 = if !show_zoom_bar {
        0
    } else if masonry_mode {
        2 * MANGA_HUD_PANEL_VERTICAL_STEP
    } else {
        MANGA_HUD_PANEL_VERTICAL_STEP
    };
    controls + zoom
}

/// There is something to play where a video is open, where the image that is open is
/// animated, or where a strip in full screen shows something that moves.
pub proof fn law_moving_media_are_controllable(context: &OverlayContext, controllable: bool)
    requires
        call_ensures(OverlayContext::has_controllable_media, (context,), controllable),
    ensures
        context.video_open ==> controllable,
        !context.manga_mode ==> (controllable <==> context.video_open || context.image_animated),
        context.manga_mode && !context.fullscreen ==> controllable == context.video_open,
        context.manga_mode && context.fullscreen && (context.strip_video_focused
            || context.focused_media == Some(MangaMediaType::Video) || context.focused_media == Some(
            MangaMediaType::AnimatedImage,
        )) ==> controllable,
        context.manga_mode && controllable && !context.video_open && !context.strip_video_focused
            ==> context.fullscreen && context.focused_media is Some && context.focused_media != Some(
            MangaMediaType::StaticImage,
        ),
{
}

/// There is something to zoom in every strip, and outside one where a file is open.
pub proof fn law_anything_shown_can_be_zoomed(context: &OverlayContext, zoomable: bool)
    requires
        call_ensures(OverlayContext::allows_zoom_bar, (context,), zoomable),
    ensures
        context.manga_mode ==> zoomable,
        !context.manga_mode ==> (zoomable <==> context.media_type is Some),
{
}

/// The zone that brings up the overlays has room for each of them.
pub proof fn law_zone_has_room_for_the_overlays(
    context: &OverlayContext,
    height: u32,
    controllable: bool,
    zoomable: bool,
)
    requires
        call_ensures(OverlayContext::hover_zone_height, (context,), height),
        call_ensures(OverlayContext::has_controllable_media, (context,), controllable),
        call_ensures(OverlayContext::allows_zoom_bar, (context,), zoomable),
    ensures
        height >= 80,
        !context.fullscreen && !controllable && !zoomable ==> height == 80,
        context.fullscreen && !controllable && !zoomable ==> height == 152,
        !context.fullscreen && controllable && !zoomable ==> height == 144,
        !context.fullscreen && !controllable && zoomable && !context.masonry_mode ==> height == 128,
        !context.fullscreen && !controllable && zoomable && context.masonry_mode ==> height == 176,
        context.fullscreen && controllable && zoomable && context.masonry_mode ==> height == 80 + 72
            + 64 + 48 + 48,
{
}

/// The overlays are wanted while the pointer is in their corner or a zoom button is held;
/// where there is something to play, also while the pointer is at the bottom or a slider
/// is held.  Nothing else brings them up.
pub proof fn law_overlays_come_when_used(
    overlays: &mut BottomOverlays,
    context: &OverlayContext,
    pointer: &OverlayPointer,
    recently: bool,
    wanted: bool,
    controllable: bool,
)
    requires
        call_ensures(
            BottomOverlays::update_bottom_overlays_visibility,
            (overlays, context, pointer, recently),
            wanted,
        ),
        call_ensures(OverlayContext::has_controllable_media, (context,), controllable),
    ensures
        pointer.in_corner_zone || old(overlays).zoom_plus_held || old(overlays).zoom_minus_held
            ==> wanted,
        !controllable ==> (wanted <==> pointer.in_corner_zone || old(overlays).zoom_plus_held || old(
            overlays).zoom_minus_held),
        controllable && (pointer.near_bottom || pointer.over_controls_bar || old(overlays).seeking
            || old(overlays).volume_dragging || old(overlays).manga_video_seeking || old(
            overlays).manga_video_volume_dragging || old(overlays).gif_seeking) ==> wanted,
        wanted && controllable ==> pointer.in_corner_zone || old(overlays).zoom_plus_held || old(
            overlays).zoom_minus_held || pointer.near_bottom || pointer.over_controls_bar || old(
            overlays).seeking || old(overlays).volume_dragging || old(overlays).manga_video_seeking
            || old(overlays).manga_video_volume_dragging || old(overlays).gif_seeking,
{
}

/// What is neither wanted nor was wanted shortly before is hidden, and a slider or a
/// button that is hidden is let go; what is shown stays held.
pub proof fn law_hidden_overlays_are_let_go(
    overlays: &mut BottomOverlays,
    context: &OverlayContext,
    pointer: &OverlayPointer,
    recently: bool,
    wanted: bool,
    controllable: bool,
)
    requires
        call_ensures(
            BottomOverlays::update_bottom_overlays_visibility,
            (overlays, context, pointer, recently),
            wanted,
        ),
        call_ensures(OverlayContext::has_controllable_media, (context,), controllable),
    ensures
        !wanted && !recently ==> !final(overlays).show_video_controls && !final(
            overlays).show_manga_toggle && !final(overlays).show_manga_zoom_bar && !final(
            overlays).zoom_plus_held && !final(overlays).zoom_minus_held && !final(
            overlays).manga_video_seeking && !final(overlays).manga_video_volume_dragging && !final(
            overlays).gif_seeking,
        wanted || recently ==> {
            &&& final(overlays).zoom_plus_held == old(overlays).zoom_plus_held
            &&& final(overlays).zoom_minus_held == old(overlays).zoom_minus_held
            &&& final(overlays).manga_video_seeking == old(overlays).manga_video_seeking
            &&& final(overlays).manga_video_volume_dragging == old(
                overlays).manga_video_volume_dragging
            &&& final(overlays).gif_seeking == old(overlays).gif_seeking
            &&& final(overlays).show_video_controls == controllable
            &&& final(overlays).show_manga_toggle == context.fullscreen
        },
        final(overlays).seeking == old(overlays).seeking,
        final(overlays).volume_dragging == old(overlays).volume_dragging,
        final(overlays).mouse_over_video_controls <==> controllable && pointer.over_controls_bar,
        final(overlays).show_manga_zoom_bar ==> final(overlays).show_manga_toggle,
{
}

/// A click is no shortcut over anything that is shown and takes clicks, and is one
/// everywhere else.
pub proof fn law_clicks_on_controls_are_no_shortcuts(
    overlays: &BottomOverlays,
    over_buttons: bool,
    over_title: bool,
    title_dragging: bool,
    fullscreen: bool,
    masonry_mode: bool,
    hits: Option<PointerHits>,
    blocked: bool,
)
    requires
        call_ensures(
            pointer_over_shortcut_blocking_ui,
            (overlays, over_buttons, over_title, title_dragging, fullscreen, masonry_mode, hits),
            blocked,
        ),
    ensures
        over_buttons || over_title || title_dragging || overlays.mouse_over_video_controls ==> blocked,
        hits matches Some(h) ==> overlays.show_video_controls && h.controls_bar ==> blocked,
        hits matches Some(h) ==> fullscreen && overlays.show_manga_zoom_bar && h.zoom_panel
            ==> blocked,
        hits matches Some(h) ==> fullscreen && overlays.show_manga_zoom_bar && masonry_mode
            && h.rows_panel ==> blocked,
        hits matches Some(h) ==> fullscreen && overlays.show_manga_toggle && h.mode_buttons
            ==> blocked,
        blocked && !(over_buttons || over_title || title_dragging
            || overlays.mouse_over_video_controls) ==> hits is Some,
        hits matches Some(h) ==> blocked && !(over_buttons || over_title || title_dragging
            || overlays.mouse_over_video_controls) ==> (overlays.show_video_controls
            && h.controls_bar) || (fullscreen && overlays.show_manga_toggle && h.mode_buttons) || (
        fullscreen && overlays.show_manga_zoom_bar && (h.zoom_panel || (masonry_mode
            && h.rows_panel))),
{
}

/// The mode buttons stand above what is shown below them, and at the bottom if nothing
/// is.
pub proof fn law_mode_buttons_stand_on_top(
    controls: bool,
    zoom_bar: bool,
    masonry_mode: bool,
    offset: u32,
)
    requires
        call_ensures(mode_buttons_offset, (controls, zoom_bar, masonry_mode), offset),
    ensures
        !controls && !zoom_bar ==> offset == 0,
        controls && !zoom_bar ==> offset == 64,
        !controls && zoom_bar && !masonry_mode ==> offset == 48,
        !controls && zoom_bar && masonry_mode ==> offset == 96,
        controls && zoom_bar && !masonry_mode ==> offset == 112,
        controls && zoom_bar && masonry_mode ==> offset == 160,
{
}

} // verus!
