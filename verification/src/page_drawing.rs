//! What is drawn of a page of a strip.

use crate::texture_plan::{
    between, clamp_texture_side, larger, longest_side, manga_clamp_target_side_to_source,
    side_of_source, MANGA_DYNAMIC_TARGET_MIN_SIDE,
};
use vstd::prelude::*;

verus! {

/// What is at hand of a page.
#[derive(Clone, Copy, Debug)]
pub struct PageFacts {
    pub is_video: bool,
    /// The last frame of a video that plays, or has played.
    pub has_live_frame: bool,
    pub video_focused: bool,
    pub video_playing: bool,
    /// The texture of the page.
    pub has_texture: bool,
    /// A larger texture is called for.
    pub upgrade_needed: bool,
    /// The strip was entered at this page.
    pub is_entry_page: bool,
    /// The picture that was on screen when the strip was entered.
    pub has_entry_picture: bool,
    pub animation_focused: bool,
    /// Frames of the animation are still to come.
    pub animation_streaming: bool,
}

#[derive(Clone, Copy, Debug, PartialEq, Eq, Structural)]
pub enum PagePicture {
    LiveFrame,
    Texture,
    EntryPicture,
    Placeholder,
}

#[derive(Clone, Copy, Debug, PartialEq, Eq, Structural)]
pub enum PageIcon {
    Nothing,
    /// A small icon that tells whether the video plays.
    Playing,
    Paused,
    /// A large one that tells that the page is a video.
    IsVideo,
}

/// What is drawn of a page, and what else its being visible calls for.
#[derive(Clone, Copy, Debug, PartialEq, Eq, Structural)]
pub struct PageDrawing {
    pub picture: PagePicture,
    pub icon: PageIcon,
    /// Draw a sign that frames are still to come.
    pub spinner: bool,
    /// Note since when only a placeholder is visible.
    pub mark_placeholder: bool,
    /// Ask for the page.
    pub request: bool,
}

/// What is drawn of a page.
pub open spec fn page_drawing(facts: PageFacts) -> PageDrawing {
    if facts.is_video && facts.has_live_frame {
        PageDrawing {
            picture: PagePicture::LiveFrame,
            icon: if facts.video_focused && facts.video_playing {
                PageIcon::Nothing
            } else if facts.video_playing {
                PageIcon::Playing
            } else {
                PageIcon::Paused
            },
            spinner: false,
            mark_placeholder: false,
            request: false,
        }
    } else if facts.has_texture {
        PageDrawing {
            picture: PagePicture::Texture,
            icon: if facts.is_video {
                PageIcon::IsVideo
            } else {
                PageIcon::Nothing
            },
            spinner: !facts.is_video && facts.animation_focused && facts.animation_streaming,
            mark_placeholder: false,
            request: facts.upgrade_needed,
        }
    } else if facts.is_entry_page {
        PageDrawing {
            picture: if facts.has_entry_picture {
                PagePicture::EntryPicture
            } else {
                PagePicture::Placeholder
            },
            icon: PageIcon::Nothing,
            spinner: false,
            mark_placeholder: false,
            request: true,
        }
    } else {
        PageDrawing {
            picture: PagePicture::Placeholder,
            icon: PageIcon::Nothing,
            spinner: false,
            mark_placeholder: true,
            request: true,
        }
    }
}

/// Decides what is drawn of a page.
pub fn draw_manga_item(facts: &PageFacts) -> (drawing: PageDrawing)
    ensures
        drawing == page_drawing(*facts),
{
    if facts.is_video && facts.has_live_frame {
        let icon = if facts.video_focused && facts.video_playing {
            PageIcon::Nothing
        } else if facts.video_playing {
            PageIcon::Playing
        } else {
            PageIcon::Paused
        };
        return PageDrawing {
            picture: PagePicture::LiveFrame,
            icon,
            spinner: false,
            mark_placeholder: false,
            request: false,
        };
    }
    if facts.has_texture {
        let icon = if facts.is_video {
            PageIcon::IsVideo
        } else {
            PageIcon::Nothing
        };
        return PageDrawing {
            picture: PagePicture::Texture,
            icon,
            spinner: !facts.is_video && facts.animation_focused && facts.animation_streaming,
            mark_placeholder: false,
            request: facts.upgrade_needed,
        };
    }
    let picture = if facts.is_entry_page && facts.has_entry_picture {
        PagePicture::EntryPicture
    } else {
        PagePicture::Placeholder
    };
    PageDrawing {
        picture,
        icon: PageIcon::Nothing,
        spinner: false,
        mark_placeholder: !facts.is_entry_page,
        request: true,
    }
}

/// A page of which nothing is at hand is always asked for.
pub proof fn law_missing_pages_are_requested(facts: PageFacts)
    requires
        page_drawing(facts).picture == PagePicture::Placeholder,
    ensures
        page_drawing(facts).request,
{
}

/// The side that a visible page is asked for with: what it takes on screen and not
/// less than what the coming pages are asked for with.
pub fn manga_retry_side_for_visible_item(
    dimensions: Option<(u32, u32)>,
    display_target_side: u32,
    present_target_side: u32,
    max_texture_side: u32,
) -> (side: u32)
    ensures
        ({
            let max_side = longest_side(max_texture_side);
            let present = if present_target_side < max_side {
                present_target_side as int
            } else {
                max_side
            };
            side == between(
                larger(side_of_source(dimensions, display_target_side as int), present),
                (if MANGA_DYNAMIC_TARGET_MIN_SIDE < max_side {
                    MANGA_DYNAMIC_TARGET_MIN_SIDE as int
                } else {
                    max_side
                }),
                max_side,
            )
        }),
{
    let max_side: u32 = if max_texture_side < 1 {
        1
    } else {
        max_texture_side
    };
    let own: u32 = manga_clamp_target_side_to_source(dimensions, display_target_side);
    let present: u32 = if present_target_side < max_side {
        present_target_side
    } else {
        max_side
    };
    let wanted: u32 = if own > present {
        own
    } else {
        present
    };
    clamp_texture_side(wanted, MANGA_DYNAMIC_TARGET_MIN_SIDE, max_texture_side)
}

/// The best picture that is at hand is drawn: a frame of the video, or else the texture,
/// or else, on the page at which the strip was entered, the picture from before.
pub proof fn law_best_picture_is_drawn(facts: &PageFacts, drawing: PageDrawing)
    requires
        call_ensures(draw_manga_item, (facts,), drawing),
    ensures
        drawing.picture == PagePicture::LiveFrame <==> facts.is_video && facts.has_live_frame,
        facts.has_texture && !(facts.is_video && facts.has_live_frame) ==> drawing.picture
            == PagePicture::Texture,
        drawing.picture == PagePicture::Texture ==> facts.has_texture,
        drawing.picture == PagePicture::EntryPicture <==> facts.is_entry_page
            && facts.has_entry_picture && !facts.has_texture && !(facts.is_video
            && facts.has_live_frame),
{
}

/// A page is asked for until it has a picture of its own that is large enough, and
/// counts as waiting while a mere placeholder stands for it, but not on the page at
/// which the strip was entered.
pub proof fn law_pages_without_pictures_are_asked_for(facts: &PageFacts, drawing: PageDrawing)
    requires
        call_ensures(draw_manga_item, (facts,), drawing),
    ensures
        drawing.picture == PagePicture::LiveFrame ==> !drawing.request,
        drawing.picture == PagePicture::Texture ==> drawing.request == facts.upgrade_needed,
        drawing.picture == PagePicture::Placeholder || drawing.picture == PagePicture::EntryPicture
            ==> drawing.request,
        drawing.mark_placeholder <==> drawing.picture == PagePicture::Placeholder
            && !facts.is_entry_page,
{
}

/// Videos have icons: a large one on a still picture, and on a live frame one that tells
/// whether the video plays, unless it plays as the page in focus.  A sign of waiting is
/// on an animation in focus only.
pub proof fn law_icons_tell_what_plays(facts: &PageFacts, drawing: PageDrawing)
    requires
        call_ensures(draw_manga_item, (facts,), drawing),
    ensures
        drawing.icon == PageIcon::IsVideo <==> facts.is_video && drawing.picture
            == PagePicture::Texture,
        drawing.icon == PageIcon::Paused <==> drawing.picture == PagePicture::LiveFrame
            && !facts.video_playing,
        drawing.icon == PageIcon::Playing <==> drawing.picture == PagePicture::LiveFrame
            && facts.video_playing && !facts.video_focused,
        drawing.spinner <==> drawing.picture == PagePicture::Texture && !facts.is_video
            && facts.animation_focused && facts.animation_streaming,
{
}

/// The side is one that a texture can have, at least what the coming pages are asked for
/// with, and what the page takes on screen as far as the page is that large.
pub proof fn law_visible_pages_are_asked_for_large_enough(
    dimensions: Option<(u32, u32)>,
    display: u32,
    present: u32,
    max_side: u32,
    side: u32,
)
    requires
        call_ensures(
            manga_retry_side_for_visible_item,
            (dimensions, display, present, max_side),
            side,
        ),
    ensures
        1 <= side,
        max_side > 0 ==> side <= max_side,
        present <= max_side ==> side >= present,
        max_side >= 192 ==> side >= 192,
        dimensions is None && display <= max_side ==> side >= display,
        dimensions matches Some((w, h)) ==> display <= max_side && (display <= w || display <= h)
            ==> side >= display,
        192 <= display <= max_side && present <= display && (dimensions is None || dimensions == Some(
            (display, display),
        )) ==> side == display,
{
}

} // verus!
