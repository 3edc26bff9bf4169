//! Entering and leaving full screen, and the layout that goes with it.

use crate::overlays::MediaType;
use crate::view_memory::{FullscreenViewState, ViewMemory};
use vstd::prelude::*;

verus! {

/// How many frames the window waits before it is resized on leaving full screen.
pub const RESIZE_DELAY_FRAMES: u32 = 2;

/// What toggling full screen does.
#[derive(Clone, Copy, Debug, PartialEq, Eq, Structural)]
pub enum FullscreenStep {
    /// Remember the floating window and fill the screen.
    Enter,
    /// Leave, with the window as it was.
    Restore,
    /// Leave, with the picture at full size as far as it fits.
    FullSize,
    /// Leave, with a window for another picture than before.
    NewSize,
    /// Leave; the size is not known yet.  `retry` says whether it will be.
    Unsized { retry: bool },
}

/// Full screen, and what is to be found again when it is left.
#[derive(Clone, Copy, Debug, PartialEq, Eq, Structural)]
pub struct WindowMode {
    pub fullscreen: bool,
    /// The file that was open when full screen was entered.
    pub entry_index: Option<usize>,
    /// The floating window is remembered.
    pub has_saved_window: bool,
}

pub open spec fn toggled(
    mode: WindowMode,
    current_index: usize,
    dimensions: Option<(u32, u32)>,
    media_type: Option<MediaType>,
) -> (WindowMode, FullscreenStep) {
    if !mode.fullscreen {
        (
            WindowMode { fullscreen: true, entry_index: Some(current_index), has_saved_window: true },
            FullscreenStep::Enter,
        )
    } else {
        let left = WindowMode { fullscreen: false, entry_index: None, has_saved_window: false };
        if mode.entry_index is None || mode.entry_index == Some(current_index) {
            if mode.has_saved_window {
                (left, FullscreenStep::Restore)
            } else {
                (left, FullscreenStep::FullSize)
            }
        } else {
            match dimensions {
                Some((width, height)) => if width > 0 && height > 0 {
                    (left, FullscreenStep::NewSize)
                } else {
                    (left, FullscreenStep::Unsized { retry: false })
                },
                None => (
                    left,
                    FullscreenStep::Unsized { retry: media_type == Some(MediaType::Video) },
                ),
            }
        }
    }
}

impl WindowMode {
    /// Enters or leaves full screen.  The window is restored only if the same file
    /// is open as before.
    pub fn toggle_fullscreen(
        &mut self,
        current_index: usize,
        dimensions: Option<(u32, u32)>,
        media_type: Option<MediaType>,
    ) -> (step: FullscreenStep)
        ensures
            (*final(self), step) == toggled(*old(self), current_index, dimensions, media_type),
    {
        if !self.fullscreen {
            self.fullscreen = true;
            self.entry_index = Some(current_index);
            self.has_saved_window = true;
            return FullscreenStep::Enter;
        }
        self.fullscreen = false;
        let changed = match self.entry_index {
            Some(entry) => entry != current_index,
            None => false,
        };
        let saved = self.has_saved_window;
        self.entry_index = None;
        self.has_saved_window = false;
        if !changed {
            if saved {
                FullscreenStep::Restore
            } else {
                FullscreenStep::FullSize
            }
        } else {
            match dimensions {
                Some((width, height)) => {
                    if width > 0 && height > 0 {
                        FullscreenStep::NewSize
                    } else {
                        FullscreenStep::Unsized { retry: false }
                    }
                },
                None => {
                    let retry = match media_type {
                        Some(MediaType::Video) => true,
                        _ => false,
                    };
                    FullscreenStep::Unsized { retry }
                },
            }
        }
    }
}

/// Full screen, and what goes with it, in a frame.
#[derive(Clone, Copy, Debug, PartialEq, Eq, Structural)]
pub struct FullscreenSession {
    pub mode: WindowMode,
    /// It was asked to enter or to leave full screen.
    pub toggle_requested: bool,
    /// The pages are shown as a strip.
    pub strip_open: bool,
}

pub open spec fn session_toggled(
    session: FullscreenSession,
    current_index: usize,
    dimensions: Option<(u32, u32)>,
    media_type: Option<MediaType>,
) -> (FullscreenSession, Option<FullscreenStep>) {
    if !session.toggle_requested {
        (session, None)
    } else {
        let (mode, step) = toggled(session.mode, current_index, dimensions, media_type);
        (
            FullscreenSession {
                mode,
                toggle_requested: false,
                strip_open: session.strip_open && mode.fullscreen,
            },
            Some(step),
        )
    }
}

impl FullscreenSession {
    /// Enters or leaves full screen, if that was asked for.  Leaving it ends the
    /// strip and forgets how the images were viewed.
    pub fn apply_toggle_request(
        &mut self,
        views: &mut ViewMemory,
        current_index: usize,
        dimensions: Option<(u32, u32)>,
        media_type: Option<MediaType>,
    ) -> (step: Option<FullscreenStep>)
        ensures
            (*final(self), step) == session_toggled(
                *old(self),
                current_index,
                dimensions,
                media_type,
            ),
            final(views)@ == (if old(self).toggle_requested && old(self).mode.fullscreen {
                Map::<Seq<char>, FullscreenViewState>::empty()
            } else {
                old(views)@
            }),
    {
        if !self.toggle_requested {
            return None;
        }
        self.toggle_requested = false;
        let step = self.mode.toggle_fullscreen(current_index, dimensions, media_type);
        if !self.mode.fullscreen {
            self.strip_open = false;
            views.clear();
        }
        Some(step)
    }
}

/// A request to leave full screen is met at once, and there is no strip outside full
/// screen then.
pub proof fn law_leaving_ends_the_strip(
    session: FullscreenSession,
    index: usize,
    dimensions: Option<(u32, u32)>,
    media_type: Option<MediaType>,
)
    requires
        session.mode.fullscreen,
        session.toggle_requested,
    ensures
        ({
            let after = session_toggled(session, index, dimensions, media_type).0;
            !after.mode.fullscreen && !after.toggle_requested && !after.strip_open
        }),
{
}

/// Entering full screen and leaving it at the same file brings the window back.
pub proof fn law_window_is_restored(
    mode: WindowMode,
    index: usize,
    dimensions: Option<(u32, u32)>,
    media_type: Option<MediaType>,
)
    requires
        !mode.fullscreen,
    ensures
        ({
            let entered = toggled(mode, index, dimensions, media_type).0;
            let left = toggled(entered, index, dimensions, media_type);
            left.1 == FullscreenStep::Restore && !left.0.fullscreen
        }),
{
}

/// Which layout is applied.
#[derive(Clone, Copy, Debug, PartialEq, Eq, Structural)]
pub enum LayoutStep {
    Nothing,
    Fullscreen,
    Floating,
}

/// The layout for a file that was opened.  None is applied right before full screen
/// is entered, which brings its own.
pub fn layout_after_change(image_changed: bool, fullscreen: bool, toggle_requested: bool) -> (step:
    LayoutStep)
    ensures
        step == (if !image_changed || (!fullscreen && toggle_requested) {
            LayoutStep::Nothing
        } else if fullscreen {
            LayoutStep::Fullscreen
        } else {
            LayoutStep::Floating
        }),
{
    if !image_changed || (!fullscreen && toggle_requested) {
        LayoutStep::Nothing
    } else if fullscreen {
        LayoutStep::Fullscreen
    } else {
        LayoutStep::Floating
    }
}

/// The layout that waits for the size of a video.  Says also whether it still
/// waits.
pub fn layout_when_sized(pending: bool, dimensions_known: bool, fullscreen: bool) -> (step: (
    LayoutStep,
    bool,
))
    ensures
        step == (if !pending {
            (LayoutStep::Nothing, false)
        } else if !dimensions_known {
            (LayoutStep::Nothing, true)
        } else if fullscreen {
            (LayoutStep::Fullscreen, false)
        } else {
            (LayoutStep::Floating, false)
        }),
{
    if !pending {
        (LayoutStep::Nothing, false)
    } else if !dimensions_known {
        (LayoutStep::Nothing, true)
    } else if fullscreen {
        (LayoutStep::Fullscreen, false)
    } else {
        (LayoutStep::Floating, false)
    }
}

/// A resize of the window that waits for some frames.
#[derive(Clone, Copy, Debug, PartialEq, Eq, Structural)]
pub enum PendingResize {
    Nothing,
    /// Resize now.
    Apply,
    /// Wait for so many frames more.
    Wait(u32),
}

/// One frame of waiting for a resize.
pub fn tick_pending_resize(frames_remaining: Option<u32>) -> (pending: PendingResize)
    ensures
        pending == (match frames_remaining {
            None => PendingResize::Nothing,
            Some(frames) => if frames <= 1 {
                PendingResize::Apply
            } else {
                PendingResize::Wait((frames - 1) as u32)
            },
        }),
{
    match frames_remaining {
        None => PendingResize::Nothing,
        Some(frames) => {
            if frames <= 1 {
                PendingResize::Apply
            } else {
                PendingResize::Wait(frames - 1)
            }
        },
    }
}

/// The size of what is open: that of the image, or of the video once it is known.
pub fn media_display_dimensions(image: Option<(u32, u32)>, video: Option<(u32, u32)>) -> (dimensions:
    Option<(u32, u32)>)
    ensures
        dimensions == (match image {
            Some(size) => Some(size),
            None => match video {
                Some((w, h)) => if w > 0 && h > 0 {
                    Some((w, h))
                } else {
                    None
                },
                None => None,
            },
        }),
{
    match image {
        Some(size) => Some(size),
        None => match video {
            Some((w, h)) => {
                if w > 0 && h > 0 {
                    Some((w, h))
                } else {
                    None
                }
            },
            None => None,
        },
    }
}

/// What of a file is drawn.
#[derive(Clone, Copy, Debug, PartialEq, Eq, Structural)]
pub enum SoloPicture {
    /// The frame of a video, or the last one of the video before, at this size.
    Video(u32, u32),
    Image(u32, u32),
    Error,
    /// How to open a file.
    Hint,
    Nothing,
}

/// What is at hand of a file.
#[derive(Clone, Copy, Debug)]
pub struct SoloFacts {
    pub has_video_texture: bool,
    pub video_loaded: bool,
    pub video_size: (u32, u32),
    pub video_texture_size: Option<(u32, u32)>,
    pub has_image_texture: bool,
    pub image_size: Option<(u32, u32)>,
    pub image_texture_size: Option<(u32, u32)>,
    pub has_error: bool,
}

/// What is drawn where there is no picture.
pub open spec fn without_picture(facts: SoloFacts) -> SoloPicture {
    if facts.has_error {
        SoloPicture::Error
    } else if facts.image_size is None && !facts.video_loaded {
        SoloPicture::Hint
    } else {
        SoloPicture::Nothing
    }
}

/// What is drawn of a file.
pub open spec fn solo_picture(facts: SoloFacts) -> SoloPicture {
    if facts.has_video_texture {
        if facts.video_loaded && facts.video_size.0 > 0 && facts.video_size.1 > 0 {
            SoloPicture::Video(facts.video_size.0, facts.video_size.1)
        } else {
            match facts.video_texture_size {
                Some((w, h)) => SoloPicture::Video(w, h),
                None => without_picture(facts),
            }
        }
    } else if facts.has_image_texture {
        match facts.image_size {
            Some((w, h)) => SoloPicture::Image(w, h),
            None => match facts.image_texture_size {
                Some((w, h)) => SoloPicture::Image(w, h),
                None => without_picture(facts),
            },
        }
    } else {
        without_picture(facts)
    }
}

/// Decides what is drawn of a file.
pub fn draw_image(facts: &SoloFacts) -> (picture: SoloPicture)
    ensures
        picture == solo_picture(*facts),
{
    if facts.has_video_texture {
        if facts.video_loaded && facts.video_size.0 > 0 && facts.video_size.1 > 0 {
            return SoloPicture::Video(facts.video_size.0, facts.video_size.1);
        }
        if let Some((w, h)) = facts.video_texture_size {
            return SoloPicture::Video(w, h);
        }
    } else if facts.has_image_texture {
        if let Some((w, h)) = facts.image_size {
            return SoloPicture::Image(w, h);
        }
        if let Some((w, h)) = facts.image_texture_size {
            return SoloPicture::Image(w, h);
        }
    }
    if facts.has_error {
        SoloPicture::Error
    } else if facts.image_size.is_none() && !facts.video_loaded {
        SoloPicture::Hint
    } else {
        SoloPicture::Nothing
    }
}

/// Each toggle changes the mode.  Entering notes the file that is open and remembers the
/// window; leaving forgets both.
pub proof fn law_toggling_notes_the_file(
    mode: &mut WindowMode,
    index: usize,
    dimensions: Option<(u32, u32)>,
    media_type: Option<MediaType>,
    step: FullscreenStep,
)
    requires
        call_ensures(WindowMode::toggle_fullscreen, (mode, index, dimensions, media_type), step),
    ensures
        final(mode).fullscreen != old(mode).fullscreen,
        final(mode).fullscreen ==> final(mode).entry_index == Some(index) && final(
            mode).has_saved_window,
        !final(mode).fullscreen ==> final(mode).entry_index is None && !final(mode).has_saved_window,
        step is Enter <==> !old(mode).fullscreen,
        step is Restore ==> old(mode).has_saved_window && (old(mode).entry_index is None || old(
            mode).entry_index == Some(index)),
        old(mode).fullscreen && old(mode).entry_index == Some(index) && old(mode).has_saved_window
            ==> step is Restore,
        old(mode).fullscreen && old(mode).entry_index == Some(index) && !old(mode).has_saved_window
            ==> step is FullSize,
        step is FullSize ==> !old(mode).has_saved_window,
{
}

/// A window for another file than before has its size if that is known; the size of a
/// video becomes known later, that of an image does not.
pub proof fn law_other_files_get_their_size(
    mode: &mut WindowMode,
    index: usize,
    dimensions: Option<(u32, u32)>,
    media_type: Option<MediaType>,
    step: FullscreenStep,
)
    requires
        call_ensures(WindowMode::toggle_fullscreen, (mode, index, dimensions, media_type), step),
        old(mode).fullscreen,
        old(mode).entry_index is Some,
        old(mode).entry_index != Some(index),
    ensures
        step is NewSize <==> (dimensions matches Some((w, h)) && w > 0 && h > 0),
        step == (FullscreenStep::Unsized { retry: true }) <==> dimensions is None && media_type == Some(
            MediaType::Video,
        ),
        step is NewSize || step is Unsized,
{
}

/// A request is met once; without one nothing changes.  Leaving ends the strip and
/// forgets the views, entering keeps both.
pub proof fn law_requests_are_met_once(
    session: &mut FullscreenSession,
    views: &mut ViewMemory,
    index: usize,
    dimensions: Option<(u32, u32)>,
    media_type: Option<MediaType>,
    step: Option<FullscreenStep>,
)
    requires
        call_ensures(
            FullscreenSession::apply_toggle_request,
            (session, views, index, dimensions, media_type),
            step,
        ),
    ensures
        step is Some <==> old(session).toggle_requested,
        !final(session).toggle_requested,
        !old(session).toggle_requested ==> *final(session) == *old(session) && final(views)@ == old(
            views)@,
        old(session).toggle_requested ==> final(session).mode.fullscreen != old(
            session).mode.fullscreen,
        old(session).toggle_requested && old(session).mode.fullscreen ==> !final(session).strip_open
            && final(views)@.dom() == Set::<Seq<char>>::empty(),
        old(session).toggle_requested && !old(session).mode.fullscreen ==> final(session).strip_open
            == old(session).strip_open && final(views)@ == old(views)@,
{
}

/// A new file is laid out for the mode that the viewer is in, unless full screen is about
/// to be entered.
pub proof fn law_new_files_are_laid_out(
    changed: bool,
    fullscreen: bool,
    toggle_requested: bool,
    step: LayoutStep,
)
    requires
        call_ensures(layout_after_change, (changed, fullscreen, toggle_requested), step),
    ensures
        step is Fullscreen <==> changed && fullscreen,
        step is Floating <==> changed && !fullscreen && !toggle_requested,
{
}

/// A layout that waits for a size is applied as soon as that is known, once.
pub proof fn law_waiting_layouts_are_applied(
    pending: bool,
    known: bool,
    fullscreen: bool,
    step: (LayoutStep, bool),
)
    requires
        call_ensures(layout_when_sized, (pending, known, fullscreen), step),
    ensures
        step.1 <==> pending && !known,
        step.0 is Fullscreen <==> pending && known && fullscreen,
        step.0 is Floating <==> pending && known && !fullscreen,
{
}

/// A resize that waits comes one frame nearer, and is applied in the last one.
pub proof fn law_waiting_resizes_come_nearer(frames: Option<u32>, pending: PendingResize)
    requires
        call_ensures(tick_pending_resize, (frames,), pending),
    ensures
        pending is Nothing <==> frames is None,
        pending is Apply <==> (frames matches Some(f) && f <= 1),
        pending matches PendingResize::Wait(left) ==> frames == Some((left + 1) as u32) && left >= 1,
{
}

/// The size of an image counts before that of a video, and that of a video only where it
/// has two sides.
pub proof fn law_image_size_counts_first(
    image: Option<(u32, u32)>,
    video: Option<(u32, u32)>,
    dimensions: Option<(u32, u32)>,
)
    requires
        call_ensures(media_display_dimensions, (image, video), dimensions),
    ensures
        image is Some ==> dimensions == image,
        image is None ==> (video matches Some((w, h)) ==> w > 0 && h > 0 ==> dimensions == video),
        image is None ==> (video matches Some((w, h)) ==> w == 0 || h == 0 ==> dimensions is None),
        image is None && video is None ==> dimensions is None,
{
}

/// A video frame covers an image; what is drawn has the size of the file where that is
/// known and else that of the texture.  An error or a hint is drawn only where there is
/// no picture.
pub proof fn law_what_is_open_is_drawn(facts: &SoloFacts, picture: SoloPicture)
    requires
        call_ensures(draw_image, (facts,), picture),
    ensures
        picture is Video ==> facts.has_video_texture,
        picture is Image ==> facts.has_image_texture && !facts.has_video_texture,
        picture matches SoloPicture::Video(w, h) ==> (w, h) == facts.video_size || Some((w, h))
            == facts.video_texture_size,
        facts.has_video_texture && facts.video_loaded && facts.video_size.0 > 0
            && facts.video_size.1 > 0 ==> picture == SoloPicture::Video(
            facts.video_size.0,
            facts.video_size.1,
        ),
        facts.has_video_texture && !facts.video_loaded ==> (facts.video_texture_size matches Some(
            (w, h),
        ) ==> picture == SoloPicture::Video(w, h)),
        !facts.has_video_texture && facts.has_image_texture ==> (facts.image_size matches Some(
            (w, h),
        ) ==> picture == SoloPicture::Image(w, h)),
        !facts.has_video_texture && facts.has_image_texture && facts.image_size is None ==> (
        facts.image_texture_size matches Some((w, h)) ==> picture == SoloPicture::Image(w, h)),
        !facts.has_video_texture && !facts.has_image_texture && facts.has_error ==> picture is Error,
        picture is Hint ==> !facts.has_error && facts.image_size is None && !facts.video_loaded,
        !facts.has_video_texture && !facts.has_image_texture && !facts.has_error ==> (picture is Hint
            <==> facts.image_size is None && !facts.video_loaded),
{
}

} // verus!
