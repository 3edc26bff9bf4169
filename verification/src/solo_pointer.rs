//! The mouse over a file that is open by itself: moving the picture or the window,
//! resizing, zooming and automatic scrolling.

use crate::coordinate::Coordinate;
use crate::texture_plan::ZOOM_100;
use crate::window_resize::ResizeDirection;
use crate::zoom_hold::ZoomDirection;
use vstd::prelude::*;

verus! {

/// What the mouse is in the middle of.
#[derive(Clone, Copy, Debug, PartialEq, Eq, Structural)]
pub struct SoloPointer {
    /// The picture moves by itself, away from where that was started.
    pub autoscroll: bool,
    /// The edge that the window is being resized by.
    pub resizing: ResizeDirection,
    pub panning: bool,
    /// Whether the pointer was in the title bar in the frame before, while a button
    /// was held.
    pub last_in_title: Option<bool>,
}

/// The mouse in one frame.
#[derive(Clone, Copy, Debug)]
pub struct SoloPointerFrame {
    /// Whether the pointer is in the title bar; none if it is nowhere.
    pub in_title: Option<bool>,
    pub primary_clicked: bool,
    pub primary_pressed: bool,
    pub primary_down: bool,
    pub primary_released: bool,
    pub middle_pressed: bool,
    pub secondary_clicked: bool,
    /// Text or buttons of the title bar are being used.
    pub title_blocking: bool,
    /// The pointer is over something that has clicks of its own.
    pub shortcut_blocking: bool,
    pub over_video_controls: bool,
    /// The edge of the window under the pointer.
    pub edge: ResizeDirection,
    /// Something that is being dragged, or text that is being selected.
    pub drag_blocked: bool,
    pub fullscreen: bool,
    /// The picture is larger than the window.
    pub picture_exceeds_window: bool,
}

/// What is done with the window's size.
#[derive(Clone, Copy, Debug, PartialEq, Eq, Structural)]
pub enum ResizeStep {
    Nothing,
    Continue(ResizeDirection),
    Finish,
}

/// What is dragged.
#[derive(Clone, Copy, Debug, PartialEq, Eq, Structural)]
pub enum DragStep {
    Nothing,
    /// Dragging has begun.
    Grab,
    MovePicture,
    MoveWindow,
}

/// What the mouse calls for in one frame.
#[derive(Clone, Copy, Debug, PartialEq, Eq, Structural)]
pub struct SoloPointerOutcome {
    pub autoscroll_started: bool,
    pub resize_started: bool,
    pub resize: ResizeStep,
    pub drag: DragStep,
    /// The picture moves by itself.
    pub autoscroll_moves: bool,
    /// Something changed that calls for another frame.
    pub active: bool,
}

/// The middle button counts.
pub open spec fn middle_counts(frame: SoloPointerFrame) -> bool {
    frame.middle_pressed && !frame.title_blocking && !frame.shortcut_blocking
        && !frame.over_video_controls && frame.edge == ResizeDirection::Nowhere
}

pub open spec fn starts_autoscroll(state: SoloPointer, frame: SoloPointerFrame) -> bool {
    middle_counts(frame) && !state.autoscroll && frame.in_title is Some
}

/// Automatic movement after the middle button.
pub open spec fn after_middle(state: SoloPointer, frame: SoloPointerFrame) -> bool {
    if middle_counts(frame) {
        starts_autoscroll(state, frame)
    } else {
        state.autoscroll
    }
}

/// Automatic movement after the clicks, which stop it.
pub open spec fn after_clicks(state: SoloPointer, frame: SoloPointerFrame) -> bool {
    after_middle(state, frame) && !frame.primary_clicked && !frame.secondary_clicked
}

/// The picture or the window was being dragged before, and may still be.
pub open spec fn was_panning(state: SoloPointer, frame: SoloPointerFrame) -> bool {
    state.panning && !starts_autoscroll(state, frame)
}

pub open spec fn starts_resize(state: SoloPointer, frame: SoloPointerFrame) -> bool {
    frame.primary_pressed && frame.edge != ResizeDirection::Nowhere && state.resizing
        == ResizeDirection::Nowhere && !was_panning(state, frame)
}

/// The edge that the window is resized by, once that may have begun.
pub open spec fn resize_edge(state: SoloPointer, frame: SoloPointerFrame) -> ResizeDirection {
    if starts_resize(state, frame) {
        frame.edge
    } else {
        state.resizing
    }
}

/// The button drags the picture or the window.
pub open spec fn may_drag(state: SoloPointer, frame: SoloPointerFrame) -> bool {
    &&& frame.primary_down
    &&& frame.edge == ResizeDirection::Nowhere
    &&& !frame.over_video_controls
    &&& !frame.drag_blocked
    &&& !frame.shortcut_blocking
    &&& !after_clicks(state, frame)
    &&& !(after_middle(state, frame) && frame.primary_clicked)
}

/// Where the pointer was in the frame before, as far as it counts.
pub open spec fn last_place(state: SoloPointer, frame: SoloPointerFrame) -> Option<bool> {
    if starts_resize(state, frame) {
        frame.in_title
    } else if starts_autoscroll(state, frame) {
        None
    } else {
        state.last_in_title
    }
}

/// What is dragged in a frame.
pub open spec fn drag_step(state: SoloPointer, frame: SoloPointerFrame) -> DragStep {
    if resize_edge(state, frame) != ResizeDirection::Nowhere || !may_drag(state, frame)
        || frame.in_title is None {
        DragStep::Nothing
    } else if last_place(state, frame) is None || !was_panning(state, frame) {
        DragStep::Grab
    } else if frame.fullscreen {
        DragStep::MovePicture
    } else if last_place(state, frame) == Some(true) {
        DragStep::MoveWindow
    } else if frame.picture_exceeds_window {
        DragStep::MovePicture
    } else {
        DragStep::MoveWindow
    }
}

/// What is done with the window's size in a frame.
pub open spec fn resize_step(state: SoloPointer, frame: SoloPointerFrame) -> ResizeStep {
    let edge = resize_edge(state, frame);
    if edge == ResizeDirection::Nowhere {
        ResizeStep::Nothing
    } else if frame.primary_down {
        ResizeStep::Continue(edge)
    } else if frame.primary_released {
        ResizeStep::Finish
    } else {
        ResizeStep::Nothing
    }
}

/// What the mouse is in the middle of after a frame.
pub open spec fn solo_after(state: SoloPointer, frame: SoloPointerFrame) -> SoloPointer {
    let edge = resize_edge(state, frame);
    SoloPointer {
        autoscroll: after_clicks(state, frame) && frame.in_title is Some,
        resizing: if resize_step(state, frame) == ResizeStep::Finish {
            ResizeDirection::Nowhere
        } else {
            edge
        },
        panning: if edge != ResizeDirection::Nowhere {
            was_panning(state, frame)
        } else if may_drag(state, frame) {
            frame.in_title is Some || was_panning(state, frame)
        } else {
            false
        },
        last_in_title: if resize_step(state, frame) == ResizeStep::Finish {
            None
        } else if edge != ResizeDirection::Nowhere {
            last_place(state, frame)
        } else if may_drag(state, frame) {
            if frame.in_title is Some {
                frame.in_title
            } else {
                last_place(state, frame)
            }
        } else {
            None
        },
    }
}

/// What the mouse calls for in a frame.
pub open spec fn solo_outcome(state: SoloPointer, frame: SoloPointerFrame) -> SoloPointerOutcome {
    SoloPointerOutcome {
        autoscroll_started: starts_autoscroll(state, frame),
        resize_started: starts_resize(state, frame),
        resize: resize_step(state, frame),
        drag: drag_step(state, frame),
        autoscroll_moves: solo_after(state, frame).autoscroll,
        active: middle_counts(frame) || (after_middle(state, frame) && (frame.primary_clicked
            || frame.secondary_clicked)),
    }
}

impl SoloPointer {
    pub fn new() -> (state: Self)
        ensures
            state == (SoloPointer {
                autoscroll: false,
                resizing: ResizeDirection::Nowhere,
                panning: false,
                last_in_title: None,
            }),
    {
        SoloPointer {
            autoscroll: false,
            resizing: ResizeDirection::Nowhere,
            panning: false,
            last_in_title: None,
        }
    }

    /// Takes in what the mouse does in one frame.
    pub fn frame(&mut self, frame: &SoloPointerFrame) -> (outcome: SoloPointerOutcome)
        ensures
            *final(self) == solo_after(*old(self), *frame),
            outcome == solo_outcome(*old(self), *frame),
    {
        let mut outcome = SoloPointerOutcome {
            autoscroll_started: false,
            resize_started: false,
            resize: ResizeStep::Nothing,
            drag: DragStep::Nothing,
            autoscroll_moves: false,
            active: false,
        };
        let mut consumed = false;
        if frame.middle_pressed && !frame.title_blocking && !frame.shortcut_blocking
            && !frame.over_video_controls && frame.edge == ResizeDirection::Nowhere {
            if self.autoscroll {
                self.autoscroll = false;
            } else if frame.in_title.is_some() {
                self.autoscroll = true;
                self.panning = false;
                self.last_in_title = None;
                outcome.autoscroll_started = true;
            }
            outcome.active = true;
        }
        if self.autoscroll && frame.primary_clicked {
            self.autoscroll = false;
            consumed = true;
            outcome.active = true;
        }
        if self.autoscroll && frame.secondary_clicked {
            self.autoscroll = false;
            outcome.active = true;
        }
        if frame.primary_pressed && frame.edge != ResizeDirection::Nowhere && self.resizing
            == ResizeDirection::Nowhere && !self.panning {
            self.resizing = frame.edge;
            self.last_in_title = frame.in_title;
            outcome.resize_started = true;
        }
        if self.resizing != ResizeDirection::Nowhere {
            if frame.primary_down {
                outcome.resize = ResizeStep::Continue(self.resizing);
            } else if frame.primary_released {
                self.resizing = ResizeDirection::Nowhere;
                self.last_in_title = None;
                outcome.resize = ResizeStep::Finish;
            }
        } else {
            let allowed = frame.primary_down && frame.edge == ResizeDirection::Nowhere
                && !frame.over_video_controls && !frame.drag_blocked && !frame.shortcut_blocking
                && !self.autoscroll && !consumed;
            if allowed {
                if let Some(in_title) = frame.in_title {
                    outcome.drag = match self.last_in_title {
                        None => DragStep::Grab,
                        Some(from_title) => {
                            if !self.panning {
                                DragStep::Grab
                            } else if frame.fullscreen {
                                DragStep::MovePicture
                            } else if from_title {
                                DragStep::MoveWindow
                            } else if frame.picture_exceeds_window {
                                DragStep::MovePicture
                            } else {
                                DragStep::MoveWindow
                            }
                        },
                    };
                    self.panning = true;
                    self.last_in_title = Some(in_title);
                }
            } else {
                self.panning = false;
                self.last_in_title = None;
            }
        }
        if self.autoscroll && frame.in_title.is_none() {
            self.autoscroll = false;
        }
        outcome.autoscroll_moves = self.autoscroll;
        outcome
    }
}

/// The window is not dragged while it is resized.
pub proof fn law_resizing_excludes_dragging(state: SoloPointer, frame: SoloPointerFrame)
    ensures
        solo_outcome(state, frame).resize is Continue ==> solo_outcome(state, frame).drag
            == DragStep::Nothing,
{
}

/// The window is never resized and dragged at the same time.
pub proof fn law_gestures_exclude_each_other(state: SoloPointer, frame: SoloPointerFrame)
    requires
        !(state.panning && state.resizing != ResizeDirection::Nowhere),
    ensures
        !(solo_after(state, frame).panning && solo_after(state, frame).resizing
            != ResizeDirection::Nowhere),
{
}

/// Letting go of the mouse button ends resizing and dragging.
pub proof fn law_release_ends_gestures(state: SoloPointer, frame: SoloPointerFrame)
    requires
        frame.primary_released,
        !frame.primary_down,
        !(state.panning && state.resizing != ResizeDirection::Nowhere),
    ensures
        solo_after(state, frame).resizing == ResizeDirection::Nowhere,
        !solo_after(state, frame).panning,
{
}

/// In full screen dragging moves the picture, never the window.
pub proof fn law_fullscreen_window_stays(state: SoloPointer, frame: SoloPointerFrame)
    requires
        frame.fullscreen,
    ensures
        solo_outcome(state, frame).drag != DragStep::MoveWindow,
{
}

/// In which direction the wheel zooms.  Ctrl and the wheel count first; without
/// them the wheel alone.
pub fn solo_wheel_zoom(
    has_position: bool,
    title_blocking: bool,
    ctrl_held: bool,
    zoom_delta: Coordinate,
    ctrl_steps: Coordinate,
    scroll_delta: Coordinate,
) -> (zoom: Option<ZoomDirection>)
    ensures
        zoom == (if !has_position || title_blocking {
            None
        } else if ctrl_held && (zoom_delta != ZOOM_100 || ctrl_steps != 0) {
            if ctrl_steps > 0 || (ctrl_steps == 0 && zoom_delta > ZOOM_100) {
                Some(ZoomDirection::In)
            } else {
                Some(ZoomDirection::Out)
            }
        } else if scroll_delta > 0 {
            Some(ZoomDirection::In)
        } else if scroll_delta < 0 {
            Some(ZoomDirection::Out)
        } else {
            None
        }),
{
    if !has_position || title_blocking {
        return None;
    }
    if ctrl_held && (zoom_delta != ZOOM_100 || ctrl_steps != 0) {
        if ctrl_steps > 0 || (ctrl_steps == 0 && zoom_delta > ZOOM_100) {
            return Some(ZoomDirection::In);
        }
        return Some(ZoomDirection::Out);
    }
    if scroll_delta > 0 {
        Some(ZoomDirection::In)
    } else if scroll_delta < 0 {
        Some(ZoomDirection::Out)
    } else {
        None
    }
}

/// Whether a picture that fits the window drifts back to its middle.
pub fn picture_settles(
    fullscreen: bool,
    panning: bool,
    resizing: bool,
    seeking: bool,
    autoscroll: bool,
    picture_exceeds_window: bool,
    off_middle: bool,
) -> (settles: bool)
    ensures
        settles == (!fullscreen && !panning && !resizing && !seeking && !autoscroll
            && !picture_exceeds_window && off_middle),
{
    !fullscreen && !panning && !resizing && !seeking && !autoscroll && !picture_exceeds_window
        && off_middle
}

/// Resizing begins with a press on an edge and goes on by that edge until the button is
/// let go.
pub proof fn law_resizing_keeps_its_edge(
    state: &mut SoloPointer,
    frame: &SoloPointerFrame,
    outcome: SoloPointerOutcome,
)
    requires
        call_ensures(SoloPointer::frame, (state, frame), outcome),
    ensures
        outcome.resize_started ==> frame.primary_pressed && frame.edge != ResizeDirection::Nowhere
            && old(state).resizing == ResizeDirection::Nowhere,
        frame.primary_pressed && frame.edge != ResizeDirection::Nowhere && old(state).resizing
            == ResizeDirection::Nowhere && !old(state).panning ==> outcome.resize_started,
        old(state).resizing != ResizeDirection::Nowhere && frame.primary_down ==> outcome.resize
            == ResizeStep::Continue(old(state).resizing) && final(state).resizing == old(
            state).resizing,
        old(state).resizing != ResizeDirection::Nowhere && !frame.primary_down
            && frame.primary_released ==> outcome.resize is Finish && final(state).resizing
            == ResizeDirection::Nowhere,
        outcome.resize_started && frame.primary_down ==> outcome.resize == ResizeStep::Continue(
            frame.edge,
        ),
        old(state).resizing == ResizeDirection::Nowhere && !outcome.resize_started ==> outcome.resize
            is Nothing && final(state).resizing == ResizeDirection::Nowhere,
{
}

/// A drag is first grabbed and then moves something.  In full screen that is the picture;
/// otherwise it is the window, unless the picture is larger than it and was not grabbed
/// at the title bar.
pub proof fn law_drags_move_what_was_grabbed(
    state: &mut SoloPointer,
    frame: &SoloPointerFrame,
    outcome: SoloPointerOutcome,
)
    requires
        call_ensures(SoloPointer::frame, (state, frame), outcome),
    ensures
        outcome.drag != DragStep::Nothing ==> frame.primary_down && frame.edge
            == ResizeDirection::Nowhere && !frame.over_video_controls && !frame.drag_blocked
            && !frame.shortcut_blocking && final(state).panning,
        outcome.drag == DragStep::MovePicture || outcome.drag == DragStep::MoveWindow ==> old(
            state).panning && old(state).last_in_title is Some,
        outcome.drag == DragStep::MovePicture ==> frame.fullscreen || frame.picture_exceeds_window,
        outcome.drag == DragStep::MoveWindow ==> !frame.fullscreen && (old(state).last_in_title
            == Some(true) || !frame.picture_exceeds_window),
        outcome.drag == DragStep::MovePicture && !frame.fullscreen ==> old(state).last_in_title
            == Some(false),
        !old(state).panning && frame.primary_down && old(state).resizing == ResizeDirection::Nowhere
            && frame.edge == ResizeDirection::Nowhere && !frame.over_video_controls
            && !frame.drag_blocked && !frame.shortcut_blocking && !old(state).autoscroll
            && !frame.middle_pressed && frame.in_title is Some ==> outcome.drag == DragStep::Grab
            && final(state).last_in_title == frame.in_title,
        old(state).panning && old(state).last_in_title is Some && frame.primary_down && old(
            state).resizing == ResizeDirection::Nowhere && frame.edge == ResizeDirection::Nowhere
            && !frame.over_video_controls && !frame.drag_blocked && !frame.shortcut_blocking && !old(
            state).autoscroll && !frame.middle_pressed && frame.in_title is Some ==> outcome.drag
            == DragStep::MovePicture || outcome.drag == DragStep::MoveWindow,
        !frame.primary_down && old(state).resizing == ResizeDirection::Nowhere
            && !outcome.resize_started ==> !final(state).panning,
{
}

/// The picture moves by itself from a press of the middle button over nothing else until
/// the next click.
pub proof fn law_autoscroll_ends_with_a_click(
    state: &mut SoloPointer,
    frame: &SoloPointerFrame,
    outcome: SoloPointerOutcome,
)
    requires
        call_ensures(SoloPointer::frame, (state, frame), outcome),
    ensures
        outcome.autoscroll_started <==> frame.middle_pressed && !frame.title_blocking
            && !frame.shortcut_blocking && !frame.over_video_controls && frame.edge
            == ResizeDirection::Nowhere && !old(state).autoscroll && frame.in_title is Some,
        final(state).autoscroll ==> old(state).autoscroll || outcome.autoscroll_started,
        final(state).autoscroll ==> !frame.primary_clicked && !frame.secondary_clicked
            && frame.in_title is Some,
        outcome.autoscroll_moves == final(state).autoscroll,
        outcome.autoscroll_started && !frame.primary_clicked && !frame.secondary_clicked ==> final(
            state).autoscroll,
        old(state).autoscroll && !frame.middle_pressed && !frame.primary_clicked
            && !frame.secondary_clicked && frame.in_title is Some ==> final(state).autoscroll,
        old(state).autoscroll && frame.middle_pressed && !frame.title_blocking
            && !frame.shortcut_blocking && !frame.over_video_controls && frame.edge
            == ResizeDirection::Nowhere ==> !final(state).autoscroll && outcome.active,
        old(state).autoscroll && (frame.primary_clicked || frame.secondary_clicked)
            && !frame.middle_pressed ==> outcome.active,
        outcome.active ==> frame.middle_pressed || frame.primary_clicked || frame.secondary_clicked,
{
}

/// The wheel zooms in when it turns up and out when it turns down; with Ctrl the gesture
/// counts where the wheel stands still.
pub proof fn law_wheel_zooms_its_way(
    has_position: bool,
    blocking: bool,
    ctrl: bool,
    zoom_delta: Coordinate,
    ctrl_steps: Coordinate,
    scroll: Coordinate,
    zoom: Option<ZoomDirection>,
)
    requires
        call_ensures(
            solo_wheel_zoom,
            (has_position, blocking, ctrl, zoom_delta, ctrl_steps, scroll),
            zoom,
        ),
    ensures
        !has_position || blocking ==> zoom is None,
        has_position && !blocking && !ctrl && scroll > 0 ==> zoom == Some(ZoomDirection::In),
        has_position && !blocking && !ctrl && scroll < 0 ==> zoom == Some(ZoomDirection::Out),
        !ctrl && scroll == 0 ==> zoom is None,
        has_position && !blocking && ctrl && ctrl_steps > 0 ==> zoom == Some(ZoomDirection::In),
        has_position && !blocking && ctrl && ctrl_steps < 0 ==> zoom == Some(ZoomDirection::Out),
        has_position && !blocking && ctrl && ctrl_steps == 0 && zoom_delta > ZOOM_100 ==> zoom
            == Some(ZoomDirection::In),
        has_position && !blocking && ctrl && ctrl_steps == 0 && zoom_delta < ZOOM_100 ==> zoom
            == Some(ZoomDirection::Out),
        has_position && !blocking && ctrl && ctrl_steps == 0 && zoom_delta == ZOOM_100 && scroll > 0
            ==> zoom == Some(ZoomDirection::In),
{
}

/// A picture drifts back only when nothing else moves it and it fits the window.
pub proof fn law_pictures_settle_when_left_alone(
    fullscreen: bool,
    panning: bool,
    resizing: bool,
    seeking: bool,
    autoscroll: bool,
    exceeds: bool,
    off_middle: bool,
    settles: bool,
)
    requires
        call_ensures(
            picture_settles,
            (fullscreen, panning, resizing, seeking, autoscroll, exceeds, off_middle),
            settles,
        ),
    ensures
        fullscreen || panning || resizing || seeking || autoscroll || exceeds ==> !settles,
        !fullscreen && !panning && !resizing && !seeking && !autoscroll && !exceeds ==> settles
            == off_middle,
{
}

} // verus!
