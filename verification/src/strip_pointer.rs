//! The mouse in a strip: dragging, the scrollbar and automatic scrolling.

use crate::coordinate::Coordinate;
use crate::texture_plan::ZOOM_100;
use crate::zoom_hold::ZoomDirection;
use vstd::prelude::*;

verus! {

/// What the mouse is in the middle of.
#[derive(Clone, Copy, Debug, PartialEq, Eq, Structural)]
pub struct StripPointer {
    /// The strip scrolls by itself, away from where that was started.
    pub autoscroll: bool,
    pub dragging_scrollbar: bool,
    pub panning: bool,
}

/// The mouse in one frame.
#[derive(Clone, Copy, Debug)]
pub struct StripPointerFrame {
    pub has_position: bool,
    pub primary_clicked: bool,
    pub primary_pressed: bool,
    pub primary_down: bool,
    pub primary_released: bool,
    pub primary_double_clicked: bool,
    pub middle_pressed: bool,
    pub secondary_clicked: bool,
    /// The pointer is over the controls at the bottom.
    pub over_controls: bool,
    /// The title bar is being used.
    pub title_blocking: bool,
    /// The pointer is over something that has clicks of its own.
    pub shortcut_blocking: bool,
    /// A right click opens the page under the pointer.
    pub open_uses_right_click: bool,
    /// The strip is longer than the screen.
    pub needs_scrollbar: bool,
    pub over_scrollbar: bool,
    pub near_scrollbar: bool,
    /// A position or the volume is being dragged.
    pub seeking: bool,
}

/// What the mouse calls for in one frame.
#[derive(Clone, Copy, Debug, PartialEq, Eq, Structural)]
pub struct StripPointerOutcome {
    /// Automatic scrolling starts here.
    pub autoscroll_started: bool,
    /// Pause or go on with what has the focus.
    pub toggle_media: bool,
    pub show_scrollbar: bool,
    /// Scroll to where the pointer is along the scrollbar.
    pub scroll_to_pointer: bool,
    /// The scrollbar is held.
    pub scrollbar_held: bool,
    /// The wheel scrolls and zooms.
    pub wheel_allowed: bool,
    /// Reset zoom, pan and movement.
    pub reset_view: bool,
    pub pan_started: bool,
    /// Move the strip with the pointer.
    pub pan: bool,
    /// Automatic scrolling moves the strip.
    pub autoscroll_moves: bool,
    /// Something changed that calls for another frame.
    pub active: bool,
}

/// Nothing else is under the pointer.
pub open spec fn is_free(frame: StripPointerFrame) -> bool {
    !frame.over_controls && !frame.title_blocking && !frame.shortcut_blocking
}

/// Automatic scrolling after the middle button: it starts or stops it.
pub open spec fn autoscroll_after_middle(state: StripPointer, frame: StripPointerFrame) -> bool {
    if frame.middle_pressed && is_free(frame) {
        !state.autoscroll && frame.has_position
    } else {
        state.autoscroll
    }
}

/// Automatic scrolling after the clicks, which stop it.
pub open spec fn autoscroll_after_clicks(state: StripPointer, frame: StripPointerFrame) -> bool {
    autoscroll_after_middle(state, frame) && !frame.primary_clicked && !frame.secondary_clicked
}

/// A left click was used up by stopping automatic scrolling.
pub open spec fn primary_used(state: StripPointer, frame: StripPointerFrame) -> bool {
    autoscroll_after_middle(state, frame) && frame.primary_clicked
}

/// A right click was used up by stopping automatic scrolling.
pub open spec fn secondary_used(state: StripPointer, frame: StripPointerFrame) -> bool {
    autoscroll_after_middle(state, frame) && !frame.primary_clicked && frame.secondary_clicked
}

pub open spec fn autoscroll_starts(state: StripPointer, frame: StripPointerFrame) -> bool {
    frame.middle_pressed && is_free(frame) && !state.autoscroll && frame.has_position
}

pub open spec fn shows_scrollbar(state: StripPointer, frame: StripPointerFrame) -> bool {
    frame.needs_scrollbar && (state.dragging_scrollbar || frame.over_scrollbar
        || frame.near_scrollbar)
}

/// Whether the scrollbar is being dragged after the frame.
pub open spec fn drags_scrollbar(state: StripPointer, frame: StripPointerFrame) -> bool {
    !frame.primary_released && (state.dragging_scrollbar || (shows_scrollbar(state, frame)
        && frame.over_scrollbar && frame.primary_pressed && !frame.title_blocking))
}

pub open spec fn holds_scrollbar(state: StripPointer, frame: StripPointerFrame) -> bool {
    shows_scrollbar(state, frame) && !frame.title_blocking && (drags_scrollbar(state, frame) || (
    frame.over_scrollbar && frame.primary_down))
}

/// A double click resets the view.
pub open spec fn resets_view(frame: StripPointerFrame) -> bool {
    frame.primary_double_clicked && !frame.over_scrollbar && !frame.title_blocking
        && !frame.shortcut_blocking
}

/// The strip may be dragged.
pub open spec fn may_pan(state: StripPointer, frame: StripPointerFrame) -> bool {
    &&& is_free(frame)
    &&& !drags_scrollbar(state, frame)
    &&& !frame.over_scrollbar
    &&& !(autoscroll_after_clicks(state, frame) && !resets_view(frame))
    &&& !primary_used(state, frame)
    &&& !frame.seeking
}

/// The strip was being dragged before, and still is.
pub open spec fn still_panning(state: StripPointer, frame: StripPointerFrame) -> bool {
    state.panning && !autoscroll_starts(state, frame) && !resets_view(frame)
}

pub open spec fn starts_pan(state: StripPointer, frame: StripPointerFrame) -> bool {
    may_pan(state, frame) && frame.primary_pressed && !frame.primary_double_clicked
}

/// What the mouse is in the middle of after a frame.
pub open spec fn pointer_after(state: StripPointer, frame: StripPointerFrame) -> StripPointer {
    StripPointer {
        autoscroll: autoscroll_after_clicks(state, frame) && !resets_view(frame)
            && frame.has_position,
        dragging_scrollbar: drags_scrollbar(state, frame),
        panning: !frame.primary_released && (still_panning(state, frame) || starts_pan(state, frame)),
    }
}

/// What the mouse calls for in a frame.
pub open spec fn pointer_outcome(state: StripPointer, frame: StripPointerFrame) -> StripPointerOutcome {
    StripPointerOutcome {
        autoscroll_started: autoscroll_starts(state, frame),
        toggle_media: frame.secondary_clicked && !frame.open_uses_right_click && !secondary_used(
            state,
            frame,
        ) && is_free(frame),
        show_scrollbar: shows_scrollbar(state, frame),
        scroll_to_pointer: holds_scrollbar(state, frame) && frame.has_position,
        scrollbar_held: holds_scrollbar(state, frame),
        wheel_allowed: !frame.over_scrollbar && !frame.title_blocking,
        reset_view: resets_view(frame),
        pan_started: starts_pan(state, frame),
        pan: may_pan(state, frame) && frame.primary_down && (still_panning(state, frame)
            || starts_pan(state, frame)),
        autoscroll_moves: pointer_after(state, frame).autoscroll,
        active: (frame.middle_pressed && is_free(frame)) || primary_used(state, frame)
            || secondary_used(state, frame) || (may_pan(state, frame) && frame.primary_down && (
        still_panning(state, frame) || starts_pan(state, frame))),
    }
}

impl StripPointer {
    pub fn new() -> (state: Self)
        ensures
            state == (StripPointer {
                autoscroll: false,
                dragging_scrollbar: false,
                panning: false,
            }),
    {
        StripPointer { autoscroll: false, dragging_scrollbar: false, panning: false }
    }

    /// Takes in what the mouse does in one frame.
    pub fn frame(&mut self, frame: &StripPointerFrame) -> (outcome: StripPointerOutcome)
        ensures
            *final(self) == pointer_after(*old(self), *frame),
            outcome == pointer_outcome(*old(self), *frame),
    {
        let free = !frame.over_controls && !frame.title_blocking && !frame.shortcut_blocking;
        let mut active = false;
        let mut autoscroll_started = false;
        let mut primary_consumed = false;
        let mut secondary_consumed = false;
        if frame.middle_pressed && free {
            if self.autoscroll {
                self.autoscroll = false;
            } else if frame.has_position {
                self.autoscroll = true;
                self.panning = false;
                autoscroll_started = true;
            }
            active = true;
        }
        if self.autoscroll && frame.primary_clicked {
            self.autoscroll = false;
            primary_consumed = true;
            active = true;
        }
        if self.autoscroll && frame.secondary_clicked {
            self.autoscroll = false;
            secondary_consumed = true;
            active = true;
        }
        let toggle_media = frame.secondary_clicked && !frame.open_uses_right_click
            && !secondary_consumed && free;

        let show_scrollbar = frame.needs_scrollbar && (self.dragging_scrollbar
            || frame.over_scrollbar || frame.near_scrollbar);
        let mut scrollbar_held = false;
        if show_scrollbar {
            if frame.over_scrollbar && frame.primary_pressed && !frame.title_blocking {
                self.dragging_scrollbar = true;
            }
            if frame.primary_released {
                self.dragging_scrollbar = false;
            }
            scrollbar_held = !frame.title_blocking && (self.dragging_scrollbar || (
            frame.over_scrollbar && frame.primary_down));
        } else if frame.primary_released {
            self.dragging_scrollbar = false;
        }

        let reset_view = frame.primary_double_clicked && !frame.over_scrollbar
            && !frame.title_blocking && !frame.shortcut_blocking;
        if reset_view {
            self.panning = false;
            self.autoscroll = false;
        }

        let panning_allowed = free && !self.dragging_scrollbar && !frame.over_scrollbar
            && !self.autoscroll && !primary_consumed && !frame.seeking;
        let mut pan_started = false;
        let mut pan = false;
        if panning_allowed {
            if frame.primary_pressed && !frame.primary_double_clicked {
                self.panning = true;
                pan_started = true;
            }
            if frame.primary_down && self.panning {
                pan = true;
                active = true;
            }
        }
        if frame.primary_released {
            self.panning = false;
        }
        if self.autoscroll && !frame.has_position {
            self.autoscroll = false;
        }
        StripPointerOutcome {
            autoscroll_started,
            toggle_media,
            show_scrollbar,
            scroll_to_pointer: scrollbar_held && frame.has_position,
            scrollbar_held,
            wheel_allowed: !frame.over_scrollbar && !frame.title_blocking,
            reset_view,
            pan_started,
            pan,
            autoscroll_moves: self.autoscroll,
            active,
        }
    }
}

/// Letting go of the mouse button ends every drag.
pub proof fn law_release_ends_drags(state: StripPointer, frame: StripPointerFrame)
    requires
        frame.primary_released,
    ensures
        !pointer_after(state, frame).panning,
        !pointer_after(state, frame).dragging_scrollbar,
{
}

/// The strip never scrolls by itself while it is dragged.
pub proof fn law_autoscroll_excludes_panning(state: StripPointer, frame: StripPointerFrame)
    requires
        !(state.autoscroll && state.panning),
    ensures
        !(pointer_after(state, frame).autoscroll && pointer_after(state, frame).panning),
        !(pointer_outcome(state, frame).pan && pointer_outcome(state, frame).autoscroll_moves),
{
}

/// The middle button is pressed over the strip, and nothing else is clicked.
pub open spec fn presses_middle_only(frame: StripPointerFrame) -> bool {
    &&& frame.middle_pressed
    &&& frame.has_position
    &&& is_free(frame)
    &&& !frame.primary_clicked
    &&& !frame.secondary_clicked
    &&& !frame.primary_double_clicked
}

/// The middle button turns automatic scrolling on or off, so that pressing it
/// twice changes nothing.
pub proof fn law_middle_button_toggles(
    state: StripPointer,
    first: StripPointerFrame,
    second: StripPointerFrame,
)
    requires
        presses_middle_only(first),
        presses_middle_only(second),
    ensures
        pointer_after(state, first).autoscroll == !state.autoscroll,
        pointer_after(pointer_after(state, first), second).autoscroll == state.autoscroll,
{
}

/// What the wheel is meant to do.
#[derive(Clone, Copy, Debug, PartialEq, Eq, Structural)]
pub enum WheelIntent {
    Nothing,
    Zoom(ZoomDirection),
    Scroll,
}

/// What the wheel is meant to do.  Ctrl and the wheel zoom if that is bound; the
/// direction is that of the wheel, or else that of the zoom gesture.
pub fn wheel_intent(
    wheel_allowed: bool,
    ctrl_held: bool,
    ctrl_zoom_bound: bool,
    zoom_delta: Coordinate,
    ctrl_steps: Coordinate,
    steps: Coordinate,
) -> (intent: WheelIntent)
    ensures
        intent == (if !wheel_allowed {
            WheelIntent::Nothing
        } else if ctrl_held && ctrl_zoom_bound && (zoom_delta != ZOOM_100 || ctrl_steps != 0) {
            if (ctrl_steps != 0 && ctrl_steps > 0) || (ctrl_steps == 0 && zoom_delta > ZOOM_100) {
                WheelIntent::Zoom(ZoomDirection::In)
            } else {
                WheelIntent::Zoom(ZoomDirection::Out)
            }
        } else if steps != 0 {
            WheelIntent::Scroll
        } else {
            WheelIntent::Nothing
        }),
{
    if !wheel_allowed {
        return WheelIntent::Nothing;
    }
    if ctrl_held && ctrl_zoom_bound && (zoom_delta != ZOOM_100 || ctrl_steps != 0) {
        let zoom_in = if ctrl_steps != 0 {
            ctrl_steps > 0
        } else {
            zoom_delta > ZOOM_100
        };
        if zoom_in {
            WheelIntent::Zoom(ZoomDirection::In)
        } else {
            WheelIntent::Zoom(ZoomDirection::Out)
        }
    } else if steps != 0 {
        WheelIntent::Scroll
    } else {
        WheelIntent::Nothing
    }
}

/// The wheel still pushes against an end of the strip.
pub fn wheel_pushes_against_end(target: Coordinate, most: Coordinate, pending: Coordinate) -> (pushes:
    bool)
    ensures
        pushes == ((target <= 0 && pending < 0) || (target >= most && pending > 0)),
{
    (target <= 0 && pending < 0) || (target >= most && pending > 0)
}

/// A strip is dragged only while the button is held over nothing else, and a drag begins
/// only with a press.
pub proof fn law_drags_begin_with_a_press(
    state: &mut StripPointer,
    frame: &StripPointerFrame,
    outcome: StripPointerOutcome,
)
    requires
        call_ensures(StripPointer::frame, (state, frame), outcome),
    ensures
        outcome.pan ==> frame.primary_down && !frame.over_scrollbar && !frame.over_controls
            && !frame.title_blocking && !frame.shortcut_blocking && !frame.seeking,
        outcome.pan_started ==> frame.primary_pressed && !frame.primary_double_clicked,
        final(state).panning && !old(state).panning ==> frame.primary_pressed,
        outcome.pan && !old(state).panning ==> outcome.pan_started,
        old(state).panning && !old(state).autoscroll && !old(state).dragging_scrollbar
            && frame.primary_down && !frame.primary_released && !frame.primary_pressed
            && !frame.middle_pressed && !frame.primary_double_clicked && !frame.over_scrollbar
            && !frame.over_controls && !frame.title_blocking && !frame.shortcut_blocking
            && !frame.seeking ==> outcome.pan && final(state).panning,
        !old(state).panning && !old(state).autoscroll && !old(state).dragging_scrollbar
            && frame.primary_pressed && frame.primary_down && !frame.primary_released
            && !frame.middle_pressed && !frame.primary_double_clicked && !frame.over_scrollbar
            && !frame.over_controls && !frame.title_blocking && !frame.shortcut_blocking
            && !frame.seeking ==> outcome.pan_started && outcome.pan && final(state).panning,
{
}

/// The scrollbar appears only where it is needed, and when the pointer is at it or drags
/// it; it is grasped by a press on it, and what holds it scrolls to the pointer.
pub proof fn law_scrollbar_follows_the_pointer(
    state: &mut StripPointer,
    frame: &StripPointerFrame,
    outcome: StripPointerOutcome,
)
    requires
        call_ensures(StripPointer::frame, (state, frame), outcome),
    ensures
        outcome.show_scrollbar <==> frame.needs_scrollbar && (old(state).dragging_scrollbar
            || frame.over_scrollbar || frame.near_scrollbar),
        final(state).dragging_scrollbar && !old(state).dragging_scrollbar ==> frame.over_scrollbar
            && frame.primary_pressed,
        frame.needs_scrollbar && frame.over_scrollbar && frame.primary_pressed
            && !frame.primary_released && !frame.title_blocking ==> final(state).dragging_scrollbar
            && outcome.scrollbar_held,
        outcome.scrollbar_held ==> outcome.show_scrollbar && !frame.title_blocking,
        outcome.scroll_to_pointer <==> outcome.scrollbar_held && frame.has_position,
        frame.primary_released && !frame.over_scrollbar ==> !outcome.scrollbar_held,
        outcome.wheel_allowed <==> !frame.over_scrollbar && !frame.title_blocking,
{
}

/// Automatic scrolling begins with the middle button and a pointer; a click of the left or
/// the right button ends it and is used up thereby.
pub proof fn law_clicks_end_autoscroll(
    state: &mut StripPointer,
    frame: &StripPointerFrame,
    outcome: StripPointerOutcome,
)
    requires
        call_ensures(StripPointer::frame, (state, frame), outcome),
    ensures
        outcome.autoscroll_started ==> frame.middle_pressed && frame.has_position && !old(
            state).autoscroll,
        final(state).autoscroll ==> old(state).autoscroll || outcome.autoscroll_started,
        outcome.autoscroll_moves == final(state).autoscroll,
        final(state).autoscroll ==> frame.has_position && !frame.primary_clicked
            && !frame.secondary_clicked && !outcome.reset_view,
        old(state).autoscroll && !frame.middle_pressed && frame.secondary_clicked
            && !frame.primary_clicked ==> !outcome.toggle_media,
        old(state).autoscroll && !frame.middle_pressed && frame.primary_clicked ==> !outcome.pan,
        old(state).autoscroll && frame.has_position && !frame.middle_pressed
            && !frame.primary_clicked && !frame.secondary_clicked && !frame.primary_double_clicked
            ==> final(state).autoscroll,
{
}

/// A right click over nothing else plays or pauses, unless it is meant to open the page;
/// a double click outside the scrollbar resets the view.
pub proof fn law_clicks_are_heeded(
    state: &mut StripPointer,
    frame: &StripPointerFrame,
    outcome: StripPointerOutcome,
)
    requires
        call_ensures(StripPointer::frame, (state, frame), outcome),
    ensures
        outcome.toggle_media ==> frame.secondary_clicked && !frame.open_uses_right_click
            && !frame.over_controls && !frame.title_blocking && !frame.shortcut_blocking,
        frame.secondary_clicked && !frame.open_uses_right_click && !frame.over_controls
            && !frame.title_blocking && !frame.shortcut_blocking && !old(state).autoscroll
            && !frame.middle_pressed ==> outcome.toggle_media,
        outcome.reset_view <==> frame.primary_double_clicked && !frame.over_scrollbar
            && !frame.title_blocking && !frame.shortcut_blocking,
        outcome.pan || outcome.autoscroll_started ==> outcome.active,
        outcome.active ==> frame.middle_pressed || frame.primary_clicked || frame.secondary_clicked
            || outcome.pan,
{
}

/// With Ctrl the wheel zooms where that is bound, in the direction in which it turns, or
/// in that of the gesture; otherwise it scrolls.
pub proof fn law_wheel_zooms_with_ctrl(
    allowed: bool,
    ctrl_held: bool,
    bound: bool,
    zoom_delta: Coordinate,
    ctrl_steps: Coordinate,
    steps: Coordinate,
    intent: WheelIntent,
)
    requires
        call_ensures(
            wheel_intent,
            (allowed, ctrl_held, bound, zoom_delta, ctrl_steps, steps),
            intent,
        ),
    ensures
        !allowed ==> intent is Nothing,
        intent is Zoom ==> ctrl_held && bound,
        allowed && ctrl_held && bound && ctrl_steps > 0 ==> intent == WheelIntent::Zoom(
            ZoomDirection::In,
        ),
        allowed && ctrl_held && bound && ctrl_steps < 0 ==> intent == WheelIntent::Zoom(
            ZoomDirection::Out,
        ),
        allowed && ctrl_held && bound && ctrl_steps == 0 && zoom_delta > ZOOM_100 ==> intent
            == WheelIntent::Zoom(ZoomDirection::In),
        allowed && ctrl_held && bound && ctrl_steps == 0 && zoom_delta < ZOOM_100 ==> intent
            == WheelIntent::Zoom(ZoomDirection::Out),
        allowed && (!ctrl_held || !bound) ==> (intent is Scroll <==> steps != 0),
        intent is Scroll ==> steps != 0,
{
}

/// Only a push outwards at an end of the strip is one against it.
pub proof fn law_pushes_against_an_end(
    target: Coordinate,
    most: Coordinate,
    pending: Coordinate,
    pushes: bool,
)
    requires
        call_ensures(wheel_pushes_against_end, (target, most, pending), pushes),
        0 < most,
    ensures
        0 < target < most ==> !pushes,
        pending == 0 ==> !pushes,
        target <= 0 ==> (pushes <==> pending < 0),
        target >= most ==> (pushes <==> pending > 0),
{
}

} // verus!
