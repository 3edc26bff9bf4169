//! When the next frame is drawn, and how long the control bar stays.

use vstd::prelude::*;

verus! {

/// Sixty frames a second, roughly, in nanoseconds.
pub const POLL_INTERVAL: u64 = 16_000_000;

/// The viewer is idle when nothing has happened for longer than this, in
/// nanoseconds.
pub const IDLE_THRESHOLD: u64 = 100_000_000;

/// A frame that is as good as never drawn: a day, in nanoseconds.
pub const IDLE_REPAINT: u64 = 86_400_000_000_000;

/// What is going on that keeps frames coming.
#[derive(Clone, Copy, Debug)]
pub struct FrameActivity {
    pub resize_pending: bool,
    pub texture_animates: bool,
    pub drawing_animates: bool,
    pub panning: bool,
    pub resizing: bool,
    pub seeking: bool,
    pub volume_dragging: bool,
    pub strip_loading: bool,
    pub strip_scrolling: bool,
    pub arrow_held: bool,
}

impl FrameActivity {
    pub open spec fn any(self) -> bool {
        self.resize_pending || self.texture_animates || self.drawing_animates || self.panning
            || self.resizing || self.seeking || self.volume_dragging || self.strip_loading
            || self.strip_scrolling || self.arrow_held
    }

    /// Whether anything is going on.
    pub fn is_active(&self) -> (active: bool)
        ensures
            active == self.any(),
    {
        self.resize_pending || self.texture_animates || self.drawing_animates || self.panning
            || self.resizing || self.seeking || self.volume_dragging || self.strip_loading
            || self.strip_scrolling || self.arrow_held
    }
}

/// Whether the background loader of a strip has anything left to do.
pub fn strip_loading(pending_loads: usize, pending_decoded: usize, pending_dimensions: usize) -> (
loading: bool)
    ensures
        loading == (pending_loads > 0 || pending_decoded > 0 || pending_dimensions > 0),
{
    pending_loads > 0 || pending_decoded > 0 || pending_dimensions > 0
}

/// When something happened last.
#[derive(Clone, Copy, Debug, PartialEq, Eq, Structural)]
pub struct IdleClock {
    pub last_activity: u64,
    pub idle: bool,
}

impl IdleClock {
    /// Takes note of whether anything happens in a frame.
    pub fn frame(&mut self, active: bool, now: u64)
        ensures
            *final(self) == (if active {
                IdleClock { last_activity: now, idle: false }
            } else {
                IdleClock {
                    idle: now > old(self).last_activity && now - old(self).last_activity
                        > IDLE_THRESHOLD,
                    ..*old(self)
                }
            }),
    {
        if active {
            self.last_activity = now;
            self.idle = false;
        } else {
            self.idle = now > self.last_activity && now - self.last_activity > IDLE_THRESHOLD;
        }
    }
}

/// When the next frame is drawn, unless something happens earlier.
#[derive(Clone, Copy, Debug, PartialEq, Eq, Structural)]
pub enum Repaint {
    Now,
    /// After so many nanoseconds.
    After(u64),
    /// Only when something happens.
    NotNeeded,
}

/// Something on screen that disappears after a while.
#[derive(Clone, Copy, Debug)]
pub struct HideTimer {
    /// It is shown, and nothing keeps it.
    pub running: bool,
    pub delay: u64,
    pub elapsed: u64,
}

pub open spec fn remaining(timer: HideTimer) -> int {
    if timer.elapsed < timer.delay {
        timer.delay - timer.elapsed
    } else {
        0
    }
}

/// When the first of the timers is up; as good as never if none runs.
pub open spec fn first_deadline(a: HideTimer, b: HideTimer) -> int {
    if a.running && b.running {
        if remaining(a) < remaining(b) {
            remaining(a)
        } else {
            remaining(b)
        }
    } else if a.running {
        remaining(a)
    } else if b.running {
        remaining(b)
    } else {
        IDLE_REPAINT as int
    }
}

fn time_left(timer: &HideTimer) -> (left: u64)
    ensures
        left == remaining(*timer),
{
    if timer.elapsed < timer.delay {
        timer.delay - timer.elapsed
    } else {
        0
    }
}

/// When the next frame is drawn.  `video_playing` is none if there is no video.
pub fn schedule_repaint(
    active: bool,
    layout_pending: bool,
    video_playing: Option<bool>,
    show_fps: bool,
    control_bar: &HideTimer,
    bottom_overlays: &HideTimer,
) -> (repaint: Repaint)
    ensures
        repaint == (if active {
            Repaint::Now
        } else if layout_pending {
            Repaint::After(POLL_INTERVAL)
        } else {
            match video_playing {
                Some(true) => Repaint::After(POLL_INTERVAL),
                Some(false) => Repaint::NotNeeded,
                None => if show_fps {
                    Repaint::After(POLL_INTERVAL)
                } else {
                    Repaint::After(first_deadline(*control_bar, *bottom_overlays) as u64)
                },
            }
        }),
{
    if active {
        return Repaint::Now;
    }
    if layout_pending {
        return Repaint::After(POLL_INTERVAL);
    }
    if let Some(playing) = video_playing {
        if playing {
            return Repaint::After(POLL_INTERVAL);
        }
        return Repaint::NotNeeded;
    }
    if show_fps {
        return Repaint::After(POLL_INTERVAL);
    }
    let mut next: Option<u64> = None;
    if control_bar.running {
        next = Some(time_left(control_bar));
    }
    if bottom_overlays.running {
        let left: u64 = time_left(bottom_overlays);
        next = match next {
            Some(other) => Some(
                if other < left {
                    other
                } else {
                    left
                },
            ),
            None => Some(left),
        };
    }
    match next {
        Some(left) => Repaint::After(left),
        None => Repaint::After(IDLE_REPAINT),
    }
}

/// The bar at the top with the title and the window buttons.
#[derive(Clone, Copy, Debug, PartialEq, Eq, Structural)]
pub struct ControlBar {
    pub shown: bool,
    /// When the pointer was near it last.
    pub shown_at: u64,
    /// Text of the title is being selected.
    pub title_dragging: bool,
}

/// The control bar after a frame.
pub open spec fn bar_after(
    bar: ControlBar,
    primary_down: bool,
    near_top: bool,
    delay_passed: bool,
    now: u64,
) -> ControlBar {
    let dragging = bar.title_dragging && primary_down;
    ControlBar {
        shown: near_top || (bar.shown && !(delay_passed && !dragging)),
        shown_at: if near_top {
            now
        } else {
            bar.shown_at
        },
        title_dragging: dragging,
    }
}

impl ControlBar {
    /// Takes in where the pointer is.  The bar appears when the pointer comes near
    /// the top, and disappears some time after it has left, but not while text of
    /// the title is being selected.
    pub fn draw_controls(
        &mut self,
        primary_down: bool,
        near_top: bool,
        delay_passed: bool,
        now: u64,
    ) -> (shown: bool)
        ensures
            *final(self) == bar_after(*old(self), primary_down, near_top, delay_passed, now),
            shown == final(self).shown,
    {
        if !primary_down {
            self.title_dragging = false;
        }
        if near_top {
            self.shown = true;
            self.shown_at = now;
        } else if delay_passed && !self.title_dragging {
            self.shown = false;
        }
        self.shown
    }

    /// Takes note that selecting text of the title began.
    pub fn start_title_drag(&mut self)
        ensures
            *final(self) == (ControlBar { title_dragging: true, ..*old(self) }),
    {
        self.title_dragging = true;
    }
}

/// The bar never disappears under the pointer, nor while text is being selected.
pub proof fn law_bar_stays_in_use(
    bar: ControlBar,
    primary_down: bool,
    near_top: bool,
    delay_passed: bool,
    now: u64,
)
    requires
        near_top || (bar.shown && bar.title_dragging && primary_down),
    ensures
        bar_after(bar, primary_down, near_top, delay_passed, now).shown,
{
}

/// Whatever goes on keeps frames coming, and nothing else does.
pub proof fn law_anything_keeps_frames_coming(activity: &FrameActivity, active: bool)
    requires
        call_ensures(FrameActivity::is_active, (activity,), active),
    ensures
        activity.resize_pending ==> active,
        activity.texture_animates ==> active,
        activity.drawing_animates ==> active,
        activity.panning ==> active,
        activity.resizing ==> active,
        activity.seeking ==> active,
        activity.volume_dragging ==> active,
        activity.strip_loading ==> active,
        activity.strip_scrolling ==> active,
        activity.arrow_held ==> active,
        active ==> activity.resize_pending || activity.texture_animates || activity.drawing_animates
            || activity.panning || activity.resizing || activity.seeking || activity.volume_dragging
            || activity.strip_loading || activity.strip_scrolling || activity.arrow_held,
{
}

/// The loader is at work as long as one of its queues holds something.
pub proof fn law_loading_lasts_while_something_is_left(
    loads: usize,
    decoded: usize,
    dimensions: usize,
    loading: bool,
)
    requires
        call_ensures(strip_loading, (loads, decoded, dimensions), loading),
    ensures
        !loading <==> loads == 0 && decoded == 0 && dimensions == 0,
{
}

/// Activity ends idleness at once; without it the viewer becomes idle a tenth of a
/// second after the last activity, which it goes on remembering.
pub proof fn law_idleness_sets_in_after_a_while(clock: &mut IdleClock, active: bool, now: u64)
    requires
        call_ensures(IdleClock::frame, (clock, active, now), ()),
    ensures
        active ==> !final(clock).idle && final(clock).last_activity == now,
        !active ==> final(clock).last_activity == old(clock).last_activity,
        !active ==> (final(clock).idle <==> now > old(clock).last_activity + 100_000_000),
{
}

/// A frame is drawn at once while something is going on.  Otherwise the next one comes
/// within a sixtieth of a second where a picture moves or a layout is awaited, and when
/// nothing of that kind is there, no later than any timer that runs is up.
pub proof fn law_frames_come_in_time(
    active: bool,
    layout_pending: bool,
    video_playing: Option<bool>,
    show_fps: bool,
    bar: &HideTimer,
    overlays: &HideTimer,
    repaint: Repaint,
)
    requires
        call_ensures(
            schedule_repaint,
            (active, layout_pending, video_playing, show_fps, bar, overlays),
            repaint,
        ),
    ensures
        repaint is Now <==> active,
        repaint is NotNeeded <==> !active && !layout_pending && video_playing == Some(false),
        !active && (layout_pending || video_playing == Some(true) || (video_playing is None
            && show_fps)) ==> repaint == Repaint::After(16_000_000),
        !active && !layout_pending && video_playing is None && !show_fps ==> (repaint matches Repaint::After(
            delay,
        ) && {
            &&& bar.running ==> delay <= what_is_left(bar.delay, bar.elapsed)
            &&& overlays.running ==> delay <= what_is_left(overlays.delay, overlays.elapsed)
            &&& bar.running || overlays.running ==> (bar.running && delay == what_is_left(
                bar.delay,
                bar.elapsed,
            )) || (overlays.running && delay == what_is_left(overlays.delay, overlays.elapsed))
            &&& !bar.running && !overlays.running ==> delay == 86_400_000_000_000
        }),
{
}

/// What is left of `delay` after `elapsed`, if anything.
pub open spec fn what_is_left(delay: u64, elapsed: u64) -> int {
    if elapsed >= delay {
        0
    } else {
        delay - elapsed
    }
}

/// The bar appears under the pointer and remembers when; it disappears only when the
/// delay has passed without the pointer, and never appears by itself.  Selecting text
/// ends when the button is let go, and does not begin here.
pub proof fn law_bar_comes_with_the_pointer(
    bar: &mut ControlBar,
    primary_down: bool,
    near_top: bool,
    delay_passed: bool,
    now: u64,
    shown: bool,
)
    requires
        call_ensures(
            ControlBar::draw_controls,
            (bar, primary_down, near_top, delay_passed, now),
            shown,
        ),
    ensures
        shown == final(bar).shown,
        near_top ==> shown && final(bar).shown_at == now,
        !near_top ==> final(bar).shown_at == old(bar).shown_at,
        shown && !near_top ==> old(bar).shown,
        !near_top && !delay_passed ==> shown == old(bar).shown,
        !near_top && delay_passed && shown ==> old(bar).title_dragging && primary_down,
        !near_top && delay_passed && old(bar).shown && old(bar).title_dragging && primary_down
            ==> shown,
        final(bar).title_dragging <==> old(bar).title_dragging && primary_down,
{
}

/// Beginning to select text changes nothing else of the bar.
pub proof fn law_title_drag_begins(bar: &mut ControlBar)
    requires
        call_ensures(ControlBar::start_title_drag, (bar,), ()),
    ensures
        final(bar).title_dragging,
        final(bar).shown == old(bar).shown,
        final(bar).shown_at == old(bar).shown_at,
{
}

} // verus!
