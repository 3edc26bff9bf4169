//! Playing an animation or a video that is open by itself.

use crate::strip_animation::FrameDue;
use vstd::prelude::*;

verus! {

/// An animation whose frames arrive one by one.
#[derive(Clone, Copy, Debug, PartialEq, Eq, Structural)]
pub struct SoloAnimation {
    /// How many frames have arrived, and which is shown.
    pub frames: usize,
    pub current: usize,
    /// All frames have arrived.
    pub done: bool,
}

impl SoloAnimation {
    /// Takes in a frame, if it belongs to the file that is open.  Says whether it
    /// does.
    pub fn frame_arrived(&mut self, same_file: bool) -> (taken: bool)
        requires
            old(self).frames < usize::MAX,
        ensures
            taken == same_file,
            *final(self) == (if same_file {
                SoloAnimation { frames: (old(self).frames + 1) as usize, ..*old(self) }
            } else {
                *old(self)
            }),
    {
        if same_file {
            self.frames = self.frames + 1;
        }
        same_file
    }

    /// Takes note that all frames have arrived, or that none are wanted any more.
    pub fn stream_ended(&mut self)
        ensures
            *final(self) == (SoloAnimation { done: true, ..*old(self) }),
    {
        self.done = true;
    }

    /// Whether the animation may go on to its next frame.  While frames arrive it
    /// waits at the last one instead of starting again.
    pub fn may_advance(&self, in_strip: bool, paused: bool) -> (may: bool)
        ensures
            may == (!in_strip && !paused && self.frames > 1 && (self.done || self.current
                != self.frames - 1)),
    {
        if in_strip || paused || self.frames <= 1 {
            return false;
        }
        self.done || self.current != self.frames - 1
    }

    /// When the next frame is due.
    pub fn next_frame_due(&self, in_strip: bool, paused: bool, delay_nanos: u64, elapsed_nanos: u64) -> (
    due: FrameDue)
        ensures
            due == (if in_strip || paused || self.frames <= 1 {
                FrameDue::Never
            } else if elapsed_nanos < delay_nanos {
                FrameDue::After((delay_nanos - elapsed_nanos) as u64)
            } else {
                FrameDue::Now
            }),
    {
        if in_strip || paused || self.frames <= 1 {
            FrameDue::Never
        } else if elapsed_nanos < delay_nanos {
            FrameDue::After(delay_nanos - elapsed_nanos)
        } else {
            FrameDue::Now
        }
    }
}

/// Whether the texture of an image has to be made anew.  `shown_frame` is the frame
/// that it shows, if there is one.
pub fn texture_is_stale(shown_frame: Option<usize>, frame_changed: bool, current: usize) -> (stale:
    bool)
    ensures
        stale == (shown_frame is None || frame_changed || shown_frame != Some(current)),
{
    match shown_frame {
        None => true,
        Some(shown) => frame_changed || shown != current,
    }
}

/// What a video calls for in a frame.
#[derive(Clone, Copy, Debug, PartialEq, Eq, Structural)]
pub struct VideoTick {
    /// Start again.
    pub restart: bool,
    /// Draw another frame at once.
    pub repaint: bool,
    /// Look for a new picture soon.
    pub poll: bool,
}

/// What a video calls for in a frame.
pub fn tick_video(
    ended: bool,
    loops: bool,
    has_new_picture: bool,
    playing: bool,
    seeking: bool,
) -> (tick: VideoTick)
    ensures
        tick.restart == (ended && loops),
        tick.poll == playing,
        tick.repaint == ((ended && loops) || has_new_picture || (!playing && seeking)),
{
    let restart = ended && loops;
    VideoTick {
        restart,
        repaint: restart || has_new_picture || (!playing && seeking),
        poll: playing,
    }
}

/// Frames of another file are not taken in; the one that is shown stays the same.
pub proof fn law_only_own_frames_are_taken(
    animation: &mut SoloAnimation,
    same_file: bool,
    taken: bool,
)
    requires
        call_ensures(SoloAnimation::frame_arrived, (animation, same_file), taken),
        old(animation).frames < usize::MAX,
    ensures
        taken == same_file,
        same_file ==> final(animation).frames == old(animation).frames + 1,
        !same_file ==> final(animation).frames == old(animation).frames,
        final(animation).current == old(animation).current,
        final(animation).done == old(animation).done,
{
}

/// The end of the stream changes neither the frames nor the one that is shown.
pub proof fn law_streams_end(animation: &mut SoloAnimation)
    requires
        call_ensures(SoloAnimation::stream_ended, (animation,), ()),
    ensures
        final(animation).done,
        final(animation).frames == old(animation).frames,
        final(animation).current == old(animation).current,
{
}

/// An animation with several frames goes on unless it is paused or stands in a strip, but
/// never past the last frame while more are to come.
pub proof fn law_animations_wait_for_their_frames(
    animation: &SoloAnimation,
    in_strip: bool,
    paused: bool,
    may: bool,
)
    requires
        call_ensures(SoloAnimation::may_advance, (animation, in_strip, paused), may),
    ensures
        may ==> !in_strip && !paused && animation.frames > 1,
        may && animation.current + 1 == animation.frames ==> animation.done,
        !in_strip && !paused && animation.frames > 1 && (animation.done || animation.current + 1
            < animation.frames) ==> may,
{
}

/// A frame is due when its delay has passed, and never in an animation that does not run.
pub proof fn law_frames_are_due_after_their_delay(
    animation: &SoloAnimation,
    in_strip: bool,
    paused: bool,
    delay: u64,
    elapsed: u64,
    due: FrameDue,
)
    requires
        call_ensures(
            SoloAnimation::next_frame_due,
            (animation, in_strip, paused, delay, elapsed),
            due,
        ),
    ensures
        due is Never <==> in_strip || paused || animation.frames <= 1,
        due is Now ==> elapsed >= delay,
        due matches FrameDue::After(left) ==> left > 0 && elapsed + left == delay,
        !in_strip && !paused && animation.frames > 1 && elapsed >= delay ==> due is Now,
{
}

/// A texture is good as long as it shows the current frame and that has not changed.
pub proof fn law_textures_show_the_current_frame(
    shown: Option<usize>,
    changed: bool,
    current: usize,
    stale: bool,
)
    requires
        call_ensures(texture_is_stale, (shown, changed, current), stale),
    ensures
        !stale <==> shown == Some(current) && !changed,
{
}

/// A video starts again at its end only if it loops; a new picture or a fresh start is
/// drawn at once, and so is a seek while it stands still.
pub proof fn law_videos_call_for_frames(
    ended: bool,
    loops: bool,
    has_new: bool,
    playing: bool,
    seeking: bool,
    tick: VideoTick,
)
    requires
        call_ensures(tick_video, (ended, loops, has_new, playing, seeking), tick),
    ensures
        tick.restart <==> ended && loops,
        tick.poll <==> playing,
        tick.restart || has_new ==> tick.repaint,
        seeking && !playing ==> tick.repaint,
        tick.repaint && !tick.restart && !has_new ==> seeking && !playing,
{
}

} // verus!
