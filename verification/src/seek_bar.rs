//! Seek bars of videos and animations, and the volume.

use crate::manga_loader::MangaMediaType;
use vstd::prelude::*;

verus! {

/// How often a video is sent to a new position while the bar is dragged, in
/// nanoseconds.
pub const SEEK_INTERVAL: u64 = 50_000_000;

/// The dragging of a seek bar.  A position is a part of the whole, as the bits of
/// the number.
#[derive(Clone, Copy, Debug, PartialEq, Eq, Structural)]
pub struct VideoSeek {
    pub seeking: bool,
    /// The video was playing when dragging began.
    pub was_playing: bool,
    /// The position that is shown meanwhile.
    pub preview: Option<u32>,
    /// When the video was sent somewhere last; none if it may be sent at once.
    pub last_sent: Option<u64>,
}

/// The pointer over a seek bar in one frame.
#[derive(Clone, Copy, Debug)]
pub struct SeekFrame {
    /// The button is held on the bar.
    pub held_on_bar: bool,
    pub clicked: bool,
    pub primary_down: bool,
    pub primary_released: bool,
    /// The position under the pointer.
    pub position: Option<u32>,
    /// That position is noticeably elsewhere than the one that is shown.
    pub position_changed: bool,
    pub playing: bool,
    pub now: u64,
}

/// What is asked of the video, in this order.
#[derive(Clone, Copy, Debug, PartialEq, Eq, Structural)]
pub struct SeekRequests {
    pub pause: bool,
    /// Go there while the bar is dragged, or because it was clicked.
    pub seek: Option<u32>,
    /// Go there for good.
    pub settle: Option<u32>,
    pub play: bool,
    /// The bar has to be drawn again.
    pub repaint: bool,
}

/// Dragging begins in this frame.
pub open spec fn begins(state: VideoSeek, frame: SeekFrame) -> bool {
    frame.held_on_bar && !state.seeking
}

/// The dragging after it may have begun.
pub open spec fn begun(state: VideoSeek, frame: SeekFrame) -> VideoSeek {
    if begins(state, frame) {
        VideoSeek { seeking: true, was_playing: frame.playing, last_sent: None, ..state }
    } else {
        state
    }
}

/// The bar is dragged to a position in this frame.
pub open spec fn drags_to(state: VideoSeek, frame: SeekFrame) -> Option<u32> {
    if begun(state, frame).seeking && frame.primary_down {
        frame.position
    } else {
        None
    }
}

/// The video is sent to the position that the bar is dragged to.
pub open spec fn sends(state: VideoSeek, frame: SeekFrame) -> bool {
    &&& drags_to(state, frame) is Some
    &&& state.preview is None || frame.position_changed
    &&& match begun(state, frame).last_sent {
        None => true,
        Some(sent) => frame.now >= sent && frame.now - sent >= SEEK_INTERVAL,
    }
}

/// The dragging after the bar may have been moved.
pub open spec fn dragged(state: VideoSeek, frame: SeekFrame) -> VideoSeek {
    let start = begun(state, frame);
    if drags_to(state, frame) is Some {
        VideoSeek {
            preview: drags_to(state, frame),
            last_sent: if sends(state, frame) {
                Some(frame.now)
            } else {
                start.last_sent
            },
            ..start
        }
    } else {
        start
    }
}

/// Dragging ends in this frame.
pub open spec fn ends(state: VideoSeek, frame: SeekFrame) -> bool {
    begun(state, frame).seeking && frame.primary_released
}

/// The dragging after a frame.
pub open spec fn seek_after(state: VideoSeek, frame: SeekFrame) -> VideoSeek {
    if ends(state, frame) {
        VideoSeek {
            seeking: false,
            was_playing: false,
            preview: None,
            last_sent: Some(frame.now),
        }
    } else {
        dragged(state, frame)
    }
}

/// What is asked of the video in a frame.
pub open spec fn seek_requests(state: VideoSeek, frame: SeekFrame) -> SeekRequests {
    let single = frame.clicked && !begun(state, frame).seeking && frame.position is Some;
    SeekRequests {
        pause: begins(state, frame) && frame.playing,
        seek: if sends(state, frame) {
            drags_to(state, frame)
        } else if single {
            frame.position
        } else {
            None
        },
        settle: if ends(state, frame) {
            dragged(state, frame).preview
        } else {
            None
        },
        play: ends(state, frame) && begun(state, frame).was_playing,
        repaint: (begun(state, frame).seeking && frame.primary_down) || single,
    }
}

impl VideoSeek {
    pub fn new() -> (state: Self)
        ensures
            state == (VideoSeek {
                seeking: false,
                was_playing: false,
                preview: None,
                last_sent: None,
            }),
    {
        VideoSeek { seeking: false, was_playing: false, preview: None, last_sent: None }
    }

    /// Takes in what the pointer does over the bar in one frame.  A video that plays
    /// stands still while the bar is dragged.
    pub fn frame(&mut self, frame: &SeekFrame) -> (requests: SeekRequests)
        ensures
            *final(self) == seek_after(*old(self), *frame),
            requests == seek_requests(*old(self), *frame),
    {
        let mut requests = SeekRequests {
            pause: false,
            seek: None,
            settle: None,
            play: false,
            repaint: false,
        };
        if frame.held_on_bar && !self.seeking {
            self.seeking = true;
            self.was_playing = frame.playing;
            self.last_sent = None;
            requests.pause = frame.playing;
        }
        if self.seeking && frame.primary_down {
            if let Some(position) = frame.position {
                let changed = self.preview.is_none() || frame.position_changed;
                self.preview = Some(position);
                let due = match self.last_sent {
                    None => true,
                    Some(sent) => frame.now >= sent && frame.now - sent >= SEEK_INTERVAL,
                };
                if changed && due {
                    requests.seek = Some(position);
                    self.last_sent = Some(frame.now);
                }
            }
            requests.repaint = true;
        }
        if frame.clicked && !self.seeking {
            if let Some(position) = frame.position {
                requests.seek = Some(position);
                requests.repaint = true;
            }
        }
        if self.seeking && frame.primary_released {
            requests.settle = self.preview;
            requests.play = self.was_playing;
            self.preview = None;
            self.seeking = false;
            self.last_sent = Some(frame.now);
            self.was_playing = false;
        }
        requests
    }

    /// The position that the bar shows.
    pub fn shown_position(&self, position: u32) -> (shown: u32)
        ensures
            shown == (if self.seeking && self.preview is Some {
                self.preview->0
            } else {
                position
            }),
    {
        if self.seeking {
            match self.preview {
                Some(preview) => preview,
                None => position,
            }
        } else {
            position
        }
    }
}

/// A video that played before the bar was dragged goes on when it is let go, and
/// one that stood still does not.
pub proof fn law_release_restores_playback(state: VideoSeek, frame: SeekFrame)
    requires
        state.seeking,
        frame.primary_released,
    ensures
        seek_requests(state, frame).play == state.was_playing,
        !seek_after(state, frame).seeking,
{
}

/// Two positions are never sent closely after each other while the bar is dragged.
pub proof fn law_seeks_keep_distance(state: VideoSeek, first: SeekFrame, second: SeekFrame)
    requires
        sends(state, first),
        !ends(state, first),
        sends(seek_after(state, first), second),
    ensures
        second.now - first.now >= SEEK_INTERVAL,
{
}

/// The dragging of the seek bar of an animation.
#[derive(Clone, Copy, Debug, PartialEq, Eq, Structural)]
pub struct FrameSeek {
    pub seeking: bool,
    pub preview: Option<usize>,
}

impl FrameSeek {
    pub fn new() -> (state: Self)
        ensures
            state == (FrameSeek { seeking: false, preview: None }),
    {
        FrameSeek { seeking: false, preview: None }
    }

    /// Takes in what the pointer does over the bar in one frame; `target` is the
    /// frame of the animation under the pointer.  Says which one to show.
    pub fn frame(
        &mut self,
        held_on_bar: bool,
        clicked: bool,
        primary_down: bool,
        primary_released: bool,
        target: Option<usize>,
    ) -> (show: Option<usize>)
        ensures
            ({
                let seeking = old(self).seeking || held_on_bar;
                &&& show == (if (seeking && primary_down) || (clicked && !seeking) {
                    target
                } else {
                    None
                })
                &&& *final(self) == (if seeking && primary_released {
                    FrameSeek { seeking: false, preview: None }
                } else {
                    FrameSeek {
                        seeking,
                        preview: if seeking && primary_down && target is Some {
                            target
                        } else {
                            old(self).preview
                        },
                    }
                })
            }),
    {
        let mut show: Option<usize> = None;
        if held_on_bar {
            self.seeking = true;
        }
        if self.seeking && primary_down {
            if target.is_some() {
                self.preview = target;
                show = target;
            }
        }
        if clicked && !self.seeking {
            show = target;
        }
        if self.seeking && primary_released {
            self.seeking = false;
            self.preview = None;
        }
        show
    }
}

/// How many frames the bar of an animation shows while frames arrive: it never
/// shrinks, and the frame that is shown is among them.
pub fn shown_frame_count(total: Option<usize>, frame_count: usize, current: usize) -> (count: usize)
    requires
        current < usize::MAX,
    ensures
        ({
            let base = match total {
                Some(total) => total as int,
                None => if frame_count < 1 {
                    1
                } else {
                    frame_count as int
                },
            };
            count == (if base > current + 1 {
                base
            } else {
                current + 1
            })
        }),
{
    let base: usize = match total {
        Some(total) => total,
        None => {
            if frame_count < 1 {
                1
            } else {
                frame_count
            }
        },
    };
    if base > current + 1 {
        base
    } else {
        current + 1
    }
}

/// What the controls at the bottom of a strip are for.
#[derive(Clone, Copy, Debug, PartialEq, Eq, Structural)]
pub enum StripControls {
    Nothing,
    Video,
    Animation,
}

/// What the controls at the bottom of a strip are for.  `media_type` is that of the
/// focused page.
pub fn strip_controls(video_focused: bool, media_type: Option<MangaMediaType>) -> (controls:
    StripControls)
    ensures
        controls == (match media_type {
            Some(MangaMediaType::Video) => if video_focused {
                StripControls::Video
            } else {
                StripControls::Nothing
            },
            Some(MangaMediaType::AnimatedImage) => StripControls::Animation,
            _ => StripControls::Nothing,
        }),
{
    match media_type {
        Some(MangaMediaType::Video) => {
            if video_focused {
                StripControls::Video
            } else {
                StripControls::Nothing
            }
        },
        Some(MangaMediaType::AnimatedImage) => StripControls::Animation,
        _ => StripControls::Nothing,
    }
}

/// The sound of the videos in a strip, as far as the user has set it.  The volume
/// is kept as the bits of the number.
#[derive(Clone, Copy, Debug, PartialEq, Eq, Structural)]
pub struct SoundChoice {
    pub muted: Option<bool>,
    pub volume: Option<u64>,
}

impl SoundChoice {
    pub fn new() -> (choice: Self)
        ensures
            choice == (SoundChoice { muted: None, volume: None }),
    {
        SoundChoice { muted: None, volume: None }
    }

    /// Remembers that sound was switched off or on.
    pub fn set_muted(&mut self, muted: bool)
        ensures
            *final(self) == (SoundChoice { muted: Some(muted), ..*old(self) }),
    {
        self.muted = Some(muted);
    }

    /// Remembers a volume.  Says whether the sound is switched on because of it.
    pub fn set_volume(&mut self, volume: u64, is_muted: bool, audible: bool) -> (unmute: bool)
        ensures
            unmute == (is_muted && audible),
            *final(self) == (SoundChoice {
                muted: if unmute {
                    Some(false)
                } else {
                    old(self).muted
                },
                volume: Some(volume),
            }),
    {
        self.volume = Some(volume);
        if is_muted && audible {
            self.muted = Some(false);
            true
        } else {
            false
        }
    }

    /// The sound of a video that is opened.
    pub fn for_new_video(&self, muted_by_default: bool, default_volume: u64) -> (sound: (bool, u64))
        ensures
            sound.0 == (match self.muted {
                Some(muted) => muted,
                None => muted_by_default,
            }),
            sound.1 == (match self.volume {
                Some(volume) => volume,
                None => default_volume,
            }),
    {
        let muted = match self.muted {
            Some(muted) => muted,
            None => muted_by_default,
        };
        let volume: u64 = match self.volume {
            Some(volume) => volume,
            None => default_volume,
        };
        (muted, volume)
    }
}

/// A drag begins when the bar is grasped and ends when the button is let go; in
/// between it goes on.
pub proof fn law_drags_last_while_held(state: VideoSeek, frame: SeekFrame)
    ensures
        seek_after(state, frame).seeking <==> (state.seeking || frame.held_on_bar)
            && !frame.primary_released,
{
}

/// A video that plays is stopped when its bar is grasped, and not later in the drag.
pub proof fn law_grasping_pauses(state: VideoSeek, frame: SeekFrame)
    ensures
        seek_requests(state, frame).pause <==> frame.playing && frame.held_on_bar && !state.seeking,
        !state.seeking && frame.held_on_bar && !frame.primary_released ==> seek_after(
            state,
            frame,
        ).was_playing == frame.playing,
        state.seeking && !frame.primary_released ==> seek_after(state, frame).was_playing
            == state.was_playing,
{
}

/// Where the bar is let go, there the video is sent for good, and nowhere else: to the
/// last position that it was dragged to.
pub proof fn law_release_settles_where_the_bar_is(state: VideoSeek, frame: SeekFrame)
    ensures
        seek_requests(state, frame).settle is Some ==> frame.primary_released && (state.seeking
            || frame.held_on_bar),
        state.seeking && frame.primary_released && !frame.primary_down ==> seek_requests(
            state,
            frame,
        ).settle == state.preview,
        state.seeking && frame.primary_released && frame.primary_down && frame.position is Some
            ==> seek_requests(state, frame).settle == frame.position,
        frame.primary_released && (state.seeking || frame.held_on_bar) ==> seek_after(
            state,
            frame,
        ).preview is None,
{
}

/// A video is only ever sent to the position under the pointer, while the bar is
/// dragged or when it is clicked.
pub proof fn law_seeks_go_to_the_pointer(state: VideoSeek, frame: SeekFrame)
    ensures
        seek_requests(state, frame).seek is Some ==> seek_requests(state, frame).seek
            == frame.position,
        seek_requests(state, frame).seek is Some ==> frame.clicked || ((state.seeking
            || frame.held_on_bar) && frame.primary_down),
        frame.clicked && !state.seeking && !frame.held_on_bar ==> seek_requests(state, frame).seek
            == frame.position,
        !state.seeking && frame.held_on_bar && frame.primary_down && (state.preview is None
            || frame.position_changed) ==> seek_requests(state, frame).seek == frame.position,
{
}

/// While the bar is dragged it shows the position under the pointer.
pub proof fn law_dragged_bar_follows_the_pointer(
    state: VideoSeek,
    frame: SeekFrame,
    position: u32,
    shown: u32,
)
    requires
        call_ensures(VideoSeek::shown_position, (&seek_after(state, frame), position), shown),
    ensures
        (state.seeking || frame.held_on_bar) && frame.primary_down && !frame.primary_released
            && frame.position is Some ==> shown == frame.position->0,
        frame.primary_released && (state.seeking || frame.held_on_bar) ==> shown == position,
        !state.seeking && !frame.held_on_bar ==> shown == position,
{
}

/// The bar of an animation is long enough for the frame that is shown and for all
/// frames that have arrived.
pub proof fn law_bar_holds_all_frames(
    total: Option<usize>,
    frame_count: usize,
    current: usize,
    count: usize,
)
    requires
        call_ensures(shown_frame_count, (total, frame_count, current), count),
    ensures
        count > current,
        total is None ==> count >= frame_count,
        total matches Some(all) ==> count >= all,
        count == current + 1 || (total is None && count == frame_count) || total == Some(count),
{
}

/// The controls of a strip are those of what has the focus: a video's for a focused
/// video, an animation's for an animation, and none for a picture that stands still.
pub proof fn law_controls_suit_the_page(
    video_focused: bool,
    media_type: Option<MangaMediaType>,
    controls: StripControls,
)
    requires
        call_ensures(strip_controls, (video_focused, media_type), controls),
    ensures
        controls is Video <==> video_focused && media_type == Some(MangaMediaType::Video),
        controls is Animation <==> media_type == Some(MangaMediaType::AnimatedImage),
{
}

/// A video that is opened sounds as the user last chose, and as the settings say where
/// no choice was made.
pub proof fn law_chosen_sound_is_kept(
    choice: &SoundChoice,
    muted_by_default: bool,
    default_volume: u64,
    sound: (bool, u64),
)
    requires
        call_ensures(SoundChoice::for_new_video, (choice, muted_by_default, default_volume), sound),
    ensures
        choice.muted is None ==> sound.0 == muted_by_default,
        choice.muted is Some ==> Some(sound.0) == choice.muted,
        choice.volume is None ==> sound.1 == default_volume,
        choice.volume is Some ==> Some(sound.1) == choice.volume,
{
}

/// What is chosen of the sound is kept, and a volume that can be heard ends a mute.
pub proof fn law_sound_is_as_chosen(
    muting: &mut SoundChoice,
    muted: bool,
    setting: &mut SoundChoice,
    volume: u64,
    is_muted: bool,
    audible: bool,
    unmute: bool,
)
    requires
        call_ensures(SoundChoice::set_muted, (muting, muted), ()),
        call_ensures(SoundChoice::set_volume, (setting, volume, is_muted, audible), unmute),
    ensures
        final(muting).muted == Some(muted),
        final(muting).volume == old(muting).volume,
        final(setting).volume == Some(volume),
        unmute <==> is_muted && audible,
        unmute ==> final(setting).muted == Some(false),
        !unmute ==> final(setting).muted == old(setting).muted,
{
}

} // verus!
