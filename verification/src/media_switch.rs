//! Switching from one file to another: what stays on screen in the meantime, when
//! the window appears, and what is said about a file.

use crate::manga_loader::MangaMediaType;
use crate::overlays::MediaType;
use crate::text::{characters, same_text};
use vstd::prelude::*;

verus! {

/// How long the window stays hidden for a video at most, in nanoseconds.
pub const STARTUP_HIDE_LIMIT_NANOS: u64 = 2_000_000_000;

/// What stays on screen while a file is being opened.
#[derive(Clone, Copy, Debug, PartialEq, Eq, Structural)]
pub struct SwitchPlan {
    /// The picture that was handed over is used.
    pub use_placeholder: bool,
    /// The frame of the last video stays.
    pub keep_video_texture: bool,
    /// The last image stays.
    pub keep_image_texture: bool,
}

/// What stays on screen while a file is being opened.  A picture that was handed
/// over is used if it is of the kind of the new file; the last frame of a video
/// stays while another video is opened.
pub open spec fn switch_plan(
    previous: Option<MediaType>,
    opening: Option<MediaType>,
    placeholder: Option<MediaType>,
) -> SwitchPlan {
    let fits = placeholder is Some && placeholder == opening;
    SwitchPlan {
        use_placeholder: fits,
        keep_video_texture: opening == Some(MediaType::Video) && (previous == Some(
            MediaType::Video,
        ) || fits),
        keep_image_texture: opening == Some(MediaType::Image) && fits,
    }
}

/// Decides what stays on screen while a file is being opened.
pub fn plan_media_switch(
    previous: Option<MediaType>,
    opening: Option<MediaType>,
    placeholder: Option<MediaType>,
) -> (plan: SwitchPlan)
    ensures
        plan == switch_plan(previous, opening, placeholder),
{
    let use_placeholder = match (placeholder, opening) {
        (Some(MediaType::Image), Some(MediaType::Image)) => true,
        (Some(MediaType::Video), Some(MediaType::Video)) => true,
        _ => false,
    };
    let opening_video = match opening {
        Some(MediaType::Video) => true,
        _ => false,
    };
    let after_video = match previous {
        Some(MediaType::Video) => true,
        _ => false,
    };
    SwitchPlan {
        use_placeholder,
        keep_video_texture: opening_video && (after_video || use_placeholder),
        keep_image_texture: !opening_video && use_placeholder,
    }
}

/// A picture never stays on screen for a file of the other kind, and nothing stays
/// for a file that cannot be shown.
pub proof fn law_pictures_stay_for_their_kind(
    previous: Option<MediaType>,
    opening: Option<MediaType>,
    placeholder: Option<MediaType>,
)
    ensures
        switch_plan(previous, opening, placeholder).keep_video_texture ==> opening == Some(
            MediaType::Video,
        ),
        switch_plan(previous, opening, placeholder).keep_image_texture ==> opening == Some(
            MediaType::Image,
        ),
{
}

/// Where the file stands in the list of its directory; at the start if it is not
/// there.
pub open spec fn position_of(list: Seq<String>, path: Seq<char>, index: int) -> bool {
    ||| 0 <= index < list.len() && list[index]@ == path && forall|i: int|
        0 <= i < index ==> (#[trigger] list[i])@ != path
    ||| index == 0 && forall|i: int| 0 <= i < list.len() ==> (#[trigger] list[i])@ != path
}

/// Where the file stands in the list of its directory; at the start if it is not
/// there.
pub fn index_of_path(list: &Vec<String>, path: &str) -> (index: usize)
    ensures
        position_of(list@, path@, index as int),
{
    let mut i: usize = 0;
    while i < list.len()
        invariant
            i <= list@.len(),
            forall|k: int| 0 <= k < i ==> (#[trigger] list@[k])@ != path@,
        decreases list@.len() - i,
    {
        if same_text(list[i].as_str(), path) {
            return i;
        }
        i = i + 1;
    }
    0
}

/// What the start-up window waits for.
pub struct StartupProgress {
    pub has_error: bool,
    pub media_type: Option<MediaType>,
    pub image_loaded: bool,
    pub dimensions_known: bool,
    pub layout_pending: bool,
    pub video_frame_ready: bool,
    /// How long the window has been hidden, in nanoseconds.
    pub hidden_nanos: u64,
}

/// Whether the window can appear.  For a video it waits for the first frame in its
/// final size, but not for ever.
pub fn startup_ready_to_show(progress: &StartupProgress) -> (ready: bool)
    ensures
        ready == (progress.has_error || (match progress.media_type {
            None => true,
            Some(MediaType::Image) => progress.image_loaded,
            Some(MediaType::Video) => (progress.dimensions_known && !progress.layout_pending
                && progress.video_frame_ready) || progress.hidden_nanos > STARTUP_HIDE_LIMIT_NANOS,
        })),
{
    if progress.has_error {
        return true;
    }
    match progress.media_type {
        None => true,
        Some(MediaType::Image) => progress.image_loaded,
        Some(MediaType::Video) => {
            (progress.dimensions_known && !progress.layout_pending && progress.video_frame_ready)
                || progress.hidden_nanos > STARTUP_HIDE_LIMIT_NANOS
        },
    }
}

/// The character is of a Chinese, Japanese or Korean script.
pub open spec fn is_cjk(c: char) -> bool {
    let code = c as u32;
    ||| 0x3400 <= code <= 0x4DBF
    ||| 0x4E00 <= code <= 0x9FFF
    ||| 0xF900 <= code <= 0xFAFF
    ||| 0x3040 <= code <= 0x309F
    ||| 0x30A0 <= code <= 0x30FF
    ||| 0x31F0 <= code <= 0x31FF
    ||| 0x1100 <= code <= 0x11FF
    ||| 0xAC00 <= code <= 0xD7AF
}

fn char_is_cjk(c: char) -> (cjk: bool)
    ensures
        cjk == is_cjk(c),
{
    let code: u32 = c as u32;
    (code >= 0x3400 && code <= 0x4DBF) || (code >= 0x4E00 && code <= 0x9FFF) || (code >= 0xF900
        && code <= 0xFAFF) || (code >= 0x3040 && code <= 0x309F) || (code >= 0x30A0 && code <= 0x30FF)
        || (code >= 0x31F0 && code <= 0x31FF) || (code >= 0x1100 && code <= 0x11FF) || (code
        >= 0xAC00 && code <= 0xD7AF)
}

/// One of the characters is of such a script.
pub open spec fn has_cjk(text: Seq<char>) -> bool {
    exists|i: int| 0 <= i < text.len() && is_cjk(#[trigger] text[i])
}

/// Whether a file name needs a Chinese, Japanese or Korean font.
pub fn filename_needs_cjk_fonts(filename: &str) -> (needed: bool)
    ensures
        needed == exists|i: int| 0 <= i < filename@.len() && is_cjk(#[trigger] filename@[i]),
        needed == has_cjk(filename@),
{
    let chars = characters(filename);
    let mut i: usize = 0;
    while i < chars.len()
        invariant
            i <= chars@.len(),
            chars@ == filename@,
            forall|k: int| 0 <= k < i ==> !is_cjk(#[trigger] filename@[k]),
        decreases chars@.len() - i,
    {
        if char_is_cjk(chars[i]) {
            assert(is_cjk(filename@[i as int]));
            return true;
        }
        i = i + 1;
    }
    false
}

/// The title of the window for a file.
pub fn compute_window_title(file_name: &str) -> (title: String)
    ensures
        title@ == (if file_name@.len() == 0 {
            "Image & Video Viewer"@
        } else {
            "Image & Video Viewer - "@ + file_name@
        }),
{
    if file_name.is_empty() {
        "Image & Video Viewer".to_owned()
    } else {
        let mut title = "Image & Video Viewer - ".to_owned();
        title.append(file_name);
        title
    }
}

/// The character without its case, where it is an ASCII letter.
pub open spec fn ascii_folded(c: char) -> char {
    if 'A' <= c <= 'Z' {
        (c as u32 + 32) as char
    } else {
        c
    }
}

/// The texts are the same but for the case of ASCII letters.
pub open spec fn same_ignoring_ascii_case(a: Seq<char>, b: Seq<char>) -> bool {
    &&& a.len() == b.len()
    &&& forall|i: int| 0 <= i < a.len() ==> ascii_folded(#[trigger] a[i]) == ascii_folded(b[i])
}

fn is_letter_of(c: char, upper: char, lower: char) -> (same: bool)
    requires
        'A' <= upper <= 'Z',
        lower as u32 == upper as u32 + 32,
    ensures
        same == (ascii_folded(c) == lower),
{
    c == upper || c == lower
}

/// What an animated image is called, by the extension of its file.
pub fn animated_image_label(extension: Option<&str>) -> (label: &'static str)
    ensures
        label@ == (if extension is Some && same_ignoring_ascii_case(extension->0@, "webp"@) {
            "WEBP"@
        } else {
            "GIF"@
        }),
{
    proof {
        reveal_strlit("webp");
    }
    match extension {
        None => "GIF",
        Some(ext) => {
            let c = characters(ext);
            if c.len() == 4 && is_letter_of(c[0], 'W', 'w') && is_letter_of(c[1], 'E', 'e')
                && is_letter_of(c[2], 'B', 'b') && is_letter_of(c[3], 'P', 'p') {
                assert(same_ignoring_ascii_case(ext@, "webp"@));
                "WEBP"
            } else {
                proof {
                    if same_ignoring_ascii_case(ext@, "webp"@) {
                        assert(ascii_folded(ext@[0]) == 'w');
                        assert(ascii_folded(ext@[1]) == 'e');
                        assert(ascii_folded(ext@[2]) == 'b');
                        assert(ascii_folded(ext@[3]) == 'p');
                    }
                }
                "GIF"
            }
        },
    }
}

/// What the file that is open by itself shows as a page of a strip.
pub fn manga_media_type_for_current_media(media_type: MediaType, image_animated: bool) -> (shown:
    MangaMediaType)
    ensures
        shown == (match media_type {
            MediaType::Video => MangaMediaType::Video,
            MediaType::Image => if image_animated {
                MangaMediaType::AnimatedImage
            } else {
                MangaMediaType::StaticImage
            },
        }),
{
    match media_type {
        MediaType::Video => MangaMediaType::Video,
        MediaType::Image => {
            if image_animated {
                MangaMediaType::AnimatedImage
            } else {
                MangaMediaType::StaticImage
            }
        },
    }
}

/// The page that is shown by the picture at hand when a strip is entered.
pub fn strip_entry_placeholder(
    media_type: Option<MediaType>,
    has_image_texture: bool,
    has_video_texture: bool,
    current_index: usize,
) -> (page: Option<usize>)
    ensures
        page == (match media_type {
            Some(MediaType::Image) => if has_image_texture {
                Some(current_index)
            } else {
                None
            },
            Some(MediaType::Video) => if has_video_texture {
                Some(current_index)
            } else {
                None
            },
            None => None,
        }),
{
    match media_type {
        Some(MediaType::Image) => {
            if has_image_texture {
                Some(current_index)
            } else {
                None
            }
        },
        Some(MediaType::Video) => {
            if has_video_texture {
                Some(current_index)
            } else {
                None
            }
        },
        None => None,
    }
}

/// The movements of a floating window.
#[derive(Clone, Copy, Debug)]
pub struct WindowTracker {
    /// For how many frames movements are the viewer's own.
    pub suppressed_frames: u32,
    /// The user has moved the window.
    pub user_moved: bool,
}

impl WindowTracker {
    /// Takes note of where the window is.  `moved` says whether that is noticeably
    /// elsewhere than before.
    pub fn track_floating_window_position(&mut self, fullscreen: bool, moved: bool)
        ensures
            *final(self) == (if fullscreen {
                *old(self)
            } else if old(self).suppressed_frames > 0 {
                WindowTracker {
                    suppressed_frames: (old(self).suppressed_frames - 1) as u32,
                    ..*old(self)
                }
            } else {
                WindowTracker { user_moved: old(self).user_moved || moved, ..*old(self) }
            }),
    {
        if fullscreen {
            return;
        }
        if self.suppressed_frames > 0 {
            self.suppressed_frames = self.suppressed_frames - 1;
            return;
        }
        if moved {
            self.user_moved = true;
        }
    }

    /// Takes note that the viewer moves the window itself.
    pub fn send_outer_position(&mut self)
        ensures
            *final(self) == (WindowTracker {
                suppressed_frames: (if old(self).suppressed_frames < 2 {
                    2
                } else {
                    old(self).suppressed_frames
                }),
                ..*old(self)
            }),
    {
        if self.suppressed_frames < 2 {
            self.suppressed_frames = 2;
        }
    }
}

/// A picture that was handed over is used exactly for a file of its kind, and then stays
/// on screen; without one only the frame of a video stays, for another video.
pub proof fn law_handed_over_pictures_are_used(
    previous: Option<MediaType>,
    opening: Option<MediaType>,
    placeholder: Option<MediaType>,
    plan: SwitchPlan,
)
    requires
        call_ensures(plan_media_switch, (previous, opening, placeholder), plan),
    ensures
        plan.use_placeholder <==> placeholder is Some && placeholder == opening,
        plan.use_placeholder ==> (plan.keep_video_texture <==> opening == Some(MediaType::Video)),
        plan.use_placeholder ==> (plan.keep_image_texture <==> opening == Some(MediaType::Image)),
        !plan.use_placeholder ==> !plan.keep_image_texture,
        !plan.use_placeholder ==> (plan.keep_video_texture <==> opening == Some(MediaType::Video)
            && previous == Some(MediaType::Video)),
{
}

/// The place that is given is that of the file, the first one if it is listed twice, and
/// the start of the list if it is not listed.
pub proof fn law_index_leads_to_the_file(list: &Vec<String>, path: &str, index: usize, i: int)
    requires
        call_ensures(index_of_path, (list, path), index),
        0 <= i < list@.len(),
    ensures
        list@[i]@ == path@ ==> index < list@.len() && list@[index as int]@ == path@ && index <= i,
        index > 0 ==> list@[index as int]@ == path@,
{
}

/// The window appears with an error or an empty screen at once, with an image when it is
/// loaded, and with a video when its first frame can be shown in its final size; for a
/// video no later than two seconds after it was hidden.
pub proof fn law_window_appears(progress: &StartupProgress, ready: bool)
    requires
        call_ensures(startup_ready_to_show, (progress,), ready),
    ensures
        progress.has_error || progress.media_type is None ==> ready,
        !progress.has_error && progress.media_type == Some(MediaType::Image) ==> ready
            == progress.image_loaded,
        !progress.has_error && progress.media_type == Some(MediaType::Video)
            && progress.hidden_nanos > 2_000_000_000 ==> ready,
        !progress.has_error && progress.media_type == Some(MediaType::Video)
            && progress.hidden_nanos <= 2_000_000_000 ==> (ready <==> progress.dimensions_known
            && !progress.layout_pending && progress.video_frame_ready),
{
}

/// A name in plain letters needs no other font, and one with a Han, kana or hangul
/// character anywhere does.
pub proof fn law_fonts_are_needed_for_their_scripts(filename: &str, needed: bool, i: int)
    requires
        call_ensures(filename_needs_cjk_fonts, (filename,), needed),
        0 <= i < filename@.len(),
    ensures
        0x4E00 <= filename@[i] as u32 <= 0x9FFF ==> needed,
        0x3400 <= filename@[i] as u32 <= 0x4DBF ==> needed,
        0xF900 <= filename@[i] as u32 <= 0xFAFF ==> needed,
        0x3040 <= filename@[i] as u32 <= 0x30FF ==> needed,
        0x31F0 <= filename@[i] as u32 <= 0x31FF ==> needed,
        0x1100 <= filename@[i] as u32 <= 0x11FF ==> needed,
        0xAC00 <= filename@[i] as u32 <= 0xD7AF ==> needed,
        (forall|k: int| 0 <= k < filename@.len() ==> (#[trigger] filename@[k]) as u32 <= 0x10FF)
            ==> !needed,
        (forall|k: int| 0 <= k < filename@.len() ==> (#[trigger] filename@[k]) as u32 > 0xFAFF)
            ==> !needed,
{
    assert(is_cjk(filename@[i]) ==> needed);
}

/// The title ends in the name of the file.
pub proof fn law_title_names_the_file(file_name: &str, title: String)
    requires
        call_ensures(compute_window_title, (file_name,), title),
    ensures
        file_name@.len() == 0 ==> title@ == "Image & Video Viewer"@,
        file_name@.len() > 0 ==> title@ == "Image & Video Viewer - "@ + file_name@,
{
}

/// Only an animated picture in a WebP file is called after it, however its extension is
/// written.
pub proof fn law_animations_are_called_after_their_file(
    extension: Option<&str>,
    label: &'static str,
)
    requires
        call_ensures(animated_image_label, (extension,), label),
    ensures
        extension is None ==> label@ == "GIF"@,
        extension matches Some(ext) ==> ext@ == seq!['w', 'e', 'b', 'p'] || ext@ == seq![
            'W',
            'E',
            'B',
            'P',
        ] ==> label@ == "WEBP"@,
        extension matches Some(ext) ==> ext@.len() != 4 ==> label@ == "GIF"@,
        extension matches Some(ext) ==> ext@.len() == 4 && ext@[0] != 'w' && ext@[0] != 'W'
            ==> label@ == "GIF"@,
        label@ == "WEBP"@ || label@ == "GIF"@,
{
    reveal_strlit("webp");
    reveal_strlit("GIF");
    reveal_strlit("WEBP");
    if extension is Some && extension->0@.len() == 4 {
        let ext = extension->0@;
        if same_ignoring_ascii_case(ext, "webp"@) {
            assert(ascii_folded(ext[0]) == 'w');
        }
    }
}

/// A page of a strip shows what the file shows.
pub proof fn law_pages_show_what_files_show(
    media_type: MediaType,
    image_animated: bool,
    shown: MangaMediaType,
)
    requires
        call_ensures(manga_media_type_for_current_media, (media_type, image_animated), shown),
    ensures
        shown == MangaMediaType::Video <==> media_type == MediaType::Video,
        shown == MangaMediaType::AnimatedImage <==> media_type == MediaType::Image && image_animated,
{
}

/// A strip is entered with the picture of the open file, where there is one of its kind.
pub proof fn law_strips_are_entered_with_the_picture(
    media_type: Option<MediaType>,
    has_image_texture: bool,
    has_video_texture: bool,
    current_index: usize,
    page: Option<usize>,
)
    requires
        call_ensures(
            strip_entry_placeholder,
            (media_type, has_image_texture, has_video_texture, current_index),
            page,
        ),
    ensures
        page matches Some(p) ==> p == current_index,
        page is Some <==> (media_type == Some(MediaType::Image) && has_image_texture) || (media_type
            == Some(MediaType::Video) && has_video_texture),
{
}

/// The user is taken to have moved the window only outside full screen and when the
/// viewer has not moved it itself within the last two frames.
pub proof fn law_own_moves_are_not_the_users(
    tracker: &mut WindowTracker,
    fullscreen: bool,
    moved: bool,
)
    requires
        call_ensures(WindowTracker::track_floating_window_position, (tracker, fullscreen, moved), ()),
    ensures
        old(tracker).user_moved ==> final(tracker).user_moved,
        final(tracker).user_moved && !old(tracker).user_moved ==> moved && !fullscreen && old(
            tracker).suppressed_frames == 0,
        moved && !fullscreen && old(tracker).suppressed_frames == 0 ==> final(tracker).user_moved,
        fullscreen ==> final(tracker).suppressed_frames == old(tracker).suppressed_frames,
        !fullscreen && old(tracker).suppressed_frames > 0 ==> final(tracker).suppressed_frames
            == old(tracker).suppressed_frames - 1,
{
}

/// The viewer's own move goes unnoticed for two frames at least.
pub proof fn law_own_moves_go_unnoticed(tracker: &mut WindowTracker)
    requires
        call_ensures(WindowTracker::send_outer_position, (tracker,), ()),
    ensures
        final(tracker).suppressed_frames >= 2,
        final(tracker).suppressed_frames >= old(tracker).suppressed_frames,
        final(tracker).suppressed_frames == 2 || final(tracker).suppressed_frames == old(
            tracker).suppressed_frames,
        final(tracker).user_moved == old(tracker).user_moved,
{
}

} // verus!
