//! How a page is decoded: which ways are tried, in which order, and what is made
//! of their outcome.

use crate::manga_loader::{DecodedImage, LoadRequest, MangaMediaType};
use crate::metadata_record::push_decimal;
use crate::metadata_record::decimal;
use crate::scaling::{effective_side, effective_texture_side};
use crate::text::law_texts_contain_their_pieces;
use crate::text::{characters, contains_text, has_text, lowercased, same_text, to_lowercase};
use vstd::prelude::*;

verus! {

/// The side for which a first frame is decoded when only its size matters.
pub const PROBE_FRAME_SIDE: u32 = 256;

/// How long to wait for the first frame of a video, in milliseconds.
pub const FIRST_FRAME_TIMEOUT_MS: u64 = 250;

/// The dimensions that a file name, in lower case, hints at.
pub open spec fn hinted_dimensions(name: Seq<char>) -> (u32, u32) {
    if contains_text(name, "vertical"@) || contains_text(name, "portrait"@) || contains_text(
        name,
        "9x16"@,
    ) || contains_text(name, "1080x1920"@) || contains_text(name, "720x1280"@) {
        (1080, 1920)
    } else if contains_text(name, "4k"@) || contains_text(name, "2160"@) {
        (3840, 2160)
    } else if contains_text(name, "1440"@) || contains_text(name, "2k"@) {
        (2560, 1440)
    } else if contains_text(name, "1080"@) || contains_text(name, "fhd"@) {
        (1920, 1080)
    } else if contains_text(name, "720"@) || contains_text(name, "hd"@) {
        (1280, 720)
    } else if contains_text(name, "480"@) || contains_text(name, "sd"@) {
        (854, 480)
    } else {
        (1920, 1080)
    }
}

/// The dimensions that a file name, in lower case, hints at.
pub fn dimensions_hinted_by(lower_name: &str) -> (size: (u32, u32))
    ensures
        size == hinted_dimensions(lower_name@),
{
    let name = characters(lower_name);
    if has_text(&name, "vertical") || has_text(&name, "portrait") || has_text(&name, "9x16")
        || has_text(&name, "1080x1920") || has_text(&name, "720x1280") {
        return (1080, 1920);
    }
    if has_text(&name, "4k") || has_text(&name, "2160") {
        (3840, 2160)
    } else if has_text(&name, "1440") || has_text(&name, "2k") {
        (2560, 1440)
    } else if has_text(&name, "1080") || has_text(&name, "fhd") {
        (1920, 1080)
    } else if has_text(&name, "720") || has_text(&name, "hd") {
        (1280, 720)
    } else if has_text(&name, "480") || has_text(&name, "sd") {
        (854, 480)
    } else {
        (1920, 1080)
    }
}

/// The dimensions that the name of a video file hints at, where it has a name.
pub fn fallback_video_dimensions(file_name: Option<&str>) -> (size: Option<(u32, u32)>)
    ensures
        size == (match file_name {
            Some(name) => Some(hinted_dimensions(lowercased(name@))),
            None => None,
        }),
{
    match file_name {
        Some(name) => {
            let lower = to_lowercase(name);
            Some(dimensions_hinted_by(lower.as_str()))
        },
        None => None,
    }
}

/// A way to find out the dimensions of a video.
#[derive(Clone, Copy, Debug, PartialEq, Eq, Structural)]
pub enum VideoProbe {
    /// Read them out of the file's container.
    Container,
    /// Look them up in the metadata cache.
    Cache,
    /// Decode the first frame.
    FirstFrame,
    /// Guess them from the file name.
    FileName,
}

/// What to do after a way to find out the dimensions of a video was tried.
#[derive(Clone, Copy, Debug, PartialEq, Eq, Structural)]
pub enum VideoProbeStep {
    Try(VideoProbe),
    /// These are the dimensions; `store` says whether they go into the cache.
    Found { width: u32, height: u32, store: bool },
    NotFound,
}

/// The first way to try: without a media runtime the container comes first.
pub fn first_video_probe(runtime_available: bool) -> (probe: VideoProbe)
    ensures
        probe == (if runtime_available {
            VideoProbe::Cache
        } else {
            VideoProbe::Container
        }),
{
    if runtime_available {
        VideoProbe::Cache
    } else {
        VideoProbe::Container
    }
}

/// What follows a way to find out the dimensions.
pub open spec fn video_probe_step(probe: VideoProbe, found: Option<(u32, u32)>) -> VideoProbeStep {
    match (probe, found) {
        (VideoProbe::Container, Some((width, height))) => VideoProbeStep::Found {
            width,
            height,
            store: true,
        },
        (VideoProbe::Container, None) => VideoProbeStep::Try(VideoProbe::Cache),
        (VideoProbe::Cache, Some((width, height))) => VideoProbeStep::Found {
            width,
            height,
            store: false,
        },
        (VideoProbe::Cache, None) => VideoProbeStep::Try(VideoProbe::FirstFrame),
        (VideoProbe::FirstFrame, Some((width, height))) => if width > 0 && height > 0 {
            VideoProbeStep::Found { width, height, store: true }
        } else {
            VideoProbeStep::Try(VideoProbe::FileName)
        },
        (VideoProbe::FirstFrame, None) => VideoProbeStep::Try(VideoProbe::FileName),
        (VideoProbe::FileName, Some((width, height))) => VideoProbeStep::Found {
            width,
            height,
            store: true,
        },
        (VideoProbe::FileName, None) => VideoProbeStep::NotFound,
    }
}

/// What to do after a way to find out the dimensions of a video was tried.
pub fn probe_video_dimensions(probe: VideoProbe, found: Option<(u32, u32)>) -> (step: VideoProbeStep)
    ensures
        step == video_probe_step(probe, found),
{
    match (probe, found) {
        (VideoProbe::Container, Some((width, height))) => VideoProbeStep::Found {
            width,
            height,
            store: true,
        },
        (VideoProbe::Container, None) => VideoProbeStep::Try(VideoProbe::Cache),
        (VideoProbe::Cache, Some((width, height))) => VideoProbeStep::Found {
            width,
            height,
            store: false,
        },
        (VideoProbe::Cache, None) => VideoProbeStep::Try(VideoProbe::FirstFrame),
        (VideoProbe::FirstFrame, Some((width, height))) => {
            if width > 0 && height > 0 {
                VideoProbeStep::Found { width, height, store: true }
            } else {
                VideoProbeStep::Try(VideoProbe::FileName)
            }
        },
        (VideoProbe::FirstFrame, None) => VideoProbeStep::Try(VideoProbe::FileName),
        (VideoProbe::FileName, Some((width, height))) => VideoProbeStep::Found {
            width,
            height,
            store: true,
        },
        (VideoProbe::FileName, None) => VideoProbeStep::NotFound,
    }
}

/// Every way that fails leads to one further down the list, so that the search
/// comes to an end.
pub proof fn law_video_probe_ends(probe: VideoProbe, found: Option<(u32, u32)>)
    ensures
        video_probe_step(probe, found) matches VideoProbeStep::Try(next) ==> probe_rank(next)
            > probe_rank(probe),
        probe_rank(probe) <= 3,
{
}

pub open spec fn probe_rank(probe: VideoProbe) -> int {
    match probe {
        VideoProbe::Container => 0,
        VideoProbe::Cache => 1,
        VideoProbe::FirstFrame => 2,
        VideoProbe::FileName => 3,
    }
}

/// The dimensions of a video that can be had without decoding it: what the cache
/// has, or else what the container says, or else what the name hints at.
pub fn probe_video_dimensions_fast(
    cached: Option<(u32, u32)>,
    container: Option<(u32, u32)>,
    file_name: Option<&str>,
) -> (outcome: (u32, u32, bool))
    ensures
        ({
            let hint = match file_name {
                Some(name) => hinted_dimensions(lowercased(name@)),
                None => (1920u32, 1080u32),
            };
            outcome == (match (cached, container) {
                (Some((w, h)), _) => (w, h, false),
                (None, Some((w, h))) => if w > 0 && h > 0 {
                    (w, h, true)
                } else {
                    (hint.0, hint.1, false)
                },
                (None, None) => (hint.0, hint.1, false),
            })
        }),
{
    match cached {
        Some((w, h)) => {
            return (w, h, false);
        },
        None => {},
    }
    match container {
        Some((w, h)) => {
            if w > 0 && h > 0 {
                return (w, h, true);
            }
        },
        None => {},
    }
    match fallback_video_dimensions(file_name) {
        Some((w, h)) => (w, h, false),
        None => (1920, 1080, false),
    }
}

/// What decoding a picture came to.
pub struct DecodedFrame {
    pub pixels: Vec<u8>,
    pub width: u32,
    pub height: u32,
    pub original_width: u32,
    pub original_height: u32,
    pub media_type: MangaMediaType,
    /// How long scaling it down took, in nanoseconds.
    pub resize_time: u64,
}

/// The answer to a request, with the picture that was decoded for it.  The times
/// spent waiting and decoding are filled in later.
pub fn finished_request(request: &LoadRequest, frame: DecodedFrame) -> (decoded: DecodedImage)
    ensures
        decoded.index == request.index,
        decoded.pixels@ == frame.pixels@,
        decoded.width == frame.width,
        decoded.height == frame.height,
        decoded.original_width == frame.original_width,
        decoded.original_height == frame.original_height,
        decoded.media_type == frame.media_type,
        decoded.requested_side == effective_side(
            request.target_texture_side,
            request.max_texture_side,
        ),
        decoded.queue_wait == 0,
        decoded.decode_time == 0,
        decoded.resize_time == frame.resize_time,
{
    DecodedImage {
        index: request.index,
        pixels: frame.pixels,
        width: frame.width,
        height: frame.height,
        original_width: frame.original_width,
        original_height: frame.original_height,
        media_type: frame.media_type,
        requested_side: effective_texture_side(
            request.target_texture_side,
            request.max_texture_side,
        ),
        queue_wait: 0,
        decode_time: 0,
        resize_time: frame.resize_time,
    }
}

/// The answer to a request for a video whose first frame could not be had: its
/// dimensions without a picture.
pub fn frameless_video(request: &LoadRequest, original_width: u32, original_height: u32) -> (decoded:
    DecodedImage)
    ensures
        decoded.index == request.index,
        decoded.pixels@.len() == 0,
        decoded.width == 0,
        decoded.height == 0,
        decoded.original_width == original_width,
        decoded.original_height == original_height,
        decoded.media_type == MangaMediaType::Video,
        decoded.requested_side == effective_side(
            request.target_texture_side,
            request.max_texture_side,
        ),
        decoded.queue_wait == 0,
        decoded.decode_time == 0,
        decoded.resize_time == 0,
{
    finished_request(
        request,
        DecodedFrame {
            pixels: Vec::new(),
            width: 0,
            height: 0,
            original_width,
            original_height,
            media_type: MangaMediaType::Video,
            resize_time: 0,
        },
    )
}

/// Whether a file may be animated, going by its extension in lower case.
pub fn may_be_animated(lower_extension: Option<&str>) -> (may_be: bool)
    ensures
        may_be == (match lower_extension {
            Some(ext) => ext@ == "gif"@ || ext@ == "webp"@,
            None => false,
        }),
{
    match lower_extension {
        Some(ext) => same_text(ext, "gif") || same_text(ext, "webp"),
        None => false,
    }
}

/// What an image shows.  An animated WebP file counts as animated though only its
/// first frame was decoded.
pub fn image_media_type(is_animated_webp: bool, has_several_frames: bool) -> (media_type:
    MangaMediaType)
    ensures
        media_type == (if is_animated_webp || has_several_frames {
            MangaMediaType::AnimatedImage
        } else {
            MangaMediaType::StaticImage
        }),
{
    if is_animated_webp || has_several_frames {
        MangaMediaType::AnimatedImage
    } else {
        MangaMediaType::StaticImage
    }
}

/// What a media pipeline reported.
#[derive(Clone, Copy, Debug, PartialEq, Eq, Structural)]
pub enum PipelineEvent {
    /// The first frame is ready.
    Ready,
    Error,
    EndOfStream,
    /// Something else, or nothing in time.
    Other,
}

/// How the wait for a first frame goes on.
#[derive(Clone, Copy, Debug, PartialEq, Eq, Structural)]
pub enum FrameWait {
    GoOn,
    GotFrame,
    GiveUp,
}

/// How the wait for a first frame goes on.  A frame that arrived counts even if
/// the pipeline has not reported it.
pub fn first_frame_wait(event: PipelineEvent, frame_arrived: bool, elapsed_ms: u64) -> (wait: FrameWait)
    ensures
        wait == (match event {
            PipelineEvent::Ready => FrameWait::GotFrame,
            PipelineEvent::Error | PipelineEvent::EndOfStream => FrameWait::GiveUp,
            PipelineEvent::Other => if frame_arrived {
                FrameWait::GotFrame
            } else if elapsed_ms < FIRST_FRAME_TIMEOUT_MS {
                FrameWait::GoOn
            } else {
                FrameWait::GiveUp
            },
        }),
{
    match event {
        PipelineEvent::Ready => FrameWait::GotFrame,
        PipelineEvent::Error => FrameWait::GiveUp,
        PipelineEvent::EndOfStream => FrameWait::GiveUp,
        PipelineEvent::Other => {
            if frame_arrived {
                FrameWait::GotFrame
            } else if elapsed_ms < FIRST_FRAME_TIMEOUT_MS {
                FrameWait::GoOn
            } else {
                FrameWait::GiveUp
            }
        },
    }
}

/// Whether a first frame can be used.
pub fn is_usable_frame(pixels: &[u8], width: u32, height: u32) -> (usable: bool)
    ensures
        usable == (pixels@.len() > 0 && width > 0 && height > 0),
{
    pixels.len() > 0 && width > 0 && height > 0
}

/// What the pipeline is to convert frames to.
pub open spec fn caps_text(size: Option<(u32, u32)>) -> Seq<char> {
    match size {
        Some((width, height)) => if width > 0 && height > 0 {
            "video/x-raw,format=RGBA,width="@ + decimal(width as nat) + ",height="@ + decimal(
                height as nat,
            )
        } else {
            "video/x-raw,format=RGBA"@
        },
        None => "video/x-raw,format=RGBA"@,
    }
}

/// What the pipeline is to convert frames to: plain pixels, of the given size if
/// there is one.
pub fn caps_filter(output_dimensions: Option<(u32, u32)>) -> (caps: String)
    ensures
        caps@ == caps_text(output_dimensions),
{
    match output_dimensions {
        Some((width, height)) => {
            if width > 0 && height > 0 {
                let mut caps = "video/x-raw,format=RGBA,width=".to_owned();
                push_decimal(&mut caps, width);
                caps.append(",height=");
                push_decimal(&mut caps, height);
                caps
            } else {
                "video/x-raw,format=RGBA".to_owned()
            }
        },
        None => "video/x-raw,format=RGBA".to_owned(),
    }
}

/// `text` with a backslash before each quotation mark.
pub open spec fn quoted(text: Seq<char>) -> Seq<char>
    decreases text.len(),
{
    if text.len() == 0 {
        text
    } else {
        let before = quoted(text.drop_last());
        if text.last() == '"' {
            before.push('\\').push('"')
        } else {
            before.push(text.last())
        }
    }
}

/// The description of the pipeline that decodes the first frame of a video.
pub fn pipeline_description(uri: &str, caps: &str) -> (description: String)
    ensures
        description@ == "uridecodebin uri=\""@ + quoted(uri@)
            + "\" name=dec ! videoconvert ! videoscale ! "@ + caps@
            + " ! appsink name=sink max-buffers=1 drop=true"@,
{
    let mut description = "uridecodebin uri=\"".to_owned();
    let ghost start = description@;
    let chars = characters(uri);
    let mut i: usize = 0;
    assert(uri@.take(0) =~= Seq::empty());
    assert(start + quoted(uri@.take(0)) =~= start);
    while i < chars.len()
        invariant
            i <= chars@.len(),
            chars@ == uri@,
            description@ == start + quoted(uri@.take(i as int)),
        decreases chars@.len() - i,
    {
        let ghost longer = uri@.take(i + 1);
        assert(longer.drop_last() =~= uri@.take(i as int));
        assert(longer.last() == chars@[i as int]);
        if chars[i] == '"' {
            description.push('\\');
        }
        description.push(chars[i]);
        i = i + 1;
        assert(description@ =~= start + quoted(longer));
    }
    assert(uri@.take(i as int) =~= uri@);
    description.append("\" name=dec ! videoconvert ! videoscale ! ");
    description.append(caps);
    description.append(" ! appsink name=sink max-buffers=1 drop=true");
    description
}

/// Upright dimensions are guessed only for names that speak of them, and such names win
/// over every size that the name also mentions.
pub proof fn law_upright_names_win(name: &str, size: (u32, u32))
    requires
        call_ensures(dimensions_hinted_by, (name,), size),
    ensures
        size.0 < size.1 <==> contains_text(name@, "vertical"@) || contains_text(
            name@,
            "portrait"@,
        ) || contains_text(name@, "9x16"@) || contains_text(name@, "1080x1920"@) || contains_text(
            name@,
            "720x1280"@,
        ),
        size.0 < size.1 ==> size == (1080u32, 1920u32),
        size.0 > 0 && size.1 > 0,
{
}

/// A name that mentions one size only is taken at its word, and of several sizes the
/// largest counts; a name that mentions none is taken to be of full definition.
pub proof fn law_largest_mentioned_size_counts(name: &str, size: (u32, u32))
    requires
        call_ensures(dimensions_hinted_by, (name,), size),
        size.0 > size.1,
    ensures
        ({
            let n = name@;
            let ultra = contains_text(n, "4k"@) || contains_text(n, "2160"@);
            let quad = contains_text(n, "1440"@) || contains_text(n, "2k"@);
            let full = contains_text(n, "1080"@) || contains_text(n, "fhd"@);
            let high = contains_text(n, "720"@) || contains_text(n, "hd"@);
            let standard = contains_text(n, "480"@) || contains_text(n, "sd"@);
            &&& ultra <==> size == (3840u32, 2160u32)
            &&& quad ==> size.1 >= 1440
            &&& full ==> size.1 >= 1080
            &&& high ==> size.1 >= 720
            &&& size == (2560u32, 1440u32) ==> quad
            &&& size == (1280u32, 720u32) ==> high
            &&& size == (854u32, 480u32) ==> standard
            &&& standard && !high && !full && !quad && !ultra ==> size == (854u32, 480u32)
            &&& !standard && !high && !full && !quad && !ultra ==> size == (1920u32, 1080u32)
            &&& size.1 == 2160 || size.1 == 1440 || size == (1920u32, 1080u32) || size == (
                1280u32,
                720u32,
            ) || size == (854u32, 480u32)
        }),
{
}

/// A file without a name hints at nothing; one with a name hints at what its name in
/// lower case does.
pub proof fn law_names_hint_in_any_case(
    file_name: Option<&str>,
    lower: &str,
    hinted: Option<(u32, u32)>,
    size: (u32, u32),
)
    requires
        call_ensures(fallback_video_dimensions, (file_name,), hinted),
        call_ensures(dimensions_hinted_by, (lower,), size),
        file_name matches Some(name) ==> lower@ == lowercased(name@),
    ensures
        hinted is Some <==> file_name is Some,
        file_name is Some ==> hinted == Some(size),
{
}

/// Dimensions that are found end the search and are passed on as they are; what came out
/// of the cache is not put back into it, and what was found otherwise is.  A failed
/// attempt leads to the next one, cheapest first.
pub proof fn law_found_dimensions_end_the_search(
    probe: VideoProbe,
    found: Option<(u32, u32)>,
    step: VideoProbeStep,
)
    requires
        call_ensures(probe_video_dimensions, (probe, found), step),
    ensures
        step matches VideoProbeStep::Found { width, height, store } ==> found == Some(
            (width, height),
        ) && (store <==> probe != VideoProbe::Cache),
        (found matches Some((w, h)) && w > 0 && h > 0) ==> step is Found,
        found is None && probe == VideoProbe::Container ==> step == VideoProbeStep::Try(
            VideoProbe::Cache,
        ),
        found is None && probe == VideoProbe::Cache ==> step == VideoProbeStep::Try(
            VideoProbe::FirstFrame,
        ),
        found is None && probe == VideoProbe::FirstFrame ==> step == VideoProbeStep::Try(
            VideoProbe::FileName,
        ),
        found is None && probe == VideoProbe::FileName ==> step is NotFound,
        step is NotFound ==> found is None && probe == VideoProbe::FileName,
        (found matches Some((w, h)) && (w == 0 || h == 0)) ==> (step is Try <==> probe
            == VideoProbe::FirstFrame),
{
}

/// The container is asked first only where there is no media runtime.
pub proof fn law_search_starts_at_the_cache(runtime_available: bool, probe: VideoProbe)
    requires
        call_ensures(first_video_probe, (runtime_available,), probe),
    ensures
        probe == VideoProbe::Cache <==> runtime_available,
        probe == VideoProbe::Container <==> !runtime_available,
{
}

/// The cache wins over the container and the container over the name; only what the
/// container said is new to the cache.
pub proof fn law_quick_search_prefers_the_cache(
    cached: Option<(u32, u32)>,
    container: Option<(u32, u32)>,
    file_name: Option<&str>,
    outcome: (u32, u32, bool),
    hinted: Option<(u32, u32)>,
)
    requires
        call_ensures(probe_video_dimensions_fast, (cached, container, file_name), outcome),
        call_ensures(fallback_video_dimensions, (file_name,), hinted),
    ensures
        cached matches Some(size) ==> outcome == (size.0, size.1, false),
        cached is None ==> (container matches Some(size) ==> size.0 > 0 && size.1 > 0 ==> outcome
            == (size.0, size.1, true)),
        outcome.2 ==> cached is None && container == Some((outcome.0, outcome.1)),
        cached is None && container is None ==> (hinted matches Some(size) ==> outcome == (
            size.0,
            size.1,
            false,
        )),
        cached is None && container is None && hinted is None ==> outcome == (1920u32, 1080u32, false),
        cached is None && (container matches Some(size) && (size.0 == 0 || size.1 == 0)) ==> (
        hinted matches Some(guess) ==> outcome == (guess.0, guess.1, false)),
{
}

/// The answer names the page that was asked for and carries the picture as it was
/// decoded, together with the size of the original.
pub proof fn law_answers_carry_the_picture(
    request: &LoadRequest,
    frame: DecodedFrame,
    decoded: DecodedImage,
)
    requires
        call_ensures(finished_request, (request, frame), decoded),
    ensures
        decoded.index == request.index,
        decoded.pixels@ == frame.pixels@,
        decoded.width == frame.width && decoded.height == frame.height,
        decoded.original_width == frame.original_width && decoded.original_height
            == frame.original_height,
        decoded.media_type == frame.media_type,
        decoded.resize_time == frame.resize_time,
        decoded.requested_side <= request.max_texture_side || request.max_texture_side == 0,
{
}

/// A video without a frame is answered by its dimensions alone.
pub proof fn law_frameless_videos_have_dimensions(
    request: &LoadRequest,
    width: u32,
    height: u32,
    decoded: DecodedImage,
)
    requires
        call_ensures(frameless_video, (request, width, height), decoded),
    ensures
        decoded.index == request.index,
        decoded.media_type == MangaMediaType::Video,
        decoded.pixels@.len() == 0 && decoded.width == 0 && decoded.height == 0,
        decoded.original_width == width && decoded.original_height == height,
{
}

/// Only files of two kinds may be animated.
pub proof fn law_animated_kinds(extension: Option<&str>, may_be: bool)
    requires
        call_ensures(may_be_animated, (extension,), may_be),
    ensures
        extension is None ==> !may_be,
        extension matches Some(ext) ==> (may_be <==> ext@ == "gif"@ || ext@ == "webp"@),
{
}

/// A picture moves if it has several frames or its file says that it is animated.
pub proof fn law_moving_pictures_are_animated(
    animated_webp: bool,
    several: bool,
    media_type: MangaMediaType,
)
    requires
        call_ensures(image_media_type, (animated_webp, several), media_type),
    ensures
        media_type == MangaMediaType::StaticImage <==> !animated_webp && !several,
        media_type == MangaMediaType::AnimatedImage <==> animated_webp || several,
{
}

/// The wait ends with a frame that is there, with an error, or after a quarter of a
/// second; before that it goes on.
pub proof fn law_waiting_for_a_frame_ends(
    event: PipelineEvent,
    frame_arrived: bool,
    elapsed_ms: u64,
    wait: FrameWait,
)
    requires
        call_ensures(first_frame_wait, (event, frame_arrived, elapsed_ms), wait),
    ensures
        wait == FrameWait::GoOn <==> event == PipelineEvent::Other && !frame_arrived && elapsed_ms
            < 250,
        wait == FrameWait::GotFrame <==> event == PipelineEvent::Ready || (event
            == PipelineEvent::Other && frame_arrived),
{
}

/// A frame without pixels or without a side is of no use.
pub proof fn law_usable_frames_have_pixels(pixels: &[u8], width: u32, height: u32, usable: bool)
    requires
        call_ensures(is_usable_frame, (pixels, width, height), usable),
    ensures
        !usable <==> pixels@.len() == 0 || width == 0 || height == 0,
{
}

/// The pipeline is asked for plain pixels, and for a size where one with two sides is
/// given.
pub proof fn law_caps_name_the_size(
    output_dimensions: Option<(u32, u32)>,
    width: u32,
    height: u32,
    caps: String,
)
    requires
        call_ensures(caps_filter, (output_dimensions,), caps),
        output_dimensions is None || output_dimensions == Some((width, height)),
    ensures
        output_dimensions is Some && width > 0 && height > 0 ==> caps@
            == "video/x-raw,format=RGBA,width="@ + decimal(width as nat) + ",height="@ + decimal(
            height as nat,
        ),
        output_dimensions is None || width == 0 || height == 0 ==> caps@
            == "video/x-raw,format=RGBA"@,
{
}

/// Quoting leaves every other character alone and puts a backslash before each mark.
pub proof fn law_quoting_marks_the_quotation_marks(before: Seq<char>, c: char)
    ensures
        quoted(Seq::<char>::empty()) == Seq::<char>::empty(),
        c != '"' ==> quoted(before.push(c)) == quoted(before).push(c),
        c == '"' ==> quoted(before.push(c)) == quoted(before).push('\\').push('"'),
{
    assert(before.push(c).drop_last() =~= before);
    assert(before.push(c).last() == c);
}

/// The description names the address, quoted, and what frames are converted to.
pub proof fn law_descriptions_name_the_address(uri: &str, caps: &str, description: String)
    requires
        call_ensures(pipeline_description, (uri, caps), description),
    ensures
        contains_text(description@, quoted(uri@)),
        contains_text(description@, caps@),
{
    let start = "uridecodebin uri=\""@;
    let middle = "\" name=dec ! videoconvert ! videoscale ! "@;
    let end = " ! appsink name=sink max-buffers=1 drop=true"@;
    law_texts_contain_their_pieces(start, quoted(uri@), middle + caps@ + end);
    law_texts_contain_their_pieces(start + quoted(uri@) + middle, caps@, end);
    assert(description@ =~= start + quoted(uri@) + (middle + caps@ + end));
    assert(description@ =~= start + quoted(uri@) + middle + caps@ + end);
}

} // verus!
