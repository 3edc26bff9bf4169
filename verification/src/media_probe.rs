//! What the first bytes of a media file say about it: its type and whether it is
//! animated.

use crate::metadata_record::{CachedFileType, CachedMediaKind};
use vstd::prelude::*;

verus! {

/// How many bytes of a WebP file are searched for an animation.
pub const WEBP_PROBE_BYTES: usize = 65536;

/// `expected` stands in `bytes` at position `at`.
pub open spec fn bytes_at(bytes: Seq<u8>, at: int, expected: Seq<u8>) -> bool {
    at + expected.len() <= bytes.len() && bytes.subrange(at, at + expected.len()) == expected
}

pub open spec fn ascii_lower(byte: u8) -> u8 {
    if 65 <= byte <= 90 {
        (byte + 32) as u8
    } else {
        byte
    }
}

/// The word "webm", in whatever case, stands somewhere in `bytes`.
pub open spec fn names_webm(bytes: Seq<u8>) -> bool {
    exists|i: int| #[trigger] webm_at(bytes, i)
}

pub open spec fn webm_at(bytes: Seq<u8>, i: int) -> bool {
    &&& 0 <= i
    &&& i + 4 <= bytes.len()
    &&& ascii_lower(bytes[i]) == 119
    &&& ascii_lower(bytes[i + 1]) == 101
    &&& ascii_lower(bytes[i + 2]) == 98
    &&& ascii_lower(bytes[i + 3]) == 109
}

/// `RIFF`, a length, and the given form.
pub open spec fn riff_form(bytes: Seq<u8>, form: Seq<u8>) -> bool {
    bytes_at(bytes, 0, seq![82, 73, 70, 70]) && bytes_at(bytes, 8, form)
}

/// The type that the signature at the start of a file stands for.
pub open spec fn signature_type(h: Seq<u8>) -> Option<CachedFileType> {
    if bytes_at(h, 0, seq![0xff, 0xd8, 0xff]) {
        Some(CachedFileType::Jpeg)
    } else if bytes_at(h, 0, seq![0x89, 80, 78, 71, 13, 10, 0x1a, 10]) {
        Some(CachedFileType::Png)
    } else if bytes_at(h, 0, seq![71, 73, 70, 56, 55, 97]) || bytes_at(
        h,
        0,
        seq![71, 73, 70, 56, 57, 97],
    ) {
        Some(CachedFileType::Gif)
    } else if bytes_at(h, 0, seq![66, 77]) {
        Some(CachedFileType::Bmp)
    } else if riff_form(h, seq![87, 69, 66, 80]) {
        Some(CachedFileType::Webp)
    } else if bytes_at(h, 0, seq![56, 66, 80, 83]) {
        Some(CachedFileType::Psd)
    } else if bytes_at(h, 0, seq![0, 0, 1, 0]) {
        Some(CachedFileType::Ico)
    } else if bytes_at(h, 0, seq![73, 73, 42, 0]) || bytes_at(h, 0, seq![77, 77, 0, 42]) {
        Some(CachedFileType::Tiff)
    } else if riff_form(h, seq![65, 86, 73, 32]) {
        Some(CachedFileType::Avi)
    } else if bytes_at(h, 0, seq![70, 76, 86]) {
        Some(CachedFileType::Flv)
    } else if bytes_at(h, 0, seq![79, 103, 103, 83]) {
        Some(CachedFileType::Ogv)
    } else if bytes_at(
        h,
        0,
        seq![
            0x30,
            0x26,
            0xb2,
            0x75,
            0x8e,
            0x66,
            0xcf,
            0x11,
            0xa6,
            0xd9,
            0x00,
            0xaa,
            0x00,
            0x62,
            0xce,
            0x6c,
        ],
    ) {
        Some(CachedFileType::Wmv)
    } else if bytes_at(h, 0, seq![0x1a, 0x45, 0xdf, 0xa3]) {
        if names_webm(h) {
            Some(CachedFileType::Webm)
        } else {
            Some(CachedFileType::Mkv)
        }
    } else if h.len() >= 12 && bytes_at(h, 4, seq![102, 116, 121, 112]) {
        if bytes_at(h, 8, seq![113, 116, 32, 32]) {
            Some(CachedFileType::Mov)
        } else if bytes_at(h, 8, seq![77, 52, 86, 32]) || bytes_at(h, 8, seq![109, 52, 118, 32]) {
            Some(CachedFileType::M4v)
        } else if bytes_at(h, 8, seq![51, 103]) {
            Some(CachedFileType::ThreeGp)
        } else {
            Some(CachedFileType::Mp4)
        }
    } else {
        None
    }
}

fn has_bytes(bytes: &[u8], at: usize, expected: &[u8]) -> (found: bool)
    ensures
        found == bytes_at(bytes@, at as int, expected@),
{
    let total: usize = bytes.len();
    if at > total || total - at < expected.len() {
        return false;
    }
    let ghost window = bytes@.subrange(at as int, at + expected@.len());
    let mut i: usize = 0;
    while i < expected.len()
        invariant
            i <= expected@.len(),
            at + expected@.len() <= bytes@.len() == total,
            window == bytes@.subrange(at as int, at + expected@.len()),
            forall|k: int| 0 <= k < i ==> #[trigger] window[k] == expected@[k],
        decreases expected@.len() - i,
    {
        if bytes[at + i] != expected[i] {
            assert(window[i as int] != expected@[i as int]);
            return false;
        }
        assert(window[i as int] == expected@[i as int]);
        i = i + 1;
    }
    assert(window =~= expected@);
    true
}

fn lower(byte: u8) -> (low: u8)
    ensures
        low == ascii_lower(byte),
{
    if byte >= 65 && byte <= 90 {
        byte + 32
    } else {
        byte
    }
}

fn contains_webm(bytes: &[u8]) -> (found: bool)
    ensures
        found == names_webm(bytes@),
{
    let mut i: usize = 0;
    while i < bytes.len() && bytes.len() - i >= 4
        invariant
            i <= bytes@.len(),
            forall|k: int| 0 <= k < i ==> !#[trigger] webm_at(bytes@, k),
        decreases bytes@.len() - i,
    {
        if lower(bytes[i]) == 119 && lower(bytes[i + 1]) == 101 && lower(bytes[i + 2]) == 98
            && lower(bytes[i + 3]) == 109 {
            assert(webm_at(bytes@, i as int));
            return true;
        }
        i = i + 1;
    }
    false
}

/// The file type that the signature in `header` stands for.
pub fn detect_file_type_from_header(header: &[u8]) -> (file_type: Option<CachedFileType>)
    ensures
        file_type == signature_type(header@),
{
    if has_bytes(header, 0, &[0xff, 0xd8, 0xff]) {
        return Some(CachedFileType::Jpeg);
    }
    if has_bytes(header, 0, &[0x89, 80, 78, 71, 13, 10, 0x1a, 10]) {
        return Some(CachedFileType::Png);
    }
    if has_bytes(header, 0, &[71, 73, 70, 56, 55, 97]) || has_bytes(
        header,
        0,
        &[71, 73, 70, 56, 57, 97],
    ) {
        return Some(CachedFileType::Gif);
    }
    if has_bytes(header, 0, &[66, 77]) {
        return Some(CachedFileType::Bmp);
    }
    let riff = has_bytes(header, 0, &[82, 73, 70, 70]);
    if riff && has_bytes(header, 8, &[87, 69, 66, 80]) {
        return Some(CachedFileType::Webp);
    }
    if has_bytes(header, 0, &[56, 66, 80, 83]) {
        return Some(CachedFileType::Psd);
    }
    if has_bytes(header, 0, &[0, 0, 1, 0]) {
        return Some(CachedFileType::Ico);
    }
    if has_bytes(header, 0, &[73, 73, 42, 0]) || has_bytes(header, 0, &[77, 77, 0, 42]) {
        return Some(CachedFileType::Tiff);
    }
    if riff && has_bytes(header, 8, &[65, 86, 73, 32]) {
        return Some(CachedFileType::Avi);
    }
    if has_bytes(header, 0, &[70, 76, 86]) {
        return Some(CachedFileType::Flv);
    }
    if has_bytes(header, 0, &[79, 103, 103, 83]) {
        return Some(CachedFileType::Ogv);
    }
    if has_bytes(
        header,
        0,
        &[
            0x30,
            0x26,
            0xb2,
            0x75,
            0x8e,
            0x66,
            0xcf,
            0x11,
            0xa6,
            0xd9,
            0x00,
            0xaa,
            0x00,
            0x62,
            0xce,
            0x6c,
        ],
    ) {
        return Some(CachedFileType::Wmv);
    }
    if has_bytes(header, 0, &[0x1a, 0x45, 0xdf, 0xa3]) {
        if contains_webm(header) {
            return Some(CachedFileType::Webm);
        }
        return Some(CachedFileType::Mkv);
    }
    if header.len() >= 12 && has_bytes(header, 4, &[102, 116, 121, 112]) {
        if has_bytes(header, 8, &[113, 116, 32, 32]) {
            return Some(CachedFileType::Mov);
        }
        if has_bytes(header, 8, &[77, 52, 86, 32]) || has_bytes(header, 8, &[109, 52, 118, 32]) {
            return Some(CachedFileType::M4v);
        }
        if has_bytes(header, 8, &[51, 103]) {
            return Some(CachedFileType::ThreeGp);
        }
        return Some(CachedFileType::Mp4);
    }
    None
}

/// The little-endian number in the four bytes at `at`.
pub open spec fn u32_le(bytes: Seq<u8>, at: int) -> int {
    bytes[at] + 256 * bytes[at + 1] + 65536 * bytes[at + 2] + 16777216 * bytes[at + 3]
}

/// Walks the chunks of a WebP file from `cursor` on.  The answer is in the first
/// `VP8X`, `ANIM` or `ANMF` chunk that lies in `h`; without one the file is still.
/// No answer is given where a chunk's end is not a position at all, or where the
/// flags of `VP8X` are cut off.
pub open spec fn webp_chunks_animated(h: Seq<u8>, cursor: int) -> Option<bool>
    decreases h.len() + 1 - cursor,
{
    if cursor < 0 || cursor + 8 > usize::MAX {
        None
    } else if cursor + 8 > h.len() {
        Some(false)
    } else {
        let size = u32_le(h, cursor + 4);
        let end = cursor + 8 + size;
        if end > usize::MAX {
            None
        } else if end > h.len() {
            Some(false)
        } else if bytes_at(h, cursor, seq![86, 80, 56, 88]) {
            if cursor + 8 < h.len() {
                Some((h[cursor + 8] / 2) % 2 == 1)
            } else {
                None
            }
        } else if bytes_at(h, cursor, seq![65, 78, 73, 77]) || bytes_at(
            h,
            cursor,
            seq![65, 78, 77, 70],
        ) {
            Some(true)
        } else if end + size % 2 > usize::MAX {
            None
        } else {
            webp_chunks_animated(h, end + size % 2)
        }
    }
}

/// Whether the WebP file that starts with `h` is animated, as far as `h` tells.
pub open spec fn webp_animated(h: Seq<u8>) -> Option<bool> {
    if riff_form(h, seq![87, 69, 66, 80]) {
        webp_chunks_animated(h, 12)
    } else {
        None
    }
}

/// Whether the WebP file that starts with `header` is animated.
pub fn webp_header_is_animated(header: &[u8]) -> (animated: Option<bool>)
    ensures
        animated == webp_animated(header@),
{
    let total: usize = header.len();
    if !(has_bytes(header, 0, &[82, 73, 70, 70]) && has_bytes(header, 8, &[87, 69, 66, 80])) {
        return None;
    }
    let mut cursor: usize = 12;
    loop
        invariant
            total == header@.len(),
            webp_animated(header@) == webp_chunks_animated(header@, cursor as int),
        decreases header@.len() + 1 - cursor,
    {
        let payload_start: usize = match cursor.checked_add(8) {
            Some(start) => start,
            None => return None,
        };
        if payload_start > total {
            return Some(false);
        }
        let size: u32 = header[cursor + 4] as u32 + 256 * header[cursor + 5] as u32 + 65536
            * header[cursor + 6] as u32 + 16777216 * header[cursor + 7] as u32;
        assert(size == u32_le(header@, cursor + 4));
        let payload_end: usize = match payload_start.checked_add(size as usize) {
            Some(end) => end,
            None => return None,
        };
        if payload_end > total {
            return Some(false);
        }
        if has_bytes(header, cursor, &[86, 80, 56, 88]) {
            if payload_start < total {
                return Some((header[payload_start] / 2) % 2 == 1);
            }
            return None;
        }
        if has_bytes(header, cursor, &[65, 78, 73, 77]) || has_bytes(
            header,
            cursor,
            &[65, 78, 77, 70],
        ) {
            return Some(true);
        }
        cursor = match payload_end.checked_add((size % 2) as usize) {
            Some(next) => next,
            None => return None,
        };
    }
}

/// Whether a WebP file with the given content is animated.  Only the start of
/// the file is searched.
pub fn webp_is_animated(content: &[u8]) -> (animated: Option<bool>)
    ensures
        animated == webp_animated(probe_window(content@)),
{
    if content.len() > WEBP_PROBE_BYTES {
        let start = vstd::slice::slice_subrange(content, 0, WEBP_PROBE_BYTES);
        webp_header_is_animated(start)
    } else {
        webp_header_is_animated(content)
    }
}

/// The part of a WebP file that is searched for an animation.
pub open spec fn probe_window(content: Seq<u8>) -> Seq<u8> {
    if content.len() > WEBP_PROBE_BYTES {
        content.subrange(0, WEBP_PROBE_BYTES as int)
    } else {
        content
    }
}

/// A reader that hands out the frames of a GIF file one after the other.
#[verifier::external_body]
pub struct GifFrames<'a> {
    inner: gif::Decoder<&'a [u8]>,
}

/// What a [`GifFrames`] has still to hand out: `true` for each frame, then
/// `false` if the file breaks off there.
pub uninterp spec fn gif_frames_left(frames: GifFrames<'_>) -> Seq<bool>;

/// What `gif::DecodeOptions::read_info` makes of a file: nothing if it is not a
/// GIF file, else what the reader has to hand out.
pub uninterp spec fn gif_frames_of(content: Seq<u8>) -> Option<Seq<bool>>;

/// `gif::DecodeOptions::read_info`, with indexed colors: opens a GIF file whose
/// header is sound.  The outcome is named, not described.
#[verifier::external_body]
fn gif_open(content: &[u8]) -> (frames: Option<GifFrames<'_>>)
    ensures
        frames is Some == gif_frames_of(content@) is Some,
        frames matches Some(f) ==> gif_frames_left(f) == gif_frames_of(content@)->0,
{
    let mut options = gif::DecodeOptions::new();
    options.set_color_output(gif::ColorOutput::Indexed);
    match options.read_info(content) {
        Ok(inner) => Some(GifFrames { inner }),
        Err(_) => None,
    }
}

/// One step through a GIF file.
#[derive(Clone, Copy, Debug, PartialEq, Eq, Structural)]
pub enum GifStep {
    /// A frame was read.
    Frame,
    /// There are no more frames.
    End,
    /// The file could not be read on.
    Broken,
}

/// `gif::Decoder::read_next_frame`: reads the next frame.
#[verifier::external_body]
fn gif_next(frames: &mut GifFrames<'_>) -> (step: GifStep)
    ensures
        step == next_step(gif_frames_left(*old(frames))),
        step == GifStep::Frame ==> gif_frames_left(*final(frames)) == gif_frames_left(
            *old(frames),
        ).skip(1),
{
    match frames.inner.read_next_frame() {
        Ok(Some(_)) => GifStep::Frame,
        Ok(None) => GifStep::End,
        Err(_) => GifStep::Broken,
    }
}

pub open spec fn next_step(left: Seq<bool>) -> GifStep {
    if left.len() == 0 {
        GifStep::End
    } else if left[0] {
        GifStep::Frame
    } else {
        GifStep::Broken
    }
}

/// Whether a file with these first two steps is animated: two frames make an
/// animation, and nothing is known of a file that breaks off before that.
pub open spec fn steps_animated(first: GifStep, second: GifStep) -> Option<bool> {
    match (first, second) {
        (GifStep::Broken, _) => None,
        (GifStep::End, _) => Some(false),
        (GifStep::Frame, GifStep::Broken) => None,
        (GifStep::Frame, GifStep::End) => Some(false),
        (GifStep::Frame, GifStep::Frame) => Some(true),
    }
}

pub fn frames_are_animated(first: GifStep, second: GifStep) -> (animated: Option<bool>)
    ensures
        animated == steps_animated(first, second),
{
    match first {
        GifStep::Broken => None,
        GifStep::End => Some(false),
        GifStep::Frame => match second {
            GifStep::Broken => None,
            GifStep::End => Some(false),
            GifStep::Frame => Some(true),
        },
    }
}

/// Whether a GIF file with the given frames is animated.
pub open spec fn gif_animated(frames: Option<Seq<bool>>) -> Option<bool> {
    match frames {
        None => None,
        Some(left) => steps_animated(next_step(left), next_step(left.skip(1))),
    }
}

/// Whether a GIF file with the given content is animated.
pub fn gif_is_animated(content: &[u8]) -> (animated: Option<bool>)
    ensures
        animated == gif_animated(gif_frames_of(content@)),
{
    match gif_open(content) {
        None => None,
        Some(mut frames) => {
            let first = gif_next(&mut frames);
            match first {
                GifStep::Frame => {
                    let second = gif_next(&mut frames);
                    frames_are_animated(first, second)
                },
                _ => frames_are_animated(first, GifStep::End),
            }
        },
    }
}

/// Whether a file is animated, given what its content says, if it says anything.
/// Types that are not looked into count as animated, and so does a file that
/// gives no answer.
pub open spec fn animated_or_assumed(file_type: CachedFileType, answer: Option<bool>) -> bool {
    match file_type {
        CachedFileType::Gif | CachedFileType::Webp => answer.unwrap_or(true),
        _ => true,
    }
}

/// [`detect_animated`] once the content has been looked into.
pub fn assume_animated(file_type: CachedFileType, answer: Option<bool>) -> (animated: bool)
    ensures
        animated == animated_or_assumed(file_type, answer),
{
    match file_type {
        CachedFileType::Gif | CachedFileType::Webp => match answer {
            Some(animated) => animated,
            None => true,
        },
        _ => true,
    }
}

/// Whether a file of the given type and content is animated.  A file that could
/// not be read has no content.
pub fn detect_animated(file_type: CachedFileType, content: Option<&[u8]>) -> (animated: bool)
    ensures
        animated == animated_or_assumed(
            file_type,
            match content {
                None => None,
                Some(bytes) => if file_type == CachedFileType::Gif {
                    gif_animated(gif_frames_of(bytes@))
                } else {
                    webp_animated(probe_window(bytes@))
                },
            },
        ),
{
    let answer = match content {
        None => None,
        Some(bytes) => match file_type {
            CachedFileType::Gif => gif_is_animated(bytes),
            CachedFileType::Webp => webp_is_animated(bytes),
            _ => None,
        },
    };
    assume_animated(file_type, answer)
}

/// The bytes stand there if and only if each of them does.
proof fn lemma_bytes_at(bytes: Seq<u8>, at: int, expected: Seq<u8>)
    requires
        0 <= at,
    ensures
        bytes_at(bytes, at, expected) <==> at + expected.len() <= bytes.len() && forall|k: int|
            0 <= k < expected.len() ==> bytes[at + k] == #[trigger] expected[k],
{
    if at + expected.len() <= bytes.len() {
        let window = bytes.subrange(at, at + expected.len());
        if window == expected {
            assert forall|k: int| 0 <= k < expected.len() implies bytes[at + k]
                == #[trigger] expected[k] by {
                assert(window[k] == bytes[at + k]);
            }
        } else if forall|k: int| 0 <= k < expected.len() ==> bytes[at + k] == #[trigger] expected[k] {
            assert(window =~= expected);
        }
    }
}

proof fn lemma_two_at(bytes: Seq<u8>, at: int, a: u8, b: u8)
    requires
        0 <= at,
    ensures
        bytes_at(bytes, at, seq![a, b]) <==> at + 2 <= bytes.len() && bytes[at] == a && bytes[at + 1]
            == b,
{
    let expected = seq![a, b];
    lemma_bytes_at(bytes, at, expected);
    assert(expected[0] == a && expected[1] == b);
    if bytes_at(bytes, at, expected) {
        assert(bytes[at + 0] == expected[0] && bytes[at + 1] == expected[1]);
    }
}

proof fn lemma_three_at(bytes: Seq<u8>, at: int, a: u8, b: u8, c: u8)
    requires
        0 <= at,
    ensures
        bytes_at(bytes, at, seq![a, b, c]) <==> at + 3 <= bytes.len() && bytes[at] == a && bytes[at + 1]
            == b && bytes[at + 2] == c,
{
    let expected = seq![a, b, c];
    lemma_bytes_at(bytes, at, expected);
    assert(expected[0] == a && expected[1] == b && expected[2] == c);
    if bytes_at(bytes, at, expected) {
        assert(bytes[at + 0] == expected[0] && bytes[at + 1] == expected[1] && bytes[at + 2]
            == expected[2]);
    }
}

proof fn lemma_four_at(bytes: Seq<u8>, at: int, a: u8, b: u8, c: u8, d: u8)
    requires
        0 <= at,
    ensures
        bytes_at(bytes, at, seq![a, b, c, d]) <==> four_at(bytes, at, a, b, c, d),
{
    let expected = seq![a, b, c, d];
    lemma_bytes_at(bytes, at, expected);
    assert(expected[0] == a && expected[1] == b && expected[2] == c && expected[3] == d);
    if bytes_at(bytes, at, expected) {
        assert(bytes[at + 0] == expected[0] && bytes[at + 1] == expected[1] && bytes[at + 2]
            == expected[2] && bytes[at + 3] == expected[3]);
    }
}

/// Four given bytes stand at a position.
pub open spec fn four_at(bytes: Seq<u8>, at: int, a: u8, b: u8, c: u8, d: u8) -> bool {
    &&& at + 4 <= bytes.len()
    &&& bytes[at] == a
    &&& bytes[at + 1] == b
    &&& bytes[at + 2] == c
    &&& bytes[at + 3] == d
}

/// A `RIFF` file of the form `WEBP` is a WebP image, and one of the form `AVI ` is an
/// AVI video.
pub proof fn law_riff_forms(h: Seq<u8>)
    requires
        four_at(h, 0, 0x52, 0x49, 0x46, 0x46),
    ensures
        four_at(h, 8, 0x57, 0x45, 0x42, 0x50) <==> signature_type(h) == Some(CachedFileType::Webp),
        four_at(h, 8, 0x41, 0x56, 0x49, 0x20) <==> signature_type(h) == Some(CachedFileType::Avi),
        four_at(h, 8, 0x57, 0x45, 0x42, 0x50) ==> (signature_type(h)->0).spec_media_kind()
            == CachedMediaKind::Image,
        four_at(h, 8, 0x41, 0x56, 0x49, 0x20) ==> (signature_type(h)->0).spec_media_kind()
            == CachedMediaKind::Video,
{
    lemma_signatures(h);
}

/// The signatures of the types that are told by their first bytes.
pub proof fn law_leading_bytes_tell_the_type(h: Seq<u8>)
    ensures
        h.len() >= 3 && h[0] == 0xff && h[1] == 0xd8 && h[2] == 0xff <==> signature_type(h) == Some(
            CachedFileType::Jpeg,
        ),
        four_at(h, 0, 0x89, 0x50, 0x4e, 0x47) && four_at(h, 4, 0x0d, 0x0a, 0x1a, 0x0a)
            <==> signature_type(h) == Some(CachedFileType::Png),
        four_at(h, 0, 0x47, 0x49, 0x46, 0x38) && h.len() >= 6 && (h[4] == 0x37 || h[4] == 0x39) && h[5]
            == 0x61 <==> signature_type(h) == Some(CachedFileType::Gif),
        h.len() >= 2 && h[0] == 0x42 && h[1] == 0x4d <==> signature_type(h) == Some(
            CachedFileType::Bmp,
        ),
        four_at(h, 0, 0x38, 0x42, 0x50, 0x53) <==> signature_type(h) == Some(CachedFileType::Psd),
        four_at(h, 0, 0, 0, 1, 0) <==> signature_type(h) == Some(CachedFileType::Ico),
        four_at(h, 0, 0x49, 0x49, 0x2a, 0) || four_at(h, 0, 0x4d, 0x4d, 0, 0x2a) <==> signature_type(h)
            == Some(CachedFileType::Tiff),
        h.len() >= 3 && h[0] == 0x46 && h[1] == 0x4c && h[2] == 0x56 <==> signature_type(h) == Some(
            CachedFileType::Flv,
        ),
        four_at(h, 0, 0x4f, 0x67, 0x67, 0x53) <==> signature_type(h) == Some(CachedFileType::Ogv),
        four_at(h, 0, 0x30, 0x26, 0xb2, 0x75) && four_at(h, 4, 0x8e, 0x66, 0xcf, 0x11) && four_at(
            h,
            8,
            0xa6,
            0xd9,
            0x00,
            0xaa,
        ) && four_at(h, 12, 0x00, 0x62, 0xce, 0x6c) <==> signature_type(h) == Some(
            CachedFileType::Wmv,
        ),
        four_at(h, 0, 0x1a, 0x45, 0xdf, 0xa3) <==> signature_type(h) == Some(CachedFileType::Mkv)
            || signature_type(h) == Some(CachedFileType::Webm),
        signature_type(h) == Some(CachedFileType::Webp) || signature_type(h) == Some(
            CachedFileType::Avi,
        ) ==> four_at(h, 0, 0x52, 0x49, 0x46, 0x46),
{
    lemma_signatures(h);
}

/// The letters w, e, b and m stand at a position, large or small.
pub open spec fn spells_webm(h: Seq<u8>, i: int) -> bool {
    &&& 0 <= i
    &&& i + 4 <= h.len()
    &&& h[i] == 0x77 || h[i] == 0x57
    &&& h[i + 1] == 0x65 || h[i + 1] == 0x45
    &&& h[i + 2] == 0x62 || h[i + 2] == 0x42
    &&& h[i + 3] == 0x6d || h[i + 3] == 0x4d
}

/// A Matroska file is a WebM video exactly when its header spells that name
/// somewhere.
pub proof fn law_matroska_files_name_webm(h: Seq<u8>)
    requires
        four_at(h, 0, 0x1a, 0x45, 0xdf, 0xa3),
    ensures
        signature_type(h) == Some(CachedFileType::Webm) <==> exists|i: int| #[trigger]
            spells_webm(h, i),
        signature_type(h) == Some(CachedFileType::Mkv) <==> !exists|i: int| #[trigger]
            spells_webm(h, i),
{
    lemma_signatures(h);
    if names_webm(h) {
        let i = choose|i: int| #[trigger] webm_at(h, i);
        assert(spells_webm(h, i));
    }
    if exists|i: int| #[trigger] spells_webm(h, i) {
        let i = choose|i: int| #[trigger] spells_webm(h, i);
        assert(webm_at(h, i));
    }
}

/// A file whose second word is `ftyp`, after a box length that no other signature
/// begins with, is of the type that its brand names: QuickTime, iTunes video, a
/// mobile phone's, and MPEG-4 otherwise.
pub proof fn law_brands_tell_the_type(h: Seq<u8>)
    requires
        h.len() >= 12,
        h[0] == 0,
        !four_at(h, 0, 0, 0, 1, 0),
        four_at(h, 4, 0x66, 0x74, 0x79, 0x70),
    ensures
        four_at(h, 8, 0x71, 0x74, 0x20, 0x20) <==> signature_type(h) == Some(CachedFileType::Mov),
        four_at(h, 8, 0x4d, 0x34, 0x56, 0x20) || four_at(h, 8, 0x6d, 0x34, 0x76, 0x20)
            <==> signature_type(h) == Some(CachedFileType::M4v),
        h[8] == 0x33 && h[9] == 0x67 <==> signature_type(h) == Some(CachedFileType::ThreeGp),
        !four_at(h, 8, 0x71, 0x74, 0x20, 0x20) && !four_at(h, 8, 0x4d, 0x34, 0x56, 0x20) && !four_at(
            h,
            8,
            0x6d,
            0x34,
            0x76,
            0x20,
        ) && !(h[8] == 0x33 && h[9] == 0x67) <==> signature_type(h) == Some(CachedFileType::Mp4),
{
    lemma_signatures(h);
}

/// A file is of one of these types only if `ftyp` is its second word.
pub proof fn law_branded_types_have_a_brand(h: Seq<u8>)
    requires
        signature_type(h) matches Some(t) && (t is Mov || t is M4v || t is ThreeGp || t is Mp4),
    ensures
        h.len() >= 12,
        four_at(h, 4, 0x66, 0x74, 0x79, 0x70),
{
    lemma_signatures(h);
}

proof fn lemma_signatures(h: Seq<u8>)
    ensures
        bytes_at(h, 0, seq![0xff, 0xd8, 0xff]) <==> h.len() >= 3 && h[0] == 0xff && h[1] == 0xd8 && h[2]
            == 0xff,
        bytes_at(h, 0, seq![0x89, 80, 78, 71, 13, 10, 0x1a, 10]) <==> four_at(h, 0, 0x89, 80, 78, 71)
            && four_at(h, 4, 13, 10, 0x1a, 10),
        bytes_at(h, 0, seq![71, 73, 70, 56, 55, 97]) <==> four_at(h, 0, 71, 73, 70, 56) && h.len() >= 6
            && h[4] == 55 && h[5] == 97,
        bytes_at(h, 0, seq![71, 73, 70, 56, 57, 97]) <==> four_at(h, 0, 71, 73, 70, 56) && h.len() >= 6
            && h[4] == 57 && h[5] == 97,
        bytes_at(h, 0, seq![66, 77]) <==> h.len() >= 2 && h[0] == 66 && h[1] == 77,
        bytes_at(h, 0, seq![82, 73, 70, 70]) <==> four_at(h, 0, 82, 73, 70, 70),
        bytes_at(h, 8, seq![87, 69, 66, 80]) <==> four_at(h, 8, 87, 69, 66, 80),
        bytes_at(h, 8, seq![65, 86, 73, 32]) <==> four_at(h, 8, 65, 86, 73, 32),
        bytes_at(h, 0, seq![56, 66, 80, 83]) <==> four_at(h, 0, 56, 66, 80, 83),
        bytes_at(h, 0, seq![0, 0, 1, 0]) <==> four_at(h, 0, 0, 0, 1, 0),
        bytes_at(h, 0, seq![73, 73, 42, 0]) <==> four_at(h, 0, 73, 73, 42, 0),
        bytes_at(h, 0, seq![77, 77, 0, 42]) <==> four_at(h, 0, 77, 77, 0, 42),
        bytes_at(h, 0, seq![70, 76, 86]) <==> h.len() >= 3 && h[0] == 70 && h[1] == 76 && h[2] == 86,
        bytes_at(h, 0, seq![79, 103, 103, 83]) <==> four_at(h, 0, 79, 103, 103, 83),
        bytes_at(
            h,
            0,
            seq![
                0x30,
                0x26,
                0xb2,
                0x75,
                0x8e,
                0x66,
                0xcf,
                0x11,
                0xa6,
                0xd9,
                0x00,
                0xaa,
                0x00,
                0x62,
                0xce,
                0x6c,
            ],
        ) <==> four_at(h, 0, 0x30, 0x26, 0xb2, 0x75) && four_at(h, 4, 0x8e, 0x66, 0xcf, 0x11) && four_at(
            h,
            8,
            0xa6,
            0xd9,
            0x00,
            0xaa,
        ) && four_at(h, 12, 0x00, 0x62, 0xce, 0x6c),
        bytes_at(h, 0, seq![0x1a, 0x45, 0xdf, 0xa3]) <==> four_at(h, 0, 0x1a, 0x45, 0xdf, 0xa3),
        bytes_at(h, 4, seq![102, 116, 121, 112]) <==> four_at(h, 4, 102, 116, 121, 112),
        bytes_at(h, 8, seq![113, 116, 32, 32]) <==> four_at(h, 8, 113, 116, 32, 32),
        bytes_at(h, 8, seq![77, 52, 86, 32]) <==> four_at(h, 8, 77, 52, 86, 32),
        bytes_at(h, 8, seq![109, 52, 118, 32]) <==> four_at(h, 8, 109, 52, 118, 32),
        bytes_at(h, 8, seq![51, 103]) <==> h.len() >= 10 && h[8] == 51 && h[9] == 103,
{
    lemma_three_at(h, 0, 0xff, 0xd8, 0xff);
    lemma_two_at(h, 0, 66, 77);
    lemma_four_at(h, 0, 82, 73, 70, 70);
    lemma_four_at(h, 8, 87, 69, 66, 80);
    lemma_four_at(h, 8, 65, 86, 73, 32);
    lemma_four_at(h, 0, 56, 66, 80, 83);
    lemma_four_at(h, 0, 0, 0, 1, 0);
    lemma_four_at(h, 0, 73, 73, 42, 0);
    lemma_four_at(h, 0, 77, 77, 0, 42);
    lemma_three_at(h, 0, 70, 76, 86);
    lemma_four_at(h, 0, 79, 103, 103, 83);
    lemma_four_at(h, 0, 0x1a, 0x45, 0xdf, 0xa3);
    lemma_four_at(h, 4, 102, 116, 121, 112);
    lemma_four_at(h, 8, 113, 116, 32, 32);
    lemma_four_at(h, 8, 77, 52, 86, 32);
    lemma_four_at(h, 8, 109, 52, 118, 32);
    lemma_two_at(h, 8, 51, 103);
    lemma_long_signatures(h);
}

proof fn lemma_long_signatures(h: Seq<u8>)
    ensures
        bytes_at(h, 0, seq![0x89, 80, 78, 71, 13, 10, 0x1a, 10]) <==> four_at(h, 0, 0x89, 80, 78, 71)
            && four_at(h, 4, 13, 10, 0x1a, 10),
        bytes_at(h, 0, seq![71, 73, 70, 56, 55, 97]) <==> four_at(h, 0, 71, 73, 70, 56) && h.len() >= 6
            && h[4] == 55 && h[5] == 97,
        bytes_at(h, 0, seq![71, 73, 70, 56, 57, 97]) <==> four_at(h, 0, 71, 73, 70, 56) && h.len() >= 6
            && h[4] == 57 && h[5] == 97,
        bytes_at(
            h,
            0,
            seq![
                0x30,
                0x26,
                0xb2,
                0x75,
                0x8e,
                0x66,
                0xcf,
                0x11,
                0xa6,
                0xd9,
                0x00,
                0xaa,
                0x00,
                0x62,
                0xce,
                0x6c,
            ],
        ) <==> four_at(h, 0, 0x30, 0x26, 0xb2, 0x75) && four_at(h, 4, 0x8e, 0x66, 0xcf, 0x11) && four_at(
            h,
            8,
            0xa6,
            0xd9,
            0x00,
            0xaa,
        ) && four_at(h, 12, 0x00, 0x62, 0xce, 0x6c),
{
    let png: Seq<u8> = seq![0x89, 80, 78, 71, 13, 10, 0x1a, 10];
    let old_gif: Seq<u8> = seq![71, 73, 70, 56, 55, 97];
    let new_gif: Seq<u8> = seq![71, 73, 70, 56, 57, 97];
    let asf: Seq<u8> = seq![
        0x30,
        0x26,
        0xb2,
        0x75,
        0x8e,
        0x66,
        0xcf,
        0x11,
        0xa6,
        0xd9,
        0x00,
        0xaa,
        0x00,
        0x62,
        0xce,
        0x6c,
    ];
    lemma_bytes_at(h, 0, png);
    lemma_bytes_at(h, 0, old_gif);
    lemma_bytes_at(h, 0, new_gif);
    lemma_bytes_at(h, 0, asf);
    if bytes_at(h, 0, png) {
        assert(h[0int + 0] == png[0] && h[0int + 1] == png[1] && h[0int + 2] == png[2] && h[0int + 3] == png[3]);
        assert(h[0int + 4] == png[4] && h[0int + 5] == png[5] && h[0int + 6] == png[6] && h[0int + 7] == png[7]);
    }
    if bytes_at(h, 0, old_gif) {
        assert(h[0int + 0] == old_gif[0] && h[0int + 1] == old_gif[1] && h[0int + 2] == old_gif[2]);
        assert(h[0int + 3] == old_gif[3] && h[0int + 4] == old_gif[4] && h[0int + 5] == old_gif[5]);
    }
    if bytes_at(h, 0, new_gif) {
        assert(h[0int + 0] == new_gif[0] && h[0int + 1] == new_gif[1] && h[0int + 2] == new_gif[2]);
        assert(h[0int + 3] == new_gif[3] && h[0int + 4] == new_gif[4] && h[0int + 5] == new_gif[5]);
    }
    if bytes_at(h, 0, asf) {
        assert(h[0int + 0] == asf[0] && h[0int + 1] == asf[1] && h[0int + 2] == asf[2] && h[0int + 3] == asf[3]);
        assert(h[0int + 4] == asf[4] && h[0int + 5] == asf[5] && h[0int + 6] == asf[6] && h[0int + 7] == asf[7]);
        assert(h[0int + 8] == asf[8] && h[0int + 9] == asf[9] && h[0int + 10] == asf[10] && h[0int + 11]
            == asf[11]);
        assert(h[0int + 12] == asf[12] && h[0int + 13] == asf[13] && h[0int + 14] == asf[14] && h[0int + 15]
            == asf[15]);
    }
}

/// Only a `RIFF` file of the form `WEBP` is asked whether it moves.
pub proof fn law_only_webp_files_answer(h: Seq<u8>)
    ensures
        !four_at(h, 0, 0x52, 0x49, 0x46, 0x46) || !four_at(h, 8, 0x57, 0x45, 0x42, 0x50) ==> webp_animated(
            h,
        ) is None,
{
    lemma_four_at(h, 0, 82, 73, 70, 70);
    lemma_four_at(h, 8, 87, 69, 66, 80);
}

/// The chunk at `at` lies in `h`, and the next one begins at `next`: chunks are padded
/// to an even length, and their length is written from the lowest byte on.
pub open spec fn chunk_until(h: Seq<u8>, at: int, next: int) -> bool {
    let size = h[at + 4] + 0x100 * h[at + 5] + 0x1_0000 * h[at + 6] + 0x100_0000 * h[at + 7];
    &&& 0 <= at
    &&& at + 8 + size <= h.len()
    &&& next == at + 8 + size || next == at + 9 + size
    &&& (next - at) % 2 == 0
}

pub open spec fn tells_of_animation(h: Seq<u8>, at: int) -> bool {
    ||| four_at(h, at, 0x56, 0x50, 0x38, 0x58)
    ||| four_at(h, at, 0x41, 0x4e, 0x49, 0x4d)
    ||| four_at(h, at, 0x41, 0x4e, 0x4d, 0x46)
}

/// The chunks of a WebP file up to the one at `starts.last()`, of which the ones
/// before tell nothing of an animation.
pub open spec fn silent_chunks(h: Seq<u8>, starts: Seq<int>) -> bool {
    &&& starts.len() > 0
    &&& starts[0] == 12
    &&& forall|k: int|
        0 <= k < starts.len() - 1 ==> chunk_until(h, #[trigger] starts[k], starts[k + 1])
            && !tells_of_animation(h, starts[k])
}

proof fn lemma_silent_chunk(h: Seq<u8>, at: int, next: int)
    requires
        h.len() < usize::MAX - 16,
        chunk_until(h, at, next),
        !tells_of_animation(h, at),
    ensures
        at < next <= h.len() + 1,
        webp_chunks_animated(h, at) == webp_chunks_animated(h, next),
{
    lemma_four_at(h, at, 86, 80, 56, 88);
    lemma_four_at(h, at, 65, 78, 73, 77);
    lemma_four_at(h, at, 65, 78, 77, 70);
    let size = u32_le(h, at + 4);
    assert(size >= 0);
    assert(next == at + 8 + size + size % 2);
}

proof fn lemma_silent_chunks(h: Seq<u8>, starts: Seq<int>)
    requires
        h.len() < usize::MAX - 16,
        silent_chunks(h, starts),
        four_at(h, 0, 0x52, 0x49, 0x46, 0x46),
        four_at(h, 8, 0x57, 0x45, 0x42, 0x50),
    ensures
        0 <= starts.last() <= h.len() + 1,
        webp_animated(h) == webp_chunks_animated(h, starts.last()),
    decreases starts.len(),
{
    if starts.len() > 1 {
        let before = starts.drop_last();
        assert forall|k: int| 0 <= k < before.len() - 1 implies chunk_until(
            h,
            #[trigger] before[k],
            before[k + 1],
        ) && !tells_of_animation(h, before[k]) by {
            assert(before[k] == starts[k] && before[k + 1] == starts[k + 1]);
        }
        lemma_silent_chunks(h, before);
        let k = starts.len() - 2;
        assert(before.last() == starts[k] && starts.last() == starts[k + 1]);
        lemma_silent_chunk(h, starts[k], starts[k + 1]);
    } else {
        lemma_four_at(h, 0, 82, 73, 70, 70);
        lemma_four_at(h, 8, 87, 69, 66, 80);
    }
}

/// The first chunk that tells of an animation decides: the second lowest bit of the
/// flags of a `VP8X` chunk, and the mere presence of an `ANIM` or `ANMF` chunk.
pub proof fn law_first_telling_chunk_decides(h: Seq<u8>, starts: Seq<int>, next: int)
    requires
        h.len() < usize::MAX - 16,
        four_at(h, 0, 0x52, 0x49, 0x46, 0x46),
        four_at(h, 8, 0x57, 0x45, 0x42, 0x50),
        silent_chunks(h, starts),
        chunk_until(h, starts.last(), next),
        tells_of_animation(h, starts.last()),
        next > starts.last() + 8,
    ensures
        ({
            let at = starts.last();
            webp_animated(h) == Some(
                if four_at(h, at, 0x56, 0x50, 0x38, 0x58) {
                    h[at + 8] & 2 == 2
                } else {
                    true
                },
            )
        }),
{
    let at = starts.last();
    lemma_four_at(h, 0, 82, 73, 70, 70);
    lemma_four_at(h, 8, 87, 69, 66, 80);
    lemma_silent_chunks(h, starts);
    lemma_four_at(h, at, 86, 80, 56, 88);
    lemma_four_at(h, at, 65, 78, 73, 77);
    lemma_four_at(h, at, 65, 78, 77, 70);
    let flags = h[at + 8];
    assert((flags / 2) % 2 == 1 <==> flags & 2 == 2) by (bit_vector);
}

/// A file whose chunks end without one that tells of an animation is still.
pub proof fn law_silent_files_are_still(h: Seq<u8>, starts: Seq<int>)
    requires
        h.len() < usize::MAX - 16,
        four_at(h, 0, 0x52, 0x49, 0x46, 0x46),
        four_at(h, 8, 0x57, 0x45, 0x42, 0x50),
        silent_chunks(h, starts),
        starts.last() + 8 > h.len(),
    ensures
        webp_animated(h) == Some(false),
{
    lemma_four_at(h, 0, 82, 73, 70, 70);
    lemma_four_at(h, 8, 87, 69, 66, 80);
    lemma_silent_chunks(h, starts);
}

/// Two frames make an animation and one does not; nothing is known of a file that is
/// no GIF file, or that breaks off before its second frame is due.
pub proof fn law_two_frames_move(frames: Seq<bool>)
    ensures
        gif_animated(None) is None,
        frames.len() == 0 ==> gif_animated(Some(frames)) == Some(false),
        frames.len() == 1 && frames[0] ==> gif_animated(Some(frames)) == Some(false),
        frames.len() >= 2 && frames[0] && frames[1] ==> gif_animated(Some(frames)) == Some(true),
        frames.len() >= 1 && !frames[0] ==> gif_animated(Some(frames)) is None,
        frames.len() >= 2 && frames[0] && !frames[1] ==> gif_animated(Some(frames)) is None,
{
    if frames.len() >= 2 {
        assert(frames.skip(1)[0] == frames[1]);
    }
}

/// What a GIF or a WebP file says of itself counts; everything else is taken to
/// move.
pub proof fn law_unknown_files_are_taken_to_move(file_type: CachedFileType, answer: Option<bool>)
    ensures
        animated_or_assumed(file_type, answer) <==> !((file_type is Gif || file_type is Webp) && answer
            == Some(false)),
{
}

/// Only the start of a long WebP file is looked at, and all of a short one.
pub proof fn law_probe_window_is_the_start(content: Seq<u8>, i: int)
    ensures
        probe_window(content).len() <= 65536,
        content.len() <= 65536 ==> probe_window(content) == content,
        content.len() > 65536 ==> probe_window(content).len() == 65536,
        0 <= i < probe_window(content).len() ==> probe_window(content)[i] == content[i],
{
}

/// What the first bytes of a file tell: a RIFF file is a WebP picture or an AVI video
/// by its form, and the other types have a signature of their own.
pub proof fn law_headers_tell_the_type(header: &[u8], file_type: Option<CachedFileType>)
    requires
        call_ensures(detect_file_type_from_header, (header,), file_type),
    ensures
        ({
            let h = header@;
            let riff = four_at(h, 0, 0x52, 0x49, 0x46, 0x46);
            &&& file_type == Some(CachedFileType::Webp) <==> riff && four_at(
                h,
                8,
                0x57,
                0x45,
                0x42,
                0x50,
            )
            &&& file_type == Some(CachedFileType::Avi) <==> riff && four_at(
                h,
                8,
                0x41,
                0x56,
                0x49,
                0x20,
            )
            &&& file_type == Some(CachedFileType::Jpeg) <==> h.len() >= 3 && h[0] == 0xff && h[1]
                == 0xd8 && h[2] == 0xff
            &&& file_type == Some(CachedFileType::Png) <==> four_at(h, 0, 0x89, 0x50, 0x4e, 0x47)
                && four_at(h, 4, 0x0d, 0x0a, 0x1a, 0x0a)
            &&& file_type == Some(CachedFileType::Gif) <==> four_at(h, 0, 0x47, 0x49, 0x46, 0x38)
                && h.len() >= 6 && (h[4] == 0x37 || h[4] == 0x39) && h[5] == 0x61
            &&& file_type == Some(CachedFileType::Bmp) <==> h.len() >= 2 && h[0] == 0x42 && h[1]
                == 0x4d
            &&& file_type == Some(CachedFileType::Psd) <==> four_at(h, 0, 0x38, 0x42, 0x50, 0x53)
            &&& file_type == Some(CachedFileType::Ico) <==> four_at(h, 0, 0, 0, 1, 0)
            &&& file_type == Some(CachedFileType::Tiff) <==> four_at(h, 0, 0x49, 0x49, 0x2a, 0)
                || four_at(h, 0, 0x4d, 0x4d, 0, 0x2a)
            &&& file_type == Some(CachedFileType::Flv) <==> h.len() >= 3 && h[0] == 0x46 && h[1]
                == 0x4c && h[2] == 0x56
            &&& file_type == Some(CachedFileType::Ogv) <==> four_at(h, 0, 0x4f, 0x67, 0x67, 0x53)
            &&& four_at(h, 0, 0x1a, 0x45, 0xdf, 0xa3) <==> file_type == Some(CachedFileType::Mkv)
                || file_type == Some(CachedFileType::Webm)
            &&& file_type == Some(CachedFileType::Webm) ==> exists|i: int| #[trigger]
                spells_webm(h, i)
            &&& file_type == Some(CachedFileType::Mkv) ==> !exists|i: int| #[trigger]
                spells_webm(h, i)
        }),
{
    let h = header@;
    law_leading_bytes_tell_the_type(h);
    if four_at(h, 0, 0x52, 0x49, 0x46, 0x46) {
        law_riff_forms(h);
    } else {
        lemma_signatures(h);
    }
    if four_at(h, 0, 0x1a, 0x45, 0xdf, 0xa3) {
        law_matroska_files_name_webm(h);
    }
}

/// Of a file with a brand the type is told by it.
pub proof fn law_branded_headers_tell_the_type(header: &[u8], file_type: Option<CachedFileType>)
    requires
        call_ensures(detect_file_type_from_header, (header,), file_type),
        header@.len() >= 12,
        header@[0] == 0,
        !four_at(header@, 0, 0, 0, 1, 0),
        four_at(header@, 4, 0x66, 0x74, 0x79, 0x70),
    ensures
        four_at(header@, 8, 0x71, 0x74, 0x20, 0x20) <==> file_type == Some(CachedFileType::Mov),
        four_at(header@, 8, 0x4d, 0x34, 0x56, 0x20) || four_at(header@, 8, 0x6d, 0x34, 0x76, 0x20)
            <==> file_type == Some(CachedFileType::M4v),
        header@[8] == 0x33 && header@[9] == 0x67 <==> file_type == Some(CachedFileType::ThreeGp),
        file_type matches Some(t) && (t is Mov || t is M4v || t is ThreeGp || t is Mp4),
{
    law_brands_tell_the_type(header@);
}

/// A picture is still only if its own file says so.
pub proof fn law_files_decide_whether_they_move(
    file_type: CachedFileType,
    content: Option<&[u8]>,
    animated: bool,
    bytes: &[u8],
    webp: Option<bool>,
    gif: Option<bool>,
)
    requires
        call_ensures(detect_animated, (file_type, content), animated),
        call_ensures(webp_is_animated, (bytes,), webp),
        call_ensures(gif_is_animated, (bytes,), gif),
        content is Some ==> content == Some(bytes),
    ensures
        content is None ==> animated,
        file_type is Webp && content is Some ==> (!animated <==> webp == Some(false)),
        file_type is Gif && content is Some ==> (!animated <==> gif == Some(false)),
        !(file_type is Webp) && !(file_type is Gif) ==> animated,
        bytes@.len() >= 12 && !four_at(bytes@, 8, 0x57, 0x45, 0x42, 0x50) ==> webp is None,
{
    if bytes@.len() >= 12 && !four_at(bytes@, 8, 0x57, 0x45, 0x42, 0x50) {
        let window = probe_window(bytes@);
        law_probe_window_is_the_start(bytes@, 8);
        law_probe_window_is_the_start(bytes@, 9);
        law_probe_window_is_the_start(bytes@, 10);
        law_probe_window_is_the_start(bytes@, 11);
        assert(!four_at(window, 8, 0x57, 0x45, 0x42, 0x50));
        law_only_webp_files_answer(window);
    }
}

/// The header of an extended WebP file says by one bit of its flags whether it moves.
pub proof fn law_extended_headers_have_a_flag(header: &[u8], animated: Option<bool>)
    requires
        call_ensures(webp_header_is_animated, (header,), animated),
        18 + 12 <= header@.len() < usize::MAX - 16,
        four_at(header@, 0, 0x52, 0x49, 0x46, 0x46),
        four_at(header@, 8, 0x57, 0x45, 0x42, 0x50),
        four_at(header@, 12, 0x56, 0x50, 0x38, 0x58),
        four_at(header@, 16, 0x0a, 0, 0, 0),
    ensures
        animated == Some(header@[20] & 2 == 2),
{
    let starts = seq![12int];
    assert(silent_chunks(header@, starts));
    assert(chunk_until(header@, 12, 30));
    law_first_telling_chunk_decides(header@, starts, 30);
}

/// The two first frames of a GIF file decide.
pub proof fn law_two_steps_decide(first: GifStep, second: GifStep, animated: Option<bool>)
    requires
        call_ensures(frames_are_animated, (first, second), animated),
    ensures
        animated == Some(true) <==> first is Frame && second is Frame,
        animated == Some(false) <==> first is End || (first is Frame && second is End),
{
}

/// What is not known of a file is taken to be motion.
pub proof fn law_motion_is_assumed(file_type: CachedFileType, answer: Option<bool>, animated: bool)
    requires
        call_ensures(assume_animated, (file_type, answer), animated),
    ensures
        !animated <==> (file_type is Gif || file_type is Webp) && answer == Some(false),
{
}

} // verus!
