//! The records of the metadata cache and their text form.
//!
//! A record is stored as four decimal numbers with commas between them: width,
//! height, file type code, and whether the file is animated.

use crate::text::characters;
use vstd::prelude::*;

verus! {

#[derive(Clone, Copy, Debug, PartialEq, Eq, Structural)]
pub enum CachedMediaKind {
    Image,
    Video,
}

#[derive(Clone, Copy, Debug, PartialEq, Eq, Structural)]
pub enum CachedFileType {
    Jpeg,
    Png,
    Gif,
    Bmp,
    Webp,
    Psd,
    Ico,
    Tiff,
    Mp4,
    Mkv,
    Webm,
    Avi,
    Mov,
    Wmv,
    Flv,
    M4v,
    ThreeGp,
    Ogv,
}

impl CachedMediaKind {
    /// Whether files of `file_type` are of this kind.
    pub fn matches_file_type(self, file_type: CachedFileType) -> (matched: bool)
        ensures
            matched == (file_type.spec_media_kind() == self),
    {
        file_type.media_kind() == self
    }
}

impl CachedFileType {
    /// The number that stands for the file type in stored records.
    pub open spec fn spec_code(self) -> u16 {
        match self {
            CachedFileType::Jpeg => 1,
            CachedFileType::Png => 2,
            CachedFileType::Gif => 3,
            CachedFileType::Bmp => 4,
            CachedFileType::Webp => 5,
            CachedFileType::Psd => 6,
            CachedFileType::Ico => 7,
            CachedFileType::Tiff => 8,
            CachedFileType::Mp4 => 100,
            CachedFileType::Mkv => 101,
            CachedFileType::Webm => 102,
            CachedFileType::Avi => 103,
            CachedFileType::Mov => 104,
            CachedFileType::Wmv => 105,
            CachedFileType::Flv => 106,
            CachedFileType::M4v => 107,
            CachedFileType::ThreeGp => 108,
            CachedFileType::Ogv => 109,
        }
    }

    /// Images have codes below one hundred, videos above.
    pub open spec fn spec_media_kind(self) -> CachedMediaKind {
        if self.spec_code() < 100 {
            CachedMediaKind::Image
        } else {
            CachedMediaKind::Video
        }
    }

    /// The usual file name extension.
    pub open spec fn spec_extension(self) -> Seq<char> {
        match self {
            CachedFileType::Jpeg => "jpg"@,
            CachedFileType::Png => "png"@,
            CachedFileType::Gif => "gif"@,
            CachedFileType::Bmp => "bmp"@,
            CachedFileType::Webp => "webp"@,
            CachedFileType::Psd => "psd"@,
            CachedFileType::Ico => "ico"@,
            CachedFileType::Tiff => "tiff"@,
            CachedFileType::Mp4 => "mp4"@,
            CachedFileType::Mkv => "mkv"@,
            CachedFileType::Webm => "webm"@,
            CachedFileType::Avi => "avi"@,
            CachedFileType::Mov => "mov"@,
            CachedFileType::Wmv => "wmv"@,
            CachedFileType::Flv => "flv"@,
            CachedFileType::M4v => "m4v"@,
            CachedFileType::ThreeGp => "3gp"@,
            CachedFileType::Ogv => "ogv"@,
        }
    }

    pub fn code(self) -> (code: u16)
        ensures
            code == self.spec_code(),
    {
        match self {
            CachedFileType::Jpeg => 1,
            CachedFileType::Png => 2,
            CachedFileType::Gif => 3,
            CachedFileType::Bmp => 4,
            CachedFileType::Webp => 5,
            CachedFileType::Psd => 6,
            CachedFileType::Ico => 7,
            CachedFileType::Tiff => 8,
            CachedFileType::Mp4 => 100,
            CachedFileType::Mkv => 101,
            CachedFileType::Webm => 102,
            CachedFileType::Avi => 103,
            CachedFileType::Mov => 104,
            CachedFileType::Wmv => 105,
            CachedFileType::Flv => 106,
            CachedFileType::M4v => 107,
            CachedFileType::ThreeGp => 108,
            CachedFileType::Ogv => 109,
        }
    }

    /// The file type with the given code.
    pub fn from_code(code: u16) -> (file_type: Option<Self>)
        ensures
            file_type matches Some(t) ==> t.spec_code() == code,
            file_type is None ==> forall|t: CachedFileType| #![trigger t.spec_code()] t.spec_code() != code,
    {
        match code {
            1 => Some(CachedFileType::Jpeg),
            2 => Some(CachedFileType::Png),
            3 => Some(CachedFileType::Gif),
            4 => Some(CachedFileType::Bmp),
            5 => Some(CachedFileType::Webp),
            6 => Some(CachedFileType::Psd),
            7 => Some(CachedFileType::Ico),
            8 => Some(CachedFileType::Tiff),
            100 => Some(CachedFileType::Mp4),
            101 => Some(CachedFileType::Mkv),
            102 => Some(CachedFileType::Webm),
            103 => Some(CachedFileType::Avi),
            104 => Some(CachedFileType::Mov),
            105 => Some(CachedFileType::Wmv),
            106 => Some(CachedFileType::Flv),
            107 => Some(CachedFileType::M4v),
            108 => Some(CachedFileType::ThreeGp),
            109 => Some(CachedFileType::Ogv),
            _ => None,
        }
    }

    pub fn extension(self) -> (extension: &'static str)
        ensures
            extension@ == self.spec_extension(),
    {
        match self {
            CachedFileType::Jpeg => "jpg",
            CachedFileType::Png => "png",
            CachedFileType::Gif => "gif",
            CachedFileType::Bmp => "bmp",
            CachedFileType::Webp => "webp",
            CachedFileType::Psd => "psd",
            CachedFileType::Ico => "ico",
            CachedFileType::Tiff => "tiff",
            CachedFileType::Mp4 => "mp4",
            CachedFileType::Mkv => "mkv",
            CachedFileType::Webm => "webm",
            CachedFileType::Avi => "avi",
            CachedFileType::Mov => "mov",
            CachedFileType::Wmv => "wmv",
            CachedFileType::Flv => "flv",
            CachedFileType::M4v => "m4v",
            CachedFileType::ThreeGp => "3gp",
            CachedFileType::Ogv => "ogv",
        }
    }

    pub fn media_kind(self) -> (kind: CachedMediaKind)
        ensures
            kind == self.spec_media_kind(),
    {
        match self {
            CachedFileType::Jpeg
            | CachedFileType::Png
            | CachedFileType::Gif
            | CachedFileType::Bmp
            | CachedFileType::Webp
            | CachedFileType::Psd
            | CachedFileType::Ico
            | CachedFileType::Tiff => CachedMediaKind::Image,
            CachedFileType::Mp4
            | CachedFileType::Mkv
            | CachedFileType::Webm
            | CachedFileType::Avi
            | CachedFileType::Mov
            | CachedFileType::Wmv
            | CachedFileType::Flv
            | CachedFileType::M4v
            | CachedFileType::ThreeGp
            | CachedFileType::Ogv => CachedMediaKind::Video,
        }
    }
}

/// No two file types share a code.
pub proof fn law_codes_are_distinct(a: CachedFileType, b: CachedFileType)
    requires
        a.spec_code() == b.spec_code(),
    ensures
        a == b,
{
}

/// What the cache keeps of a media file.
#[derive(Clone, Copy, Debug, PartialEq, Eq, Structural)]
pub struct CachedRecord {
    pub width: u32,
    pub height: u32,
    pub file_type: CachedFileType,
    pub animated: bool,
}

/// `String::push`: appends one character.
pub assume_specification[ String::push ](s: &mut String, c: char)
    ensures
        final(s)@ == old(s)@.push(c),
;

/// The digit with the given value.
pub open spec fn digit_char(value: nat) -> char
    recommends
        value < 10,
{
    ('0' as u32 + value) as char
}

pub open spec fn is_digit(c: char) -> bool {
    '0' <= c <= '9'
}

pub open spec fn digit_value(c: char) -> nat {
    (c as u32 - '0' as u32) as nat
}

/// The decimal digits of a number, without leading zeros.
pub open spec fn decimal(n: nat) -> Seq<char>
    decreases n,
{
    if n < 10 {
        seq![digit_char(n)]
    } else {
        decimal(n / 10).push(digit_char(n % 10))
    }
}

/// The number that a sequence of digits writes down.
pub open spec fn decimal_value(digits: Seq<char>) -> nat
    decreases digits.len(),
{
    if digits.len() == 0 {
        0
    } else {
        decimal_value(digits.drop_last()) * 10 + digit_value(digits.last())
    }
}

pub open spec fn all_digits(s: Seq<char>) -> bool {
    forall|i: int| 0 <= i < s.len() ==> is_digit(#[trigger] s[i])
}

/// `s` without a plus sign in front.
pub open spec fn unsigned_part(s: Seq<char>) -> Seq<char> {
    if s.len() > 0 && s[0] == '+' {
        s.skip(1)
    } else {
        s
    }
}

/// The number that `s` denotes, if it denotes one that is not above `max`: one
/// or more digits, with or without a plus sign in front.
pub open spec fn parsed(s: Seq<char>, max: nat) -> Option<nat> {
    let digits = unsigned_part(s);
    if digits.len() > 0 && all_digits(digits) && decimal_value(digits) <= max {
        Some(decimal_value(digits))
    } else {
        None
    }
}

/// The parts of `s` between the commas.
pub open spec fn fields(s: Seq<char>) -> Seq<Seq<char>>
    decreases s.len(),
{
    if s.len() == 0 {
        seq![Seq::empty()]
    } else {
        let before = fields(s.drop_last());
        if s.last() == ',' {
            before.push(Seq::empty())
        } else {
            before.drop_last().push(before.last().push(s.last()))
        }
    }
}

/// The file type with the given code, if there is one.
pub open spec fn coded_type(code: nat) -> Option<CachedFileType> {
    if exists|t: CachedFileType| #[trigger] t.spec_code() == code {
        Some(choose|t: CachedFileType| #[trigger] t.spec_code() == code)
    } else {
        None
    }
}

/// The text form of a record.
pub open spec fn encoded(record: CachedRecord) -> Seq<char> {
    decimal(record.width as nat).push(',') + decimal(record.height as nat).push(',') + decimal(
        record.file_type.spec_code() as nat,
    ).push(',') + decimal(
        if record.animated {
            1
        } else {
            0
        },
    )
}

/// The record that `raw` is the text form of.
pub open spec fn decoded(raw: Seq<char>) -> Option<CachedRecord> {
    let f = fields(raw);
    if f.len() != 4 {
        None
    } else {
        match (
            parsed(f[0], u32::MAX as nat),
            parsed(f[1], u32::MAX as nat),
            parsed(f[2], u16::MAX as nat),
            parsed(f[3], u8::MAX as nat),
        ) {
            (Some(width), Some(height), Some(code), Some(animated)) => match coded_type(code) {
                Some(file_type) => Some(
                    CachedRecord {
                        width: width as u32,
                        height: height as u32,
                        file_type,
                        animated: animated != 0,
                    },
                ),
                None => None,
            },
            _ => None,
        }
    }
}

/// The digits of a number are digits, and they write down that number.
proof fn lemma_decimal(n: nat)
    ensures
        decimal(n).len() > 0,
        all_digits(decimal(n)),
        decimal_value(decimal(n)) == n,
    decreases n,
{
    if n < 10 {
        let s = decimal(n);
        assert(s =~= seq![digit_char(n)]);
        assert(s.drop_last() =~= Seq::empty());
        assert(decimal_value(s.drop_last()) == 0);
        assert(s.last() == digit_char(n));
    } else {
        let rest = decimal(n / 10);
        lemma_decimal(n / 10);
        let s = rest.push(digit_char(n % 10));
        assert(s.drop_last() =~= rest);
        assert forall|i: int| 0 <= i < s.len() implies is_digit(#[trigger] s[i]) by {
            if i < rest.len() {
                assert(s[i] == rest[i]);
            }
        }
    }
}

/// The digits of a number parse as that number.
proof fn lemma_decimal_parses(n: nat, max: nat)
    requires
        n <= max,
    ensures
        parsed(decimal(n), max) == Some(n),
{
    lemma_decimal(n);
    assert(is_digit(decimal(n)[0]));
}

/// A text of digits is a field by itself.
proof fn lemma_fields_single(s: Seq<char>)
    requires
        all_digits(s),
    ensures
        fields(s) == seq![s],
    decreases s.len(),
{
    if s.len() == 0 {
        assert(s =~= Seq::empty());
    } else {
        let init = s.drop_last();
        assert forall|i: int| 0 <= i < init.len() implies is_digit(#[trigger] init[i]) by {
            assert(init[i] == s[i]);
        }
        lemma_fields_single(init);
        assert(is_digit(s[s.len() - 1]));
        assert(init.push(s.last()) =~= s);
        assert(fields(s) =~= seq![s]);
    }
}

/// A comma and a text of digits add one field.
proof fn lemma_fields_append(a: Seq<char>, b: Seq<char>)
    requires
        all_digits(b),
    ensures
        fields(a.push(',') + b) == fields(a).push(b),
    decreases b.len(),
{
    let s = a.push(',') + b;
    if b.len() == 0 {
        assert(s =~= a.push(','));
        assert(s.drop_last() =~= a);
        assert(b =~= Seq::empty());
    } else {
        let init = b.drop_last();
        assert forall|i: int| 0 <= i < init.len() implies is_digit(#[trigger] init[i]) by {
            assert(init[i] == b[i]);
        }
        lemma_fields_append(a, init);
        assert(s.drop_last() =~= a.push(',') + init);
        assert(s.last() == b[b.len() - 1]);
        assert(is_digit(b[b.len() - 1]));
        assert(init.push(b.last()) =~= b);
        assert(fields(s) =~= fields(a).push(b));
    }
}

/// Decoding gives back what was encoded.
pub proof fn law_record_round_trip(record: CachedRecord)
    ensures
        decoded(encoded(record)) == Some(record),
{
    let code = record.file_type.spec_code() as nat;
    let flag: nat = if record.animated {
        1
    } else {
        0
    };
    let w = decimal(record.width as nat);
    let h = decimal(record.height as nat);
    let c = decimal(code);
    let a = decimal(flag);
    lemma_decimal(record.width as nat);
    lemma_decimal(record.height as nat);
    lemma_decimal(code);
    lemma_decimal(flag);
    lemma_decimal_parses(record.width as nat, u32::MAX as nat);
    lemma_decimal_parses(record.height as nat, u32::MAX as nat);
    lemma_decimal_parses(code, u16::MAX as nat);
    lemma_decimal_parses(flag, u8::MAX as nat);
    lemma_fields_single(w);
    lemma_fields_append(w, h);
    lemma_fields_append(w.push(',') + h, c);
    lemma_fields_append((w.push(',') + h).push(',') + c, a);
    let whole = ((w.push(',') + h).push(',') + c).push(',') + a;
    assert(whole =~= encoded(record));
    assert(fields(whole) =~= seq![w, h, c, a]);
    assert(record.file_type.spec_code() == code);
    law_codes_are_distinct(record.file_type, coded_type(code)->0);
}

/// More digits never make a smaller number.
proof fn lemma_value_grows(digits: Seq<char>, n: int)
    requires
        0 <= n <= digits.len(),
    ensures
        decimal_value(digits.take(n)) <= decimal_value(digits),
    decreases digits.len(),
{
    if n == digits.len() {
        assert(digits.take(n) =~= digits);
    } else {
        let init = digits.drop_last();
        lemma_value_grows(init, n);
        assert(init.take(n) =~= digits.take(n));
    }
}

fn digit_of(value: u8) -> (c: char)
    requires
        value < 10,
    ensures
        c == digit_char(value as nat),
{
    match value {
        0 => '0',
        1 => '1',
        2 => '2',
        3 => '3',
        4 => '4',
        5 => '5',
        6 => '6',
        7 => '7',
        8 => '8',
        _ => '9',
    }
}

/// Appends the decimal digits of `n` to `text`.
pub(crate) fn push_decimal(text: &mut String, n: u32)
    ensures
        final(text)@ == old(text)@ + decimal(n as nat),
    decreases n,
{
    let ghost before = text@;
    if n >= 10 {
        push_decimal(text, n / 10);
    }
    text.push(digit_of((n % 10) as u8));
    proof {
        if n >= 10 {
            assert(before + decimal((n / 10) as nat).push(digit_char((n % 10) as nat)) =~= text@);
        } else {
            assert(before + seq![digit_char(n as nat)] =~= text@);
        }
    }
}

/// Parses characters `from` to `to` of `text` as a number that is not above `max`.
fn parse_number(text: &Vec<char>, from: usize, to: usize, max: u32) -> (number: Option<u32>)
    requires
        from <= to <= text@.len(),
    ensures
        number matches Some(n) ==> parsed(text@.subrange(from as int, to as int), max as nat) == Some(
            n as nat,
        ),
        number is None ==> parsed(text@.subrange(from as int, to as int), max as nat) is None,
{
    let ghost s = text@.subrange(from as int, to as int);
    let start: usize = if from < to && text[from] == '+' {
        from + 1
    } else {
        from
    };
    let ghost digits = unsigned_part(s);
    assert(digits =~= text@.subrange(start as int, to as int));
    if start == to {
        return None;
    }
    let mut value: u64 = 0;
    let mut i: usize = start;
    assert(digits.take(0) =~= Seq::empty());
    while i < to
        invariant
            start <= i <= to <= text@.len(),
            digits == text@.subrange(start as int, to as int),
            all_digits(digits.take(i - start)),
            value == decimal_value(digits.take(i - start)),
            value <= max,
            digits == unsigned_part(s),
            s == text@.subrange(from as int, to as int),
        decreases to - i,
    {
        let c: char = text[i];
        let ghost longer = digits.take(i + 1 - start);
        assert(c == digits[i - start]);
        assert(longer.drop_last() =~= digits.take(i - start));
        if !(c >= '0' && c <= '9') {
            return None;
        }
        value = value * 10 + (c as u64 - '0' as u64);
        proof {
            assert(longer.last() == c);
            assert forall|j: int| 0 <= j < longer.len() implies is_digit(#[trigger] longer[j]) by {
                if j < i - start {
                    assert(longer[j] == digits.take(i - start)[j]);
                }
            }
            lemma_value_grows(digits, i + 1 - start);
        }
        if value > max as u64 {
            return None;
        }
        i = i + 1;
    }
    assert(digits.take(i - start) =~= digits);
    Some(value as u32)
}

/// The text form of `record`.
pub fn encode_record(record: CachedRecord) -> (text: String)
    ensures
        text@ == encoded(record),
{
    let mut text = String::new();
    push_decimal(&mut text, record.width);
    text.push(',');
    push_decimal(&mut text, record.height);
    text.push(',');
    push_decimal(&mut text, record.file_type.code() as u32);
    text.push(',');
    push_decimal(
        &mut text,
        if record.animated {
            1
        } else {
            0
        },
    );
    assert(text@ =~= encoded(record));
    text
}

/// The record that `raw` is the text form of.
pub fn decode_record(raw: &str) -> (record: Option<CachedRecord>)
    ensures
        record == decoded(raw@),
{
    let text = characters(raw);
    // Where the fields begin; each ends before the comma that follows it.
    let mut starts: Vec<usize> = Vec::new();
    starts.push(0);
    let mut i: usize = 0;
    assert(text@.take(0) =~= Seq::empty());
    assert(fields(text@.take(0)) =~= field_parts(text@, starts@, 0));
    while i < text.len()
        invariant
            i <= text@.len(),
            starts@.len() > 0,
            forall|k: int| 0 <= k < starts@.len() ==> #[trigger] starts@[k] <= i,
            forall|k: int|
                0 <= k < starts@.len() - 1 ==> (#[trigger] starts@[k]) < starts@[k + 1],
            fields(text@.take(i as int)) == field_parts(text@, starts@, i as int),
        decreases text@.len() - i,
    {
        let ghost old_starts = starts@;
        let ghost longer = text@.take(i + 1);
        assert(longer.drop_last() =~= text@.take(i as int));
        let ghost before = fields(text@.take(i as int));
        if text[i] == ',' {
            starts.push(i + 1);
            assert(fields(longer) =~= field_parts(text@, starts@, i + 1)) by {
                assert(before.push(Seq::empty()) =~= field_parts(text@, starts@, i + 1)) by {
                    let after = field_parts(text@, starts@, i + 1);
                    assert(after.len() == before.len() + 1);
                    assert forall|k: int| 0 <= k < after.len() implies after[k] == before.push(
                        Seq::empty(),
                    )[k] by {
                        if k < before.len() {
                            assert(after[k] =~= before[k]);
                        } else {
                            assert(after[k] =~= Seq::empty());
                        }
                    }
                }
            }
        } else {
            assert(fields(longer) =~= field_parts(text@, starts@, i + 1)) by {
                let after = field_parts(text@, starts@, i + 1);
                let last = before.last().push(longer.last());
                assert forall|k: int| 0 <= k < after.len() implies after[k]
                    == before.drop_last().push(last)[k] by {
                    if k < before.len() - 1 {
                        assert(after[k] =~= before[k]);
                    } else {
                        assert(after[k] =~= last);
                    }
                }
            }
        }
        i = i + 1;
    }
    assert(text@.take(i as int) =~= text@);
    let ghost f = fields(raw@);
    if starts.len() != 4 {
        return None;
    }
    assert(f[0] =~= text@.subrange(starts@[0] as int, starts@[1] - 1));
    assert(f[1] =~= text@.subrange(starts@[1] as int, starts@[2] - 1));
    assert(f[2] =~= text@.subrange(starts@[2] as int, starts@[3] - 1));
    assert(f[3] =~= text@.subrange(starts@[3] as int, text@.len() as int));
    let width = parse_number(&text, starts[0], starts[1] - 1, u32::MAX);
    let height = parse_number(&text, starts[1], starts[2] - 1, u32::MAX);
    let code = parse_number(&text, starts[2], starts[3] - 1, u16::MAX as u32);
    let animated = parse_number(&text, starts[3], text.len(), u8::MAX as u32);
    match (width, height, code, animated) {
        (Some(width), Some(height), Some(code), Some(animated)) => {
            match CachedFileType::from_code(code as u16) {
                Some(file_type) => {
                    proof {
                        assert(file_type.spec_code() == code);
                        law_codes_are_distinct(file_type, coded_type(code as nat)->0);
                    }
                    Some(CachedRecord { width, height, file_type, animated: animated != 0 })
                },
                None => None,
            }
        },
        _ => None,
    }
}

/// The fields of the first `end` characters of `text`, where `starts` says where
/// each begins.
spec fn field_parts(text: Seq<char>, starts: Seq<usize>, end: int) -> Seq<Seq<char>> {
    Seq::new(
        starts.len(),
        |k: int|
            text.subrange(
                starts[k] as int,
                if k + 1 < starts.len() {
                    starts[k + 1] - 1
                } else {
                    end
                },
            ),
    )
}

/// Which types are images and which are videos.
pub proof fn law_media_kinds(file_type: CachedFileType)
    ensures
        file_type.spec_media_kind() == CachedMediaKind::Image <==> file_type is Jpeg || file_type is Png
            || file_type is Gif || file_type is Bmp || file_type is Webp || file_type is Psd
            || file_type is Ico || file_type is Tiff,
        file_type.spec_media_kind() == CachedMediaKind::Video <==> file_type is Mp4 || file_type is Mkv
            || file_type is Webm || file_type is Avi || file_type is Mov || file_type is Wmv
            || file_type is Flv || file_type is M4v || file_type is ThreeGp || file_type is Ogv,
{
}

/// Writing one more digit behind a number multiplies it by ten.
pub proof fn law_digits_are_written_from_the_highest(n: nat, digit: nat)
    requires
        digit < 10,
    ensures
        n > 0 ==> decimal(n * 10 + digit) == decimal(n).push(digit_char(digit)),
        decimal(digit) == seq![digit_char(digit)],
        digit_char(digit) as u32 == 0x30 + digit,
{
    if n > 0 {
        assert((n * 10 + digit) / 10 == n && (n * 10 + digit) % 10 == digit);
    }
}

/// The text of a record holds, between commas, its width, its height, the code of its
/// type, and one or zero.
pub proof fn law_record_text_has_four_fields(record: CachedRecord)
    ensures
        fields(encoded(record)).len() == 4,
        fields(encoded(record))[0] == decimal(record.width as nat),
        fields(encoded(record))[1] == decimal(record.height as nat),
        fields(encoded(record))[2] == decimal(record.file_type.spec_code() as nat),
        record.animated ==> fields(encoded(record))[3] == decimal(1),
        !record.animated ==> fields(encoded(record))[3] == decimal(0),
{
    let w = decimal(record.width as nat);
    let h = decimal(record.height as nat);
    let c = decimal(record.file_type.spec_code() as nat);
    let a = decimal(
        if record.animated {
            1
        } else {
            0
        },
    );
    lemma_decimal(record.width as nat);
    lemma_decimal(record.height as nat);
    lemma_decimal(record.file_type.spec_code() as nat);
    lemma_decimal(
        if record.animated {
            1
        } else {
            0
        },
    );
    lemma_fields_single(w);
    lemma_fields_append(w, h);
    lemma_fields_append(w.push(',') + h, c);
    lemma_fields_append((w.push(',') + h).push(',') + c, a);
    assert(encoded(record) =~= ((w.push(',') + h).push(',') + c).push(',') + a);
}

/// The codes under which the types are stored.  Images come first, and videos from a
/// hundred on, each in the order in which they were added.
pub proof fn law_stored_codes(code: u16, file_type: Option<CachedFileType>)
    requires
        call_ensures(CachedFileType::from_code, (code,), file_type),
    ensures
        file_type is Some <==> 1 <= code <= 8 || 100 <= code <= 109,
        code == 1 ==> file_type == Some(CachedFileType::Jpeg),
        code == 2 ==> file_type == Some(CachedFileType::Png),
        code == 3 ==> file_type == Some(CachedFileType::Gif),
        code == 4 ==> file_type == Some(CachedFileType::Bmp),
        code == 5 ==> file_type == Some(CachedFileType::Webp),
        code == 6 ==> file_type == Some(CachedFileType::Psd),
        code == 7 ==> file_type == Some(CachedFileType::Ico),
        code == 8 ==> file_type == Some(CachedFileType::Tiff),
        code == 100 ==> file_type == Some(CachedFileType::Mp4),
        code == 101 ==> file_type == Some(CachedFileType::Mkv),
        code == 102 ==> file_type == Some(CachedFileType::Webm),
        code == 103 ==> file_type == Some(CachedFileType::Avi),
        code == 104 ==> file_type == Some(CachedFileType::Mov),
        code == 105 ==> file_type == Some(CachedFileType::Wmv),
        code == 106 ==> file_type == Some(CachedFileType::Flv),
        code == 107 ==> file_type == Some(CachedFileType::M4v),
        code == 108 ==> file_type == Some(CachedFileType::ThreeGp),
        code == 109 ==> file_type == Some(CachedFileType::Ogv),
{
    assert(CachedFileType::Jpeg.spec_code() == 1 && CachedFileType::Png.spec_code() == 2);
    assert(CachedFileType::Gif.spec_code() == 3 && CachedFileType::Bmp.spec_code() == 4);
    assert(CachedFileType::Webp.spec_code() == 5 && CachedFileType::Psd.spec_code() == 6);
    assert(CachedFileType::Ico.spec_code() == 7 && CachedFileType::Tiff.spec_code() == 8);
    assert(CachedFileType::Mp4.spec_code() == 100 && CachedFileType::Mkv.spec_code() == 101);
    assert(CachedFileType::Webm.spec_code() == 102 && CachedFileType::Avi.spec_code() == 103);
    assert(CachedFileType::Mov.spec_code() == 104 && CachedFileType::Wmv.spec_code() == 105);
    assert(CachedFileType::Flv.spec_code() == 106 && CachedFileType::M4v.spec_code() == 107);
    assert(CachedFileType::ThreeGp.spec_code() == 108 && CachedFileType::Ogv.spec_code() == 109);
}

/// A type is written back under the code that it was read from.
pub proof fn law_codes_lead_back(code: u16, file_type: CachedFileType, written: u16)
    requires
        call_ensures(CachedFileType::from_code, (code,), Some(file_type)),
        call_ensures(CachedFileType::code, (file_type,), written),
    ensures
        written == code,
{
}

/// A text counts as a record only if it has four fields that are numbers and a type
/// that is known; then it says what they say.
pub proof fn law_records_say_what_their_fields_say(raw: Seq<char>, record: CachedRecord)
    requires
        decoded(raw) == Some(record),
    ensures
        fields(raw).len() == 4,
        parsed(fields(raw)[0], u32::MAX as nat) == Some(record.width as nat),
        parsed(fields(raw)[1], u32::MAX as nat) == Some(record.height as nat),
        parsed(fields(raw)[2], u16::MAX as nat) == Some(record.file_type.spec_code() as nat),
        record.animated <==> parsed(fields(raw)[3], u8::MAX as nat) != Some(0nat),
{
}

/// What is written of a file is what is read of it.
pub proof fn law_written_records_are_read(
    record: CachedRecord,
    text: String,
    raw: &str,
    read: Option<CachedRecord>,
)
    requires
        call_ensures(encode_record, (record,), text),
        raw@ == text@,
        call_ensures(decode_record, (raw,), read),
    ensures
        read == Some(record),
{
    law_record_round_trip(record);
}

/// A file is an image or a video as its type is.
pub proof fn law_types_are_images_or_videos(
    file_type: CachedFileType,
    kind: CachedMediaKind,
    code: u16,
    matches_image: bool,
    matches_video: bool,
)
    requires
        call_ensures(CachedFileType::media_kind, (file_type,), kind),
        call_ensures(CachedFileType::code, (file_type,), code),
        call_ensures(
            CachedMediaKind::matches_file_type,
            (CachedMediaKind::Image, file_type),
            matches_image,
        ),
        call_ensures(
            CachedMediaKind::matches_file_type,
            (CachedMediaKind::Video, file_type),
            matches_video,
        ),
    ensures
        kind == CachedMediaKind::Image <==> code < 100,
        kind == CachedMediaKind::Video <==> code >= 100,
        matches_image <==> kind == CachedMediaKind::Image,
        matches_video <==> kind == CachedMediaKind::Video,
{
}

/// The usual extension of each type.
pub proof fn law_types_have_their_extensions(file_type: CachedFileType, extension: &'static str)
    requires
        call_ensures(CachedFileType::extension, (file_type,), extension),
    ensures
        file_type is Jpeg ==> extension@ == seq!['j', 'p', 'g'],
        file_type is Png ==> extension@ == seq!['p', 'n', 'g'],
        file_type is Gif ==> extension@ == seq!['g', 'i', 'f'],
        file_type is Bmp ==> extension@ == seq!['b', 'm', 'p'],
        file_type is Webp ==> extension@ == seq!['w', 'e', 'b', 'p'],
        file_type is Psd ==> extension@ == seq!['p', 's', 'd'],
        file_type is Ico ==> extension@ == seq!['i', 'c', 'o'],
        file_type is Tiff ==> extension@ == seq!['t', 'i', 'f', 'f'],
        file_type is Mp4 ==> extension@ == seq!['m', 'p', '4'],
        file_type is Mkv ==> extension@ == seq!['m', 'k', 'v'],
        file_type is Webm ==> extension@ == seq!['w', 'e', 'b', 'm'],
        file_type is Avi ==> extension@ == seq!['a', 'v', 'i'],
        file_type is Mov ==> extension@ == seq!['m', 'o', 'v'],
        file_type is Wmv ==> extension@ == seq!['w', 'm', 'v'],
        file_type is Flv ==> extension@ == seq!['f', 'l', 'v'],
        file_type is M4v ==> extension@ == seq!['m', '4', 'v'],
        file_type is ThreeGp ==> extension@ == seq!['3', 'g', 'p'],
        file_type is Ogv ==> extension@ == seq!['o', 'g', 'v'],
{
    reveal_strlit("jpg");
    reveal_strlit("png");
    reveal_strlit("gif");
    reveal_strlit("bmp");
    reveal_strlit("webp");
    reveal_strlit("psd");
    reveal_strlit("ico");
    reveal_strlit("tiff");
    reveal_strlit("mp4");
    reveal_strlit("mkv");
    reveal_strlit("webm");
    reveal_strlit("avi");
    reveal_strlit("mov");
    reveal_strlit("wmv");
    reveal_strlit("flv");
    reveal_strlit("m4v");
    reveal_strlit("3gp");
    reveal_strlit("ogv");
}

} // verus!
