//! Rules for the file that the metadata cache lives in: how far it may grow, when
//! it is thrown away, and under which key a media file is found in it.

use crate::metadata_record::{decode_record, decoded};
use crate::text::{lowercased, same_text, to_lowercase};
use vstd::prelude::*;

verus! {

/// Why the cache file was not changed.
#[derive(Clone, Copy, Debug, PartialEq, Eq, Structural)]
pub enum FileLimitError {
    /// The file would grow over its limit.
    LimitReached,
    /// The write would end at no position at all.
    SizeOverflow,
}

/// The length of the cache file and the limit on it.
#[derive(Clone, Copy, Debug)]
pub struct FileLimit {
    /// How long the file may get; zero means that it may grow freely.
    pub max_size_bytes: u64,
    /// How long the file is, as far as is known.
    pub current_len: u64,
}

impl FileLimit {
    pub open spec fn exceeds(self, required_len: int) -> bool {
        self.max_size_bytes > 0 && required_len > self.max_size_bytes
    }

    /// The length of the file after `data_len` bytes were written at `offset`.
    pub open spec fn len_after_write(self, offset: u64, data_len: u64) -> int {
        if offset + data_len > self.current_len {
            offset + data_len
        } else {
            self.current_len as int
        }
    }

    pub fn new(max_size_bytes: u64, current_len: u64) -> (limit: Self)
        ensures
            limit == (FileLimit { max_size_bytes, current_len }),
    {
        FileLimit { max_size_bytes, current_len }
    }

    /// Whether a file of the given length would be over the limit.
    pub fn exceeds_limit(&self, required_len: u64) -> (exceeds: bool)
        ensures
            exceeds == self.exceeds(required_len as int),
    {
        self.max_size_bytes > 0 && required_len > self.max_size_bytes
    }

    /// Takes note of the length that the file turned out to have.
    pub fn observe_len(&mut self, actual_len: u64)
        ensures
            *final(self) == (FileLimit { current_len: actual_len, ..*old(self) }),
    {
        self.current_len = actual_len;
    }

    /// Whether the length of the file may be set.
    pub fn check_set_len(&self, len: u64) -> (allowed: Result<(), FileLimitError>)
        ensures
            allowed is Ok <==> !self.exceeds(len as int),
            allowed matches Err(e) ==> e == FileLimitError::LimitReached,
    {
        if self.exceeds_limit(len) {
            Err(FileLimitError::LimitReached)
        } else {
            Ok(())
        }
    }

    /// Whether `data_len` bytes may be written at `offset`; if so, how long the
    /// file is afterwards.
    pub fn check_write(&self, offset: u64, data_len: u64) -> (required: Result<u64, FileLimitError>)
        ensures
            required == (if offset + data_len > u64::MAX {
                Err::<u64, _>(FileLimitError::SizeOverflow)
            } else if self.exceeds(self.len_after_write(offset, data_len)) {
                Err(FileLimitError::LimitReached)
            } else {
                Ok(self.len_after_write(offset, data_len) as u64)
            }),
    {
        let write_end: u64 = match offset.checked_add(data_len) {
            Some(end) => end,
            None => return Err(FileLimitError::SizeOverflow),
        };
        let required_len: u64 = if write_end > self.current_len {
            write_end
        } else {
            self.current_len
        };
        if self.exceeds_limit(required_len) {
            return Err(FileLimitError::LimitReached);
        }
        Ok(required_len)
    }

    /// Takes note of a write that was made, and of the length it was checked for.
    pub fn note_write(&mut self, required_len: u64)
        ensures
            *final(self) == (FileLimit {
                current_len: (if required_len > old(self).current_len {
                    required_len
                } else {
                    old(self).current_len
                }),
                ..*old(self)
            }),
    {
        if required_len > self.current_len {
            self.current_len = required_len;
        }
    }
}

/// A file that keeps within its limit still does after a write that was allowed,
/// and it never gets shorter by one.
pub proof fn law_allowed_write_keeps_limit(limit: FileLimit, offset: u64, data_len: u64)
    requires
        offset + data_len <= u64::MAX,
        !limit.exceeds(limit.len_after_write(offset, data_len)),
    ensures
        ({
            let after = FileLimit {
                current_len: limit.len_after_write(offset, data_len) as u64,
                ..limit
            };
            &&& !after.exceeds(after.current_len as int)
            &&& after.current_len >= limit.current_len
            &&& after.current_len >= offset + data_len
        }),
{
}

/// Whether a file that is found at start is thrown away before it is opened.
pub fn discard_before_open(max_size_bytes: u64, file_len: Option<u64>) -> (discard: bool)
    ensures
        discard == (max_size_bytes > 0 && file_len is Some && file_len->0 > max_size_bytes),
{
    match file_len {
        Some(len) => max_size_bytes > 0 && len > max_size_bytes,
        None => false,
    }
}

/// What came of opening the cache file.
#[derive(Clone, Copy, Debug, PartialEq, Eq, Structural)]
pub enum OpenOutcome {
    Opened { old_schema: bool },
    Corrupted { file_exists: bool },
    Failed,
}

/// What to do with the cache file.
#[derive(Clone, Copy, Debug, PartialEq, Eq, Structural)]
pub enum OpenDecision {
    Use,
    /// Remove the file and start with an empty one.
    Recreate,
    GiveUp,
}

/// What to do once the file was opened, or could not be: a file in an old form
/// or a damaged one makes way for an empty one.
pub fn decide_after_open(outcome: OpenOutcome) -> (decision: OpenDecision)
    ensures
        decision == (match outcome {
            OpenOutcome::Opened { old_schema } => if old_schema {
                OpenDecision::Recreate
            } else {
                OpenDecision::Use
            },
            OpenOutcome::Corrupted { file_exists } => if file_exists {
                OpenDecision::Recreate
            } else {
                OpenDecision::GiveUp
            },
            OpenOutcome::Failed => OpenDecision::GiveUp,
        }),
{
    match outcome {
        OpenOutcome::Opened { old_schema } => {
            if old_schema {
                OpenDecision::Recreate
            } else {
                OpenDecision::Use
            }
        },
        OpenOutcome::Corrupted { file_exists } => {
            if file_exists {
                OpenDecision::Recreate
            } else {
                OpenDecision::GiveUp
            }
        },
        OpenOutcome::Failed => OpenDecision::GiveUp,
    }
}

/// What the metadata table of a database looks like.
pub enum TableRows {
    /// There is no such table.
    Missing,
    /// The table cannot be walked.
    Unreadable,
    /// The text of each row; none for a row that cannot be read.
    Rows(Vec<Option<String>>),
}

/// What a database looks like.
pub struct SchemaSnapshot {
    /// The database can be read at all.
    pub readable: bool,
    /// The names of the tables; none where they cannot be listed.
    pub tables: Vec<String>,
    pub rows: TableRows,
}

/// A table that only old versions had.
pub open spec fn old_table(name: Seq<char>) -> bool {
    name == "video_first_frame_rgba"@ || name == "image_thumbnail_rgba"@
}

/// A row that the present version did not write.
pub open spec fn old_row(row: Option<String>) -> bool {
    row is None || decoded(row->0@) is None
}

pub open spec fn has_old_row(rows: Seq<Option<String>>) -> bool {
    exists|i: int| 0 <= i < rows.len() && old_row(#[trigger] rows[i])
}

impl SchemaSnapshot {
    /// The database was written by an old version, or is not sound.
    pub open spec fn outdated(self) -> bool {
        &&& self.readable
        &&& {
            ||| exists|i: int| 0 <= i < self.tables@.len() && old_table(#[trigger] self.tables@[i]@)
            ||| match self.rows {
                TableRows::Missing => false,
                TableRows::Unreadable => true,
                TableRows::Rows(rows) => has_old_row(rows@),
            }
        }
    }
}

/// Whether a database was written by an old version, or is not sound.
pub fn database_uses_old_schema(snapshot: &SchemaSnapshot) -> (old_schema: bool)
    ensures
        old_schema == snapshot.outdated(),
{
    if !snapshot.readable {
        return false;
    }
    let mut i: usize = 0;
    while i < snapshot.tables.len()
        invariant
            i <= snapshot.tables@.len(),
            snapshot.readable,
            forall|k: int| 0 <= k < i ==> !old_table(#[trigger] snapshot.tables@[k]@),
        decreases snapshot.tables@.len() - i,
    {
        let name = snapshot.tables[i].as_str();
        if same_text(name, "video_first_frame_rgba") || same_text(name, "image_thumbnail_rgba") {
            assert(old_table(snapshot.tables@[i as int]@));
            return true;
        }
        i = i + 1;
    }
    match &snapshot.rows {
        TableRows::Missing => false,
        TableRows::Unreadable => true,
        TableRows::Rows(rows) => {
            let mut j: usize = 0;
            while j < rows.len()
                invariant
                    j <= rows@.len(),
                    snapshot.readable,
                    snapshot.rows == TableRows::Rows(*rows),
                    forall|k: int| 0 <= k < j ==> !old_row(#[trigger] rows@[k]),
                decreases rows@.len() - j,
            {
                let known = match &rows[j] {
                    None => false,
                    Some(text) => decode_record(text.as_str()).is_some(),
                };
                if !known {
                    assert(old_row(rows@[j as int]));
                    assert(has_old_row(rows@));
                    return true;
                }
                j = j + 1;
            }
            false
        },
    }
}

/// The key of a media file: its absolute path where one can be had, and in lower
/// case on systems that do not tell cases apart.
pub fn cache_key(path: &str, is_absolute: bool, canonical: Option<&str>, ignore_case: bool) -> (key:
    String)
    ensures
        key@ == ({
            let chosen = if is_absolute || canonical is None {
                path@
            } else {
                canonical->0@
            };
            if ignore_case {
                lowercased(chosen)
            } else {
                chosen
            }
        }),
{
    let chosen = if is_absolute {
        path
    } else {
        match canonical {
            Some(full) => full,
            None => path,
        }
    };
    if ignore_case {
        to_lowercase(chosen)
    } else {
        chosen.to_owned()
    }
}

/// A write is allowed exactly when the file, which it never shortens, stays within its
/// limit; the answer is how long the file is then.
pub proof fn law_allowed_writes_fit(
    limit: &FileLimit,
    offset: u64,
    data_len: u64,
    required: Result<u64, FileLimitError>,
)
    requires
        call_ensures(FileLimit::check_write, (limit, offset, data_len), required),
    ensures
        offset + data_len > u64::MAX <==> required == Err::<u64, _>(FileLimitError::SizeOverflow),
        required matches Ok(len) ==> {
            &&& len >= limit.current_len
            &&& len >= offset + data_len
            &&& len == limit.current_len || len == offset + data_len
            &&& limit.max_size_bytes == 0 || len <= limit.max_size_bytes
        },
        required == Err::<u64, _>(FileLimitError::LimitReached) ==> limit.max_size_bytes > 0 && (offset
            + data_len > limit.max_size_bytes || limit.current_len > limit.max_size_bytes),
{
}

/// The length of a file may be set to anything within its limit.
pub proof fn law_allowed_lengths_fit(
    limit: &FileLimit,
    len: u64,
    allowed: Result<(), FileLimitError>,
)
    requires
        call_ensures(FileLimit::check_set_len, (limit, len), allowed),
    ensures
        allowed is Ok <==> limit.max_size_bytes == 0 || len <= limit.max_size_bytes,
{
}

/// Only a file that is longer than its limit is thrown away unopened.
pub proof fn law_long_files_are_discarded(
    max_size_bytes: u64,
    file_len: Option<u64>,
    discard: bool,
)
    requires
        call_ensures(discard_before_open, (max_size_bytes, file_len), discard),
    ensures
        discard ==> (file_len matches Some(len) && 0 < max_size_bytes < len),
        (file_len matches Some(len) && 0 < max_size_bytes < len) ==> discard,
{
}

/// A sound file is used, one that is old or damaged makes way for an empty one, and
/// without a file there is nothing to make way.
pub proof fn law_only_sound_files_are_used(outcome: OpenOutcome, decision: OpenDecision)
    requires
        call_ensures(decide_after_open, (outcome,), decision),
    ensures
        decision is Use <==> outcome == (OpenOutcome::Opened { old_schema: false }),
        decision is Recreate <==> outcome == (OpenOutcome::Opened { old_schema: true }) || outcome == (
        OpenOutcome::Corrupted { file_exists: true }),
{
}

/// The key of a file is its absolute path, whichever way it was named, and in lower
/// case where the system does not tell cases apart.
pub proof fn law_keys_name_the_absolute_path(
    path: &str,
    is_absolute: bool,
    canonical: Option<&str>,
    ignore_case: bool,
    key: String,
)
    requires
        call_ensures(cache_key, (path, is_absolute, canonical, ignore_case), key),
    ensures
        is_absolute && !ignore_case ==> key@ == path@,
        is_absolute && ignore_case ==> key@ == lowercased(path@),
        !is_absolute && !ignore_case ==> (canonical matches Some(full) ==> key@ == full@),
        !is_absolute && ignore_case ==> (canonical matches Some(full) ==> key@ == lowercased(full@)),
        canonical is None && !ignore_case ==> key@ == path@,
{
}

/// A length exceeds a limit only where there is one and it is longer.
pub proof fn law_only_longer_files_exceed(limit: &FileLimit, len: u64, exceeds: bool)
    requires
        call_ensures(FileLimit::exceeds_limit, (limit, len), exceeds),
    ensures
        exceeds <==> 0 < limit.max_size_bytes < len,
{
}

/// A file is as long as it was seen to be, and a write never makes it shorter.
pub proof fn law_lengths_are_noted(
    seen: &mut FileLimit,
    actual: u64,
    written: &mut FileLimit,
    required: u64,
)
    requires
        call_ensures(FileLimit::observe_len, (seen, actual), ()),
        call_ensures(FileLimit::note_write, (written, required), ()),
    ensures
        final(seen).current_len == actual,
        final(seen).max_size_bytes == old(seen).max_size_bytes,
        final(written).current_len >= required,
        final(written).current_len >= old(written).current_len,
        final(written).current_len == required || final(written).current_len == old(
            written).current_len,
        final(written).max_size_bytes == old(written).max_size_bytes,
{
}

/// A database that cannot be read is not old; one whose rows cannot be read is, and so is
/// one that holds a table of the first layouts.
pub proof fn law_old_databases_are_told(snapshot: &SchemaSnapshot, old_schema: bool, i: int)
    requires
        call_ensures(database_uses_old_schema, (snapshot,), old_schema),
    ensures
        !snapshot.readable ==> !old_schema,
        snapshot.readable && snapshot.rows is Unreadable ==> old_schema,
        snapshot.readable && 0 <= i < snapshot.tables@.len() && (snapshot.tables@[i]@
            == "video_first_frame_rgba"@ || snapshot.tables@[i]@ == "image_thumbnail_rgba"@)
            ==> old_schema,
        snapshot.rows is Missing && snapshot.tables@.len() == 0 ==> !old_schema,
{
    if 0 <= i < snapshot.tables@.len() {
        assert(old_table(snapshot.tables@[i]@) ==> (snapshot.tables@[i]@ == "video_first_frame_rgba"@
            || snapshot.tables@[i]@ == "image_thumbnail_rgba"@));
    }
}

/// A database whose rows can be read is old if one of them is missing its text or cannot
/// be understood, and else if it holds an old table.
pub proof fn law_old_rows_are_told(snapshot: &SchemaSnapshot, old_schema: bool, rows: Vec<
    Option<String>,
>, i: int)
    requires
        call_ensures(database_uses_old_schema, (snapshot,), old_schema),
        snapshot.readable,
        snapshot.rows == TableRows::Rows(rows),
    ensures
        0 <= i < rows@.len() && rows@[i] is None ==> old_schema,
        0 <= i < rows@.len() && (rows@[i] matches Some(text) && decoded(text@) is None)
            ==> old_schema,
        old_schema && snapshot.tables@.len() == 0 ==> exists|k: int|
            0 <= k < rows@.len() && ((#[trigger] rows@[k]) is None || decoded(rows@[k]->0@) is None),
{
    if 0 <= i < rows@.len() {
        assert(old_row(rows@[i]) ==> has_old_row(rows@));
    }
    if old_schema && snapshot.tables@.len() == 0 {
        let k = choose|k: int| 0 <= k < rows@.len() && old_row(#[trigger] rows@[k]);
        assert(rows@[k] is None || decoded(rows@[k]->0@) is None);
    }
}

} // verus!
