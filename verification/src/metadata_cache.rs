//! Bookkeeping and rules of the persistent metadata cache.
//!
//! The cache is a table from file path to record text on disk.  What is read from
//! and written to it goes through the rules here: which records count, what is
//! stored for a file, when the table is pruned and what then leaves, and how
//! large the file may grow.

use crate::media_probe::{
    animated_or_assumed, detect_animated, detect_file_type_from_header, gif_animated,
    gif_frames_of, probe_window, signature_type, webp_animated,
};
use crate::metadata_record::{
    decode_record, decoded, encode_record, encoded, law_record_round_trip,
};
use crate::text::texts;
use vstd::prelude::*;
use vstd::utf8::encode_utf8;

pub use crate::metadata_record::{CachedFileType, CachedMediaKind, CachedRecord};

verus! {

/// How many records the table keeps when it is pruned.
pub const DIMENSION_CACHE_MAX_ENTRIES: usize = 80_000;

/// How many seconds pass between two prunings.
pub const PRUNE_INTERVAL_SECS: u64 = 60;

/// How large the cache file may grow unless another limit is set.
pub const METADATA_CACHE_DEFAULT_MAX_SIZE_BYTES: u64 = 1_073_741_824;

/// What a record takes up on disk besides its key and its text.
pub const RECORD_OVERHEAD_BYTES: usize = 512;

pub const BYTES_PER_MIB: u64 = 1_048_576;

/// How often the cache was of use, and what left it.
#[derive(Clone, Copy, Debug)]
pub struct MetadataCacheStats {
    pub dimension_hits: u64,
    pub dimension_misses: u64,
    pub thumbnail_hits: u64,
    pub thumbnail_misses: u64,
    pub dimension_expired: u64,
    pub thumbnail_expired: u64,
    pub dimension_evicted: u64,
    pub thumbnail_evicted: u64,
    pub static_thumbnail_hits: u64,
    pub static_thumbnail_misses: u64,
    pub static_thumbnail_expired: u64,
    pub static_thumbnail_evicted: u64,
}

impl MetadataCacheStats {
    pub open spec fn zero() -> Self {
        MetadataCacheStats {
            dimension_hits: 0,
            dimension_misses: 0,
            thumbnail_hits: 0,
            thumbnail_misses: 0,
            dimension_expired: 0,
            thumbnail_expired: 0,
            dimension_evicted: 0,
            thumbnail_evicted: 0,
            static_thumbnail_hits: 0,
            static_thumbnail_misses: 0,
            static_thumbnail_expired: 0,
            static_thumbnail_evicted: 0,
        }
    }
}

impl Default for MetadataCacheStats {
    fn default() -> (stats: Self)
        ensures
            stats == MetadataCacheStats::zero(),
    {
        MetadataCacheStats {
            dimension_hits: 0,
            dimension_misses: 0,
            thumbnail_hits: 0,
            thumbnail_misses: 0,
            dimension_expired: 0,
            thumbnail_expired: 0,
            dimension_evicted: 0,
            thumbnail_evicted: 0,
            static_thumbnail_hits: 0,
            static_thumbnail_misses: 0,
            static_thumbnail_expired: 0,
            static_thumbnail_evicted: 0,
        }
    }
}

/// A small picture of a video.
#[derive(Clone)]
pub struct CachedVideoThumbnail {
    pub pixels: Vec<u8>,
    pub width: u32,
    pub height: u32,
    pub original_width: u32,
    pub original_height: u32,
}

/// A small picture of an image.
#[derive(Clone)]
pub struct CachedImageThumbnail {
    pub pixels: Vec<u8>,
    pub width: u32,
    pub height: u32,
    pub original_width: u32,
    pub original_height: u32,
}

/// The state of the metadata cache apart from the table on disk.
pub struct MetadataCache {
    pub enabled: bool,
    pub stats: MetadataCacheStats,
    /// When the table was pruned last, in seconds since the epoch.
    pub last_prune_secs: u64,
    /// How large the cache file may grow; zero means that it may grow freely.
    pub max_size_bytes: u64,
}

/// A counter after `n` more events.  It starts again from zero when it is full.
pub open spec fn counted(counter: u64, n: nat) -> u64 {
    ((counter + n) % 0x1_0000_0000_0000_0000) as u64
}

fn count(counter: u64, n: u64) -> (sum: u64)
    ensures
        sum == counted(counter, n as nat),
{
    counter.wrapping_add(n)
}

/// The dimensions that a stored text gives for a file of the expected kind.
pub open spec fn usable_dimensions(raw: Option<Seq<char>>, expected: CachedMediaKind) -> Option<
    (u32, u32),
> {
    match raw {
        None => None,
        Some(text) => match decoded(text) {
            None => None,
            Some(record) => if record.file_type.spec_media_kind() == expected && record.width > 0
                && record.height > 0 {
                Some((record.width, record.height))
            } else {
                None
            },
        },
    }
}

/// The view of a text that may be missing.
pub open spec fn text_view(text: Option<String>) -> Option<Seq<char>> {
    match text {
        Some(t) => Some(t@),
        None => None,
    }
}

/// What was stored for a file is what is looked up for it.
pub proof fn law_stored_dimensions_are_found(record: CachedRecord)
    requires
        record.width > 0,
        record.height > 0,
    ensures
        usable_dimensions(Some(encoded(record)), record.file_type.spec_media_kind()) == Some(
            (record.width, record.height),
        ),
{
    law_record_round_trip(record);
}

/// Whatever is stored for a file gives back the dimensions that it was stored with.
pub proof fn law_stored_file_is_found(
    kind: CachedMediaKind,
    width: u32,
    height: u32,
    header: Option<Seq<u8>>,
    content: Option<Seq<u8>>,
)
    requires
        storable_record(kind, width, height, header, content) is Some,
    ensures
        usable_dimensions(
            Some(encoded(storable_record(kind, width, height, header, content)->0)),
            kind,
        ) == Some((width, height)),
{
    law_stored_dimensions_are_found(storable_record(kind, width, height, header, content)->0);
}

/// A record never answers for a file of the other kind.
pub proof fn law_other_kind_is_missed(record: CachedRecord, kind: CachedMediaKind)
    requires
        kind != record.file_type.spec_media_kind(),
    ensures
        usable_dimensions(Some(encoded(record)), kind) is None,
{
    law_record_round_trip(record);
}

/// What looking up `items` one by one gives.
pub open spec fn batch_dimensions(items: Seq<(Option<String>, CachedMediaKind)>) -> Seq<
    Option<(u32, u32)>,
> {
    Seq::new(items.len(), |i: int| usable_dimensions(text_view(items[i].0), items[i].1))
}

/// How many of the results hold dimensions.
pub open spec fn hits(results: Seq<Option<(u32, u32)>>) -> nat
    decreases results.len(),
{
    if results.len() == 0 {
        0
    } else {
        hits(results.drop_last()) + (if results.last() is Some {
            1nat
        } else {
            0nat
        })
    }
}

/// A record that is about to be written.
pub struct PendingWrite {
    pub key: String,
    pub text: String,
    /// How much the cache file is expected to grow.
    pub estimated_write_bytes: usize,
}

/// The record to store for a file, if there is one: its dimensions are known, it
/// has a known signature, and it is of the kind that it was taken for.
pub open spec fn storable_record(
    kind: CachedMediaKind,
    width: u32,
    height: u32,
    header: Option<Seq<u8>>,
    content: Option<Seq<u8>>,
) -> Option<CachedRecord> {
    match header {
        None => None,
        Some(bytes) => match signature_type(bytes) {
            None => None,
            Some(file_type) => if width > 0 && height > 0 && file_type.spec_media_kind() == kind {
                Some(
                    CachedRecord {
                        width,
                        height,
                        file_type,
                        animated: animated_or_assumed(
                            file_type,
                            match content {
                                None => None,
                                Some(c) => if file_type == CachedFileType::Gif {
                                    gif_animated(gif_frames_of(c))
                                } else {
                                    webp_animated(probe_window(c))
                                },
                            },
                        ),
                    },
                )
            } else {
                None
            },
        },
    }
}

pub open spec fn slice_view(bytes: Option<&[u8]>) -> Option<Seq<u8>> {
    match bytes {
        Some(b) => Some(b@),
        None => None,
    }
}

/// A sum that stops at the largest number that fits.
pub open spec fn capped_sum(a: int, b: int, most: int) -> int {
    if a + b > most {
        most
    } else {
        a + b
    }
}

impl MetadataCache {
    /// The write would take the file over its limit.
    pub open spec fn over_limit_after(self, file_len: Option<u64>, growth: usize) -> bool {
        &&& self.max_size_bytes > 0
        &&& file_len is Some
        &&& capped_sum(file_len->0 as int, growth as int, u64::MAX as int) > self.max_size_bytes
    }

    /// The file is over its limit.
    pub open spec fn over_limit(self, file_len: Option<u64>) -> bool {
        self.over_limit_after(file_len, 0)
    }

    /// The counters as they are reported: zeros while the cache is switched off.
    pub open spec fn reported(self) -> MetadataCacheStats {
        if self.enabled {
            self.stats
        } else {
            MetadataCacheStats::zero()
        }
    }

    /// The cache after a lookup that found the given dimensions in the table.
    pub open spec fn after_lookup(self, found: Option<(u32, u32)>) -> Self {
        if !self.enabled {
            self
        } else if found is Some {
            MetadataCache {
                stats: MetadataCacheStats {
                    dimension_hits: counted(self.stats.dimension_hits, 1),
                    ..self.stats
                },
                ..self
            }
        } else {
            MetadataCache {
                stats: MetadataCacheStats {
                    dimension_misses: counted(self.stats.dimension_misses, 1),
                    ..self.stats
                },
                ..self
            }
        }
    }

    /// The cache after lookups that found the given dimensions in the table.
    pub open spec fn after_lookups(self, found: Seq<Option<(u32, u32)>>) -> Self {
        if !self.enabled {
            self
        } else {
            MetadataCache {
                stats: MetadataCacheStats {
                    dimension_hits: counted(self.stats.dimension_hits, hits(found)),
                    dimension_misses: counted(
                        self.stats.dimension_misses,
                        (found.len() - hits(found)) as nat,
                    ),
                    ..self.stats
                },
                ..self
            }
        }
    }

    /// Where a write of dimensions goes next.
    pub open spec fn route(self, attempt: WriteAttempt) -> WriteRoute {
        if !self.enabled {
            WriteRoute::Done
        } else {
            match attempt {
                WriteAttempt::Fresh => WriteRoute::Queue,
                WriteAttempt::Queued => WriteRoute::Done,
                WriteAttempt::Refused => WriteRoute::Direct,
            }
        }
    }

    /// Which part of the cache is pruned now.
    pub open spec fn prune_scope(self, now_secs: u64, file_len: Option<u64>) -> PruneScope {
        if self.over_limit(file_len) {
            PruneScope::TableAndFile
        } else if now_secs - self.last_prune_secs >= PRUNE_INTERVAL_SECS {
            PruneScope::Table
        } else {
            PruneScope::Nothing
        }
    }

    /// The cache after that was decided.
    pub open spec fn after_prune_decision(self, now_secs: u64, file_len: Option<u64>) -> Self {
        if self.prune_scope(now_secs, file_len) == PruneScope::Nothing {
            self
        } else {
            MetadataCache { last_prune_secs: now_secs, ..self }
        }
    }

    /// The cache after so many unsound records and so many surplus ones left it.
    pub open spec fn after_prune(self, expired: nat, evicted: nat) -> Self {
        MetadataCache {
            stats: MetadataCacheStats {
                dimension_expired: counted(self.stats.dimension_expired, expired),
                dimension_evicted: counted(self.stats.dimension_evicted, evicted),
                ..self.stats
            },
            ..self
        }
    }

    /// The cache after its size limit was set, in mebibytes.
    pub open spec fn with_size_limit(self, max_size_mb: u64) -> Self {
        MetadataCache {
            max_size_bytes: if max_size_mb * BYTES_PER_MIB > u64::MAX {
                u64::MAX
            } else {
                (max_size_mb * BYTES_PER_MIB) as u64
            },
            ..self
        }
    }

    /// A cache that is switched off, with the default size limit.
    pub open spec fn fresh() -> Self {
        MetadataCache {
            enabled: false,
            stats: MetadataCacheStats::zero(),
            last_prune_secs: 0,
            max_size_bytes: METADATA_CACHE_DEFAULT_MAX_SIZE_BYTES,
        }
    }

    /// A cache that is switched off, with the default size limit.
    pub fn new() -> (cache: Self)
        ensures
            cache == MetadataCache::fresh(),
    {
        MetadataCache {
            enabled: false,
            stats: MetadataCacheStats::default(),
            last_prune_secs: 0,
            max_size_bytes: METADATA_CACHE_DEFAULT_MAX_SIZE_BYTES,
        }
    }

    /// The dimensions that the stored text gives for a file of the expected kind.
    pub fn lookup_dimensions(&self, raw: Option<&str>, expected_kind: CachedMediaKind) -> (found:
        Option<(u32, u32)>)
        ensures
            found == usable_dimensions(
                (match raw {
                    Some(text) => Some(text@),
                    None => None,
                }),
                expected_kind,
            ),
    {
        match raw {
            None => None,
            Some(text) => match decode_record(text) {
                None => None,
                Some(record) => if expected_kind.matches_file_type(record.file_type) && record.width
                    != 0 && record.height != 0 {
                    Some((record.width, record.height))
                } else {
                    None
                },
            },
        }
    }

    /// [`MetadataCache::lookup_dimensions`] for each of `items`.
    pub fn lookup_dimensions_batch(&self, items: &Vec<(Option<String>, CachedMediaKind)>) -> (found:
        Vec<Option<(u32, u32)>>)
        ensures
            found@ == batch_dimensions(items@),
    {
        let mut found: Vec<Option<(u32, u32)>> = Vec::new();
        let mut i: usize = 0;
        while i < items.len()
            invariant
                i <= items@.len(),
                found@ == batch_dimensions(items@).take(i as int),
            decreases items@.len() - i,
        {
            let result = match &items[i].0 {
                Some(text) => self.lookup_dimensions(Some(text.as_str()), items[i].1),
                None => None,
            };
            assert(result == batch_dimensions(items@)[i as int]);
            found.push(result);
            i = i + 1;
            assert(found@ =~= batch_dimensions(items@).take(i as int));
        }
        assert(batch_dimensions(items@).take(i as int) =~= batch_dimensions(items@));
        found
    }

    /// What to write for a file, given its dimensions, its first bytes and, where
    /// its type has to be looked into, its content.
    pub fn store_dimensions(
        &self,
        key: String,
        media_kind: CachedMediaKind,
        width: u32,
        height: u32,
        header: Option<&[u8]>,
        content: Option<&[u8]>,
    ) -> (write: Option<PendingWrite>)
        ensures
            write is Some <==> storable_record(
                media_kind,
                width,
                height,
                slice_view(header),
                slice_view(content),
            ) is Some,
            write matches Some(w) ==> {
                &&& w.key@ == key@
                &&& w.text@ == encoded(
                    storable_record(
                        media_kind,
                        width,
                        height,
                        slice_view(header),
                        slice_view(content),
                    )->0,
                )
                &&& w.estimated_write_bytes == capped_sum(
                    capped_sum(
                        encode_utf8(key@).len() as usize as int,
                        encode_utf8(w.text@).len() as usize as int,
                        usize::MAX as int,
                    ),
                    RECORD_OVERHEAD_BYTES as int,
                    usize::MAX as int,
                )
            },
    {
        if width == 0 || height == 0 {
            return None;
        }
        match header {
            None => None,
            Some(bytes) => match detect_file_type_from_header(bytes) {
                None => None,
                Some(file_type) => {
                    if !media_kind.matches_file_type(file_type) {
                        return None;
                    }
                    let animated = detect_animated(file_type, content);
                    let record = CachedRecord { width, height, file_type, animated };
                    let text = encode_record(record);
                    let estimated_write_bytes: usize = key.as_str().len().saturating_add(
                        text.as_str().len(),
                    ).saturating_add(RECORD_OVERHEAD_BYTES);
                    Some(PendingWrite { key, text, estimated_write_bytes })
                },
            },
        }
    }

    /// Whether a write of the estimated size has to wait because the file would
    /// grow over its limit.  A file whose length is unknown is not held back.
    pub fn should_skip_write_due_to_size_limit(
        &self,
        file_len: Option<u64>,
        estimated_write_bytes: usize,
    ) -> (skip: bool)
        ensures
            skip == self.over_limit_after(file_len, estimated_write_bytes),
    {
        if self.max_size_bytes == 0 {
            return false;
        }
        match file_len {
            None => false,
            Some(current) => current.saturating_add(estimated_write_bytes as u64)
                > self.max_size_bytes,
        }
    }

    /// Whether the file is over its limit.
    pub fn cache_needs_size_prune(&self, file_len: Option<u64>) -> (needed: bool)
        ensures
            needed == self.over_limit(file_len),
    {
        self.should_skip_write_due_to_size_limit(file_len, 0)
    }
}

/// Whether the cache may be used at all.
pub fn metadata_cache_access_enabled(cache: &MetadataCache) -> (enabled: bool)
    ensures
        enabled == cache.enabled,
{
    cache.enabled
}

pub fn set_metadata_cache_enabled(cache: &mut MetadataCache, enabled: bool)
    ensures
        *final(cache) == (MetadataCache { enabled, ..*old(cache) }),
{
    cache.enabled = enabled;
}

/// The largest size that the cache file may have; zero means that there is none.
pub fn metadata_cache_max_size_bytes(cache: &MetadataCache) -> (bytes: u64)
    ensures
        bytes == cache.max_size_bytes,
{
    cache.max_size_bytes
}

/// Sets the size limit of the cache file, in mebibytes.
pub fn configure_metadata_cache_size_limit(cache: &mut MetadataCache, max_size_mb: u64)
    ensures
        *final(cache) == old(cache).with_size_limit(max_size_mb),
{
    cache.max_size_bytes = if max_size_mb > u64::MAX / BYTES_PER_MIB {
        u64::MAX
    } else {
        max_size_mb * BYTES_PER_MIB
    };
}

/// The counters, or zeros while the cache is switched off.
pub fn metadata_cache_stats(cache: &MetadataCache) -> (stats: MetadataCacheStats)
    ensures
        stats == cache.reported(),
{
    if cache.enabled {
        cache.stats
    } else {
        MetadataCacheStats::default()
    }
}

/// Looks dimensions up and counts the outcome.  `raw` is the text that the table
/// has for the file; there is none if the table could not be opened.
pub fn lookup_cached_dimensions(
    cache: &mut MetadataCache,
    raw: Option<&str>,
    expected_kind: CachedMediaKind,
) -> (found: Option<(u32, u32)>)
    ensures
        found == (if old(cache).enabled {
            usable_dimensions(
                (match raw {
                    Some(text) => Some(text@),
                    None => None,
                }),
                expected_kind,
            )
        } else {
            None
        }),
        *final(cache) == old(cache).after_lookup(found),
{
    if !metadata_cache_access_enabled(cache) {
        return None;
    }
    let found = cache.lookup_dimensions(raw, expected_kind);
    if found.is_some() {
        cache.stats.dimension_hits = count(cache.stats.dimension_hits, 1);
    } else {
        cache.stats.dimension_misses = count(cache.stats.dimension_misses, 1);
    }
    found
}

/// [`lookup_cached_dimensions`] for each of `items`.
pub fn lookup_cached_dimensions_batch(
    cache: &mut MetadataCache,
    items: &Vec<(Option<String>, CachedMediaKind)>,
) -> (found: Vec<Option<(u32, u32)>>)
    ensures
        found@.len() == items@.len(),
        !old(cache).enabled ==> forall|i: int|
            0 <= i < found@.len() ==> (#[trigger] found@[i]) is None,
        old(cache).enabled ==> found@ == batch_dimensions(items@),
        *final(cache) == old(cache).after_lookups(found@),
{
    if !metadata_cache_access_enabled(cache) {
        let mut nothing: Vec<Option<(u32, u32)>> = Vec::new();
        let mut i: usize = 0;
        while i < items.len()
            invariant
                i <= items@.len(),
                nothing@.len() == i,
                forall|k: int| 0 <= k < i ==> (#[trigger] nothing@[k]) is None,
            decreases items@.len() - i,
        {
            nothing.push(None);
            i = i + 1;
        }
        return nothing;
    }
    let found = cache.lookup_dimensions_batch(items);
    let mut hit_count: u64 = 0;
    let mut i: usize = 0;
    while i < found.len()
        invariant
            i <= found@.len(),
            hit_count == hits(found@.take(i as int)),
            hit_count <= i,
        decreases found@.len() - i,
    {
        let ghost longer = found@.take(i + 1);
        assert(longer.drop_last() =~= found@.take(i as int));
        assert(longer.last() == found@[i as int]);
        if found[i].is_some() {
            hit_count = hit_count + 1;
        }
        i = i + 1;
    }
    assert(found@.take(i as int) =~= found@);
    let miss_count: u64 = items.len() as u64 - hit_count;
    cache.stats.dimension_hits = count(cache.stats.dimension_hits, hit_count);
    cache.stats.dimension_misses = count(cache.stats.dimension_misses, miss_count);
    found
}

/// How far a write of dimensions has come.
#[derive(Clone, Copy, Debug, PartialEq, Eq, Structural)]
pub enum WriteAttempt {
    /// Nothing has been tried yet.
    Fresh,
    /// The background writer took the write.
    Queued,
    /// There is no background writer, or its queue is full.
    Refused,
}

/// What is to be done with a write of dimensions.
#[derive(Clone, Copy, Debug, PartialEq, Eq, Structural)]
pub enum WriteRoute {
    /// Nothing is left to do.
    Done,
    /// Hand it to the background writer.
    Queue,
    /// Write it at once.
    Direct,
}

/// Where a write of dimensions goes next.  The background writer comes first;
/// what it does not take is written directly.
pub fn store_cached_dimensions(cache: &MetadataCache, attempt: WriteAttempt) -> (route: WriteRoute)
    ensures
        route == cache.route(attempt),
{
    if !metadata_cache_access_enabled(cache) {
        return WriteRoute::Done;
    }
    match attempt {
        WriteAttempt::Fresh => WriteRoute::Queue,
        WriteAttempt::Queued => WriteRoute::Done,
        WriteAttempt::Refused => WriteRoute::Direct,
    }
}

/// Thumbnails are not cached.
pub fn lookup_cached_video_thumbnail(path: &str, max_texture_side: u32) -> (thumbnail: Option<
    CachedVideoThumbnail,
>)
    ensures
        thumbnail is None,
{
    let _ = (path, max_texture_side);
    None
}

/// Thumbnails are not cached.
pub fn store_cached_video_thumbnail(
    path: &str,
    max_texture_side: u32,
    thumbnail: &CachedVideoThumbnail,
) {
    let _ = (path, max_texture_side, thumbnail);
}

/// Thumbnails are not cached.
pub fn lookup_cached_static_thumbnail(path: &str, max_texture_side: u32) -> (thumbnail: Option<
    CachedImageThumbnail,
>)
    ensures
        thumbnail is None,
{
    let _ = (path, max_texture_side);
    None
}

/// Thumbnails are not cached.
pub fn store_cached_static_thumbnail(
    path: &str,
    max_texture_side: u32,
    thumbnail: &CachedImageThumbnail,
) {
    let _ = (path, max_texture_side, thumbnail);
}

/// A use of the cache.
pub enum CacheCall {
    Enable(bool),
    LimitSize(u64),
    /// A lookup, and the dimensions that the table gives.
    Lookup(Option<(u32, u32)>),
    /// Lookups of several files.
    Lookups(Seq<Option<(u32, u32)>>),
    /// A write of dimensions.
    Store(WriteAttempt),
    /// The decision whether to prune, at a time and with a length of the file.
    DecidePrune(u64, Option<u64>),
    /// A pruning, by which so many unsound and so many surplus records leave.
    Prune(nat, nat),
}

impl MetadataCache {
    /// The cache after one use.
    pub open spec fn after_call(self, call: CacheCall) -> Self {
        match call {
            CacheCall::Enable(enabled) => MetadataCache { enabled, ..self },
            CacheCall::LimitSize(max_size_mb) => self.with_size_limit(max_size_mb),
            CacheCall::Lookup(found) => self.after_lookup(found),
            CacheCall::Lookups(found) => self.after_lookups(found),
            CacheCall::Store(_) => self,
            CacheCall::DecidePrune(now_secs, file_len) => self.after_prune_decision(
                now_secs,
                file_len,
            ),
            CacheCall::Prune(expired, evicted) => self.after_prune(expired, evicted),
        }
    }

    /// The cache after some uses.
    pub open spec fn after_calls(self, calls: Seq<CacheCall>) -> Self
        decreases calls.len(),
    {
        if calls.len() == 0 {
            self
        } else {
            self.after_calls(calls.drop_last()).after_call(calls.last())
        }
    }
}

/// Nothing was ever counted of thumbnails.
pub open spec fn no_thumbnails_counted(stats: MetadataCacheStats) -> bool {
    &&& stats.thumbnail_hits == 0
    &&& stats.thumbnail_misses == 0
    &&& stats.thumbnail_expired == 0
    &&& stats.thumbnail_evicted == 0
    &&& stats.static_thumbnail_hits == 0
    &&& stats.static_thumbnail_misses == 0
    &&& stats.static_thumbnail_expired == 0
    &&& stats.static_thumbnail_evicted == 0
}

/// Whatever the cache was used for, it reports nothing of thumbnails, and nothing at
/// all while it is switched off.
pub proof fn law_thumbnails_are_never_counted(calls: Seq<CacheCall>)
    ensures
        ({
            let after = MetadataCache::fresh().after_calls(calls);
            &&& no_thumbnails_counted(after.stats)
            &&& no_thumbnails_counted(after.reported())
            &&& !after.enabled ==> after.reported() == MetadataCacheStats::zero()
        }),
    decreases calls.len(),
{
    if calls.len() > 0 {
        law_thumbnails_are_never_counted(calls.drop_last());
    }
}

/// A lookup or a write.
pub open spec fn is_access(call: CacheCall) -> bool {
    call is Lookup || call is Lookups || call is Store
}

/// While the cache is switched off, lookups and writes leave it as it is, and no
/// write goes on to the table.  Switched on again it reports what it did before.
pub proof fn law_switching_off_hides_counters(cache: MetadataCache, calls: Seq<CacheCall>)
    requires
        cache.enabled,
        forall|i: int| 0 <= i < calls.len() ==> is_access(#[trigger] calls[i]),
    ensures
        ({
            let off = cache.after_call(CacheCall::Enable(false));
            let used = off.after_calls(calls);
            &&& used == off
            &&& forall|attempt: WriteAttempt| #[trigger] used.route(attempt) == WriteRoute::Done
            &&& used.after_call(CacheCall::Enable(true)).reported() == cache.reported()
        }),
    decreases calls.len(),
{
    if calls.len() > 0 {
        assert(calls.last() == calls[calls.len() - 1]);
        assert forall|i: int| 0 <= i < calls.drop_last().len() implies is_access(
            #[trigger] calls.drop_last()[i],
        ) by {
            assert(calls.drop_last()[i] == calls[i]);
        }
        law_switching_off_hides_counters(cache, calls.drop_last());
    }
}

/// A row of the table.
pub struct StoredRow {
    pub key: String,
    pub text: String,
}

/// The record counts: it can be read and its dimensions are not empty.
pub open spec fn sound(text: Seq<char>) -> bool {
    decoded(text) is Some && decoded(text)->0.width > 0 && decoded(text)->0.height > 0
}

/// The keys of the rows whose soundness is as given, in table order.  Rows that
/// could not be read are passed over.
pub open spec fn row_keys(rows: Seq<Option<StoredRow>>, wanted: bool) -> Seq<Seq<char>>
    decreases rows.len(),
{
    if rows.len() == 0 {
        Seq::empty()
    } else {
        let before = row_keys(rows.drop_last(), wanted);
        match rows.last() {
            None => before,
            Some(row) => if sound(row.text@) == wanted {
                before.push(row.key@)
            } else {
                before
            },
        }
    }
}

/// `a` comes before `b` in the order of their characters.
pub open spec fn text_before(a: Seq<char>, b: Seq<char>) -> bool
    decreases a.len(),
{
    if b.len() == 0 {
        false
    } else if a.len() == 0 {
        true
    } else if a[0] != b[0] {
        (a[0] as u32) < (b[0] as u32)
    } else {
        text_before(a.skip(1), b.skip(1))
    }
}

/// `sorted` holds the same texts as `keys`, in order.
pub open spec fn sorted_texts(keys: Seq<Seq<char>>, sorted: Seq<Seq<char>>) -> bool {
    &&& sorted.to_multiset() == keys.to_multiset()
    &&& forall|i: int, j: int|
        0 <= i < j < sorted.len() ==> !text_before(#[trigger] sorted[j], #[trigger] sorted[i])
}

/// `slice::sort_unstable` on strings: the same strings, ordered by their
/// characters.
#[verifier::external_body]
fn sort_texts(keys: &mut Vec<String>)
    ensures
        sorted_texts(texts(old(keys)@), texts(final(keys)@)),
        final(keys)@.len() == old(keys)@.len(),
{
    keys.sort_unstable()
}

/// The keys that leave the table when it is pruned.
pub struct PrunePlan {
    /// Records that no longer count.
    pub expired: Vec<String>,
    /// Records that are too many.
    pub evicted: Vec<String>,
}

impl PrunePlan {
    /// The plan is right for the given rows: all unsound records leave, and of the
    /// sound ones those with the first keys, until at most `keep` are left.
    pub open spec fn prunes(self, rows: Seq<Option<StoredRow>>, keep: nat) -> bool {
        let retained = row_keys(rows, true);
        &&& texts(self.expired@) == row_keys(rows, false)
        &&& retained.len() <= keep ==> self.evicted@.len() == 0
        &&& retained.len() > keep ==> exists|sorted: Seq<Seq<char>>| #[trigger]
            sorted_texts(retained, sorted) && texts(self.evicted@) == sorted.take(
                retained.len() - keep,
            )
    }
}

/// Pruning leaves no unsound record behind, and no more than `keep` sound ones.
pub proof fn law_prune_bounds_table(plan: PrunePlan, rows: Seq<Option<StoredRow>>, keep: nat)
    requires
        plan.prunes(rows, keep),
    ensures
        texts(plan.expired@) == row_keys(rows, false),
        row_keys(rows, true).len() - plan.evicted@.len() <= keep,
        row_keys(rows, true).len() >= keep ==> row_keys(rows, true).len() - plan.evicted@.len() == keep,
{
    let retained = row_keys(rows, true);
    if retained.len() > keep {
        let sorted = choose|sorted: Seq<Seq<char>>| #[trigger]
            sorted_texts(retained, sorted) && texts(plan.evicted@) == sorted.take(
                retained.len() - keep,
            );
        retained.to_multiset_ensures();
        sorted.to_multiset_ensures();
        assert(texts(plan.evicted@).len() == plan.evicted@.len());
    }
}

impl MetadataCache {
    /// Decides which rows leave the table, and counts them.
    pub fn plan_prune(&mut self, rows: &Vec<Option<StoredRow>>) -> (plan: PrunePlan)
        ensures
            plan.prunes(rows@, DIMENSION_CACHE_MAX_ENTRIES as nat),
            *final(self) == old(self).after_prune(plan.expired@.len(), plan.evicted@.len()),
    {
        let mut expired: Vec<String> = Vec::new();
        let mut retained: Vec<String> = Vec::new();
        let mut i: usize = 0;
        assert(texts(expired@) =~= row_keys(rows@.take(0), false));
        assert(texts(retained@) =~= row_keys(rows@.take(0), true));
        while i < rows.len()
            invariant
                i <= rows@.len(),
                texts(expired@) == row_keys(rows@.take(i as int), false),
                texts(retained@) == row_keys(rows@.take(i as int), true),
            decreases rows@.len() - i,
        {
            let ghost longer = rows@.take(i + 1);
            let ghost expired_before = expired@;
            let ghost retained_before = retained@;
            assert(longer.drop_last() =~= rows@.take(i as int));
            assert(longer.last() == rows@[i as int]);
            match &rows[i] {
                None => {},
                Some(row) => {
                    let keeps = match decode_record(row.text.as_str()) {
                        None => false,
                        Some(record) => record.width != 0 && record.height != 0,
                    };
                    let key = row.key.clone();
                    if keeps {
                        retained.push(key);
                        assert(texts(retained@) =~= texts(retained_before).push(row.key@));
                    } else {
                        expired.push(key);
                        assert(texts(expired@) =~= texts(expired_before).push(row.key@));
                    }
                },
            }
            i = i + 1;
        }
        assert(rows@.take(i as int) =~= rows@);
        let ghost kept = texts(retained@);
        if retained.len() > DIMENSION_CACHE_MAX_ENTRIES {
            let surplus: usize = retained.len() - DIMENSION_CACHE_MAX_ENTRIES;
            sort_texts(&mut retained);
            let ghost sorted = texts(retained@);
            retained.truncate(surplus);
            assert(texts(retained@) =~= sorted.take(surplus as int));
            assert(sorted_texts(kept, sorted));
        } else {
            retained.clear();
        }
        self.stats.dimension_expired = count(self.stats.dimension_expired, expired.len() as u64);
        self.stats.dimension_evicted = count(self.stats.dimension_evicted, retained.len() as u64);
        PrunePlan { expired, evicted: retained }
    }

    /// Decides whether the table is pruned now: when a while has passed since the
    /// last time, or when the file is over its limit.
    pub fn maybe_prune_tables(&mut self, now_secs: u64, file_len: Option<u64>) -> (prune: PruneScope)
        ensures
            prune == old(self).prune_scope(now_secs, file_len),
            *final(self) == old(self).after_prune_decision(now_secs, file_len),
    {
        let due_to_interval = now_secs.saturating_sub(self.last_prune_secs) >= PRUNE_INTERVAL_SECS;
        let due_to_size = self.cache_needs_size_prune(file_len);
        if !due_to_interval && !due_to_size {
            return PruneScope::Nothing;
        }
        self.last_prune_secs = now_secs;
        if due_to_size {
            PruneScope::TableAndFile
        } else {
            PruneScope::Table
        }
    }

    /// Whether the file is still to be compacted once its table has been pruned
    /// because of its size.
    pub fn prune_to_size_limit(&self, file_len: Option<u64>) -> (compact: bool)
        ensures
            compact == self.over_limit(file_len),
    {
        if self.max_size_bytes == 0 {
            return false;
        }
        self.cache_needs_size_prune(file_len)
    }

    /// What to do next for a write, given what came of the last step.
    pub fn next_write_step(
        &self,
        stage: WriteStage,
        outcome: WriteOutcome,
        estimated_write_bytes: usize,
    ) -> (next: (WriteStage, WriteStep))
        ensures
            next == self.write_step(stage, outcome, estimated_write_bytes),
    {
        match (stage, outcome) {
            (WriteStage::Measuring, WriteOutcome::Measured(file_len)) => {
                if self.should_skip_write_due_to_size_limit(file_len, estimated_write_bytes) {
                    (WriteStage::Remeasuring, WriteStep::PruneAndMeasure)
                } else {
                    (WriteStage::Writing, WriteStep::Write)
                }
            },
            (WriteStage::Remeasuring, WriteOutcome::Measured(file_len)) => {
                if self.should_skip_write_due_to_size_limit(file_len, estimated_write_bytes) {
                    (WriteStage::Finished, WriteStep::Stop)
                } else {
                    (WriteStage::Writing, WriteStep::Write)
                }
            },
            (WriteStage::Writing, WriteOutcome::Written) => (WriteStage::Finished, WriteStep::Prune),
            _ => (WriteStage::Finished, WriteStep::Stop),
        }
    }

    /// The step that follows: a record that fits is written, and the table is
    /// pruned afterwards; one that does not fit gets one pruning to make room.
    pub open spec fn write_step(
        self,
        stage: WriteStage,
        outcome: WriteOutcome,
        growth: usize,
    ) -> (WriteStage, WriteStep) {
        match (stage, outcome) {
            (WriteStage::Measuring, WriteOutcome::Measured(file_len)) => if self.over_limit_after(
                file_len,
                growth,
            ) {
                (WriteStage::Remeasuring, WriteStep::PruneAndMeasure)
            } else {
                (WriteStage::Writing, WriteStep::Write)
            },
            (WriteStage::Remeasuring, WriteOutcome::Measured(file_len)) => if self.over_limit_after(
                file_len,
                growth,
            ) {
                (WriteStage::Finished, WriteStep::Stop)
            } else {
                (WriteStage::Writing, WriteStep::Write)
            },
            (WriteStage::Writing, WriteOutcome::Written) => (WriteStage::Finished, WriteStep::Prune),
            _ => (WriteStage::Finished, WriteStep::Stop),
        }
    }
}

/// A write goes ahead only where the file, as measured just before, keeps within
/// its limit, if there is one that can be exceeded.
pub proof fn law_write_keeps_limit(
    cache: MetadataCache,
    stage: WriteStage,
    file_len: Option<u64>,
    growth: usize,
)
    requires
        cache.write_step(stage, WriteOutcome::Measured(file_len), growth).1 == WriteStep::Write,
    ensures
        0 < cache.max_size_bytes < u64::MAX && file_len is Some ==> file_len->0 + growth
            <= cache.max_size_bytes,
{
}

/// How much is pruned.
#[derive(Clone, Copy, Debug, PartialEq, Eq, Structural)]
pub enum PruneScope {
    Nothing,
    Table,
    TableAndFile,
}

/// Where a write stands.
#[derive(Clone, Copy, Debug, PartialEq, Eq, Structural)]
pub enum WriteStage {
    /// The file is being measured.
    Measuring,
    /// The file is being measured again after a pruning.
    Remeasuring,
    /// The record is being written.
    Writing,
    Finished,
}

/// What came of the last step of a write.
#[derive(Clone, Copy, Debug)]
pub enum WriteOutcome {
    /// The length of the file, if it could be found out.
    Measured(Option<u64>),
    Written,
    Failed,
}

/// What a write does next.
#[derive(Clone, Copy, Debug, PartialEq, Eq, Structural)]
pub enum WriteStep {
    PruneAndMeasure,
    Write,
    Prune,
    Stop,
}

/// The cache answers for a file exactly when it has a readable record of a file of
/// that kind with a size, and then with the width and the height that stand in it.
pub proof fn law_answers_come_from_the_record(raw: Seq<char>, expected: CachedMediaKind)
    ensures
        usable_dimensions(None, expected) is None,
        match usable_dimensions(Some(raw), expected) {
            Some((width, height)) => decoded(raw) matches Some(record) && record.width == width
                && record.height == height && width > 0 && height > 0
                && record.file_type.spec_media_kind() == expected,
            None => decoded(raw) is None || decoded(raw)->0.width == 0 || decoded(raw)->0.height == 0
                || decoded(raw)->0.file_type.spec_media_kind() != expected,
        },
{
}

/// What is stored of a file is the size that was given, under the type that its first
/// bytes tell; nothing is stored of a file without a size, of an unknown type, or of
/// the other kind.
pub proof fn law_stored_record_is_of_the_file(
    kind: CachedMediaKind,
    width: u32,
    height: u32,
    header: Option<Seq<u8>>,
    content: Option<Seq<u8>>,
)
    ensures
        match storable_record(kind, width, height, header, content) {
            Some(record) => record.width == width && record.height == height && width != 0 && height
                != 0 && header is Some && signature_type(header->0) == Some(record.file_type)
                && record.file_type.spec_media_kind() == kind,
            None => width == 0 || height == 0 || header is None || signature_type(header->0) is None
                || signature_type(header->0)->0.spec_media_kind() != kind,
        },
{
}

/// A write is held back only by a limit, and only if the file together with the write
/// is longer than the limit.
pub proof fn law_writes_wait_at_the_limit(cache: MetadataCache, file_len: u64, growth: usize)
    requires
        file_len + growth <= u64::MAX,
    ensures
        cache.max_size_bytes == 0 ==> !cache.over_limit_after(Some(file_len), growth),
        cache.max_size_bytes > 0 ==> (cache.over_limit_after(Some(file_len), growth) <==> file_len
            + growth > cache.max_size_bytes),
        !cache.over_limit_after(None, growth),
        cache.over_limit(Some(file_len)) <==> 0 < cache.max_size_bytes < file_len,
{
}

/// A record that fits is written at once; one that does not makes the table be pruned
/// once, and is given up if it still does not fit.  The table is pruned after every
/// write, and a step that failed ends the write.
pub proof fn law_writes_run_their_course(
    cache: MetadataCache,
    file_len: Option<u64>,
    growth: usize,
    stage: WriteStage,
)
    ensures
        ({
            let measured = WriteOutcome::Measured(file_len);
            let fits = !cache.over_limit_after(file_len, growth);
            let first = cache.write_step(WriteStage::Measuring, measured, growth);
            let second = cache.write_step(WriteStage::Remeasuring, measured, growth);
            &&& fits ==> first.1 is Write && second.1 is Write
            &&& !fits ==> first.1 is PruneAndMeasure && second.1 is Stop
            &&& first.1 is PruneAndMeasure ==> first.0 is Remeasuring
            &&& first.1 is Write ==> first.0 is Writing
            &&& second.1 is Write ==> second.0 is Writing
            &&& cache.write_step(WriteStage::Writing, WriteOutcome::Written, growth) == (
                WriteStage::Finished,
                WriteStep::Prune,
            )
            &&& cache.write_step(stage, WriteOutcome::Failed, growth) == (
                WriteStage::Finished,
                WriteStep::Stop,
            )
        }),
{
}

/// The table is pruned once a minute, and at once together with its file where that is
/// too long.
pub proof fn law_prunings_keep_their_distance(
    cache: MetadataCache,
    now_secs: u64,
    file_len: Option<u64>,
)
    ensures
        cache.prune_scope(now_secs, file_len) is TableAndFile <==> cache.over_limit(file_len),
        cache.prune_scope(now_secs, file_len) is Nothing <==> !cache.over_limit(file_len) && now_secs
            < cache.last_prune_secs + 60,
        !(cache.prune_scope(now_secs, file_len) is Nothing) ==> cache.after_prune_decision(
            now_secs,
            file_len,
        ).last_prune_secs == now_secs,
        cache.prune_scope(now_secs, file_len) is Nothing ==> cache.after_prune_decision(
            now_secs,
            file_len,
        ) == cache,
{
}

/// Where sound records are too many, those that leave and those that stay are together
/// all of them, and none that stays comes before one that leaves.
pub proof fn law_first_keys_leave(plan: PrunePlan, rows: Seq<Option<StoredRow>>, keep: nat) -> (stays:
    Seq<Seq<char>>)
    requires
        plan.prunes(rows, keep),
    ensures
        (texts(plan.evicted@) + stays).to_multiset() == row_keys(rows, true).to_multiset(),
        stays.len() <= keep,
        plan.evicted@.len() > 0 ==> stays.len() == keep,
        forall|i: int, j: int|
            0 <= i < plan.evicted@.len() && 0 <= j < stays.len() ==> !text_before(
                #[trigger] stays[j],
                #[trigger] texts(plan.evicted@)[i],
            ),
{
    let retained = row_keys(rows, true);
    if retained.len() > keep {
        let sorted = choose|sorted: Seq<Seq<char>>| #[trigger]
            sorted_texts(retained, sorted) && texts(plan.evicted@) == sorted.take(
                retained.len() - keep,
            );
        retained.to_multiset_ensures();
        sorted.to_multiset_ensures();
        let stays = sorted.skip(retained.len() - keep);
        assert(texts(plan.evicted@) + stays =~= sorted);
        assert(texts(plan.evicted@).len() == plan.evicted@.len());
        stays
    } else {
        assert(texts(plan.evicted@) + retained =~= retained);
        retained
    }
}

/// Of two texts with the same beginning the shorter comes first, or else the one whose
/// next character does.
pub proof fn law_texts_are_ordered_by_their_first_difference(
    start: Seq<char>,
    a: Seq<char>,
    b: Seq<char>,
)
    ensures
        text_before(start + a, start + b) == text_before(a, b),
        a.len() == 0 ==> (text_before(start + a, start + b) <==> b.len() > 0),
        a.len() > 0 && b.len() == 0 ==> !text_before(start + a, start + b),
        a.len() > 0 && b.len() > 0 && a[0] != b[0] ==> (text_before(start + a, start + b)
            <==> (a[0] as u32) < (b[0] as u32)),
    decreases start.len(),
{
    if start.len() > 0 {
        law_texts_are_ordered_by_their_first_difference(start.skip(1), a, b);
        assert((start + a).skip(1) =~= start.skip(1) + a);
        assert((start + b).skip(1) =~= start.skip(1) + b);
    } else {
        assert(start + a =~= a);
        assert(start + b =~= b);
    }
}

/// Each lookup counts once, as a hit or as a miss.
pub proof fn law_lookups_count_once(cache: MetadataCache, found: Option<(u32, u32)>)
    requires
        cache.enabled,
        cache.stats.dimension_hits < u64::MAX,
        cache.stats.dimension_misses < u64::MAX,
    ensures
        cache.after_lookup(found).stats.dimension_hits + cache.after_lookup(
            found,
        ).stats.dimension_misses == cache.stats.dimension_hits + cache.stats.dimension_misses + 1,
        found is Some <==> cache.after_lookup(found).stats.dimension_hits
            == cache.stats.dimension_hits + 1,
        found is None <==> cache.after_lookup(found).stats.dimension_misses
            == cache.stats.dimension_misses + 1,
        cache.after_lookup(found).enabled,
{
}

/// A size limit is given in units of 1024 times 1024 bytes.
pub proof fn law_size_limit_is_in_mebibytes(cache: MetadataCache, megabytes: u64)
    ensures
        megabytes * 1024 * 1024 <= u64::MAX ==> cache.with_size_limit(megabytes).max_size_bytes
            == megabytes * 1024 * 1024,
        megabytes * 1024 * 1024 > u64::MAX ==> cache.with_size_limit(megabytes).max_size_bytes
            == u64::MAX,
        cache.with_size_limit(megabytes).stats == cache.stats,
{
}

/// A write goes to the background writer first and is made directly only where that
/// refused it.
pub proof fn law_background_writer_comes_first(cache: MetadataCache, attempt: WriteAttempt)
    ensures
        cache.route(attempt) is Queue <==> cache.enabled && attempt is Fresh,
        cache.route(attempt) is Direct <==> cache.enabled && attempt is Refused,
{
}

/// What is stored of a file is what a later lookup of its kind finds.
pub proof fn law_what_is_stored_is_found(
    cache: &MetadataCache,
    key: String,
    kind: CachedMediaKind,
    width: u32,
    height: u32,
    header: Option<&[u8]>,
    content: Option<&[u8]>,
    write: PendingWrite,
    stored: &str,
    asked: CachedMediaKind,
    found: Option<(u32, u32)>,
)
    requires
        call_ensures(
            MetadataCache::store_dimensions,
            (cache, key, kind, width, height, header, content),
            Some(write),
        ),
        stored@ == write.text@,
        call_ensures(MetadataCache::lookup_dimensions, (cache, Some(stored), asked), found),
    ensures
        write.key@ == key@,
        asked == kind ==> found == Some((width, height)),
        asked != kind ==> found is None,
        width > 0 && height > 0,
{
    let record = storable_record(kind, width, height, slice_view(header), slice_view(content))->0;
    law_record_round_trip(record);
}

/// Nothing is stored of a file whose first bytes are missing or without a size.
pub proof fn law_unknown_files_are_not_stored(
    cache: &MetadataCache,
    key: String,
    kind: CachedMediaKind,
    width: u32,
    height: u32,
    header: Option<&[u8]>,
    content: Option<&[u8]>,
    write: Option<PendingWrite>,
)
    requires
        call_ensures(
            MetadataCache::store_dimensions,
            (cache, key, kind, width, height, header, content),
            write,
        ),
    ensures
        header is None || width == 0 || height == 0 ==> write is None,
{
}

/// Nothing is found without a record.
pub proof fn law_nothing_is_found_without_a_record(
    cache: &MetadataCache,
    kind: CachedMediaKind,
    found: Option<(u32, u32)>,
)
    requires
        call_ensures(MetadataCache::lookup_dimensions, (cache, None::<&str>, kind), found),
    ensures
        found is None,
{
}

/// Looking several files up finds of each what looking it up alone finds.
pub proof fn law_batches_find_the_same(
    cache: &MetadataCache,
    items: &Vec<(Option<String>, CachedMediaKind)>,
    batch: Vec<Option<(u32, u32)>>,
    i: int,
    text: &str,
    alone: Option<(u32, u32)>,
)
    requires
        call_ensures(MetadataCache::lookup_dimensions_batch, (cache, items), batch),
        0 <= i < items@.len(),
        items@[i].0 matches Some(stored) && stored@ == text@,
        call_ensures(MetadataCache::lookup_dimensions, (cache, Some(text), items@[i].1), alone),
    ensures
        batch@.len() == items@.len(),
        batch@[i] == alone,
{
}

/// A cache that is switched off finds nothing and counts nothing; one that is on counts
/// each lookup as a hit or as a miss.
pub proof fn law_switched_off_caches_find_nothing(
    cache: &mut MetadataCache,
    raw: Option<&str>,
    kind: CachedMediaKind,
    found: Option<(u32, u32)>,
)
    requires
        call_ensures(lookup_cached_dimensions, (cache, raw, kind), found),
        old(cache).stats.dimension_hits < u64::MAX,
        old(cache).stats.dimension_misses < u64::MAX,
    ensures
        !old(cache).enabled ==> found is None && *final(cache) == *old(cache),
        old(cache).enabled && found is Some ==> final(cache).stats.dimension_hits == old(
            cache).stats.dimension_hits + 1 && final(cache).stats.dimension_misses == old(
            cache).stats.dimension_misses,
        old(cache).enabled && found is None ==> final(cache).stats.dimension_misses == old(
            cache).stats.dimension_misses + 1 && final(cache).stats.dimension_hits == old(
            cache).stats.dimension_hits,
        found is Some ==> raw is Some,
        final(cache).enabled == old(cache).enabled,
        final(cache).max_size_bytes == old(cache).max_size_bytes,
{
}

/// A batch counts as many lookups as it makes.
pub proof fn law_batches_are_counted(
    cache: &mut MetadataCache,
    items: &Vec<(Option<String>, CachedMediaKind)>,
    found: Vec<Option<(u32, u32)>>,
)
    requires
        call_ensures(lookup_cached_dimensions_batch, (cache, items), found),
        old(cache).enabled,
        old(cache).stats.dimension_hits + items@.len() <= u64::MAX,
        old(cache).stats.dimension_misses + items@.len() <= u64::MAX,
    ensures
        found@.len() == items@.len(),
        final(cache).stats.dimension_hits + final(cache).stats.dimension_misses == old(
            cache).stats.dimension_hits + old(cache).stats.dimension_misses + items@.len(),
        final(cache).stats.dimension_hits >= old(cache).stats.dimension_hits,
        final(cache).stats.dimension_misses >= old(cache).stats.dimension_misses,
{
    lemma_hits_at_most(found@);
}

proof fn lemma_hits_at_most(results: Seq<Option<(u32, u32)>>)
    ensures
        hits(results) <= results.len(),
    decreases results.len(),
{
    if results.len() > 0 {
        lemma_hits_at_most(results.drop_last());
    }
}

/// The number of hits is the number of results that there are.
pub proof fn law_hits_are_results(results: Seq<Option<(u32, u32)>>, next: Option<(u32, u32)>)
    ensures
        hits(results.push(next)) == hits(results) + (if next is Some {
            1nat
        } else {
            0nat
        }),
        hits(Seq::<Option<(u32, u32)>>::empty()) == 0,
        hits(results) <= results.len(),
{
    assert(results.push(next).drop_last() =~= results);
    lemma_hits_at_most(results);
}

/// A write waits, and a file is compacted, only at a limit, and only beyond it.
pub proof fn law_limits_hold_writes_back(
    cache: &MetadataCache,
    file_len: u64,
    growth: usize,
    skip: bool,
    prune: bool,
    compact: bool,
)
    requires
        call_ensures(
            MetadataCache::should_skip_write_due_to_size_limit,
            (cache, Some(file_len), growth),
            skip,
        ),
        call_ensures(MetadataCache::cache_needs_size_prune, (cache, Some(file_len)), prune),
        call_ensures(MetadataCache::prune_to_size_limit, (cache, Some(file_len)), compact),
        file_len + growth <= u64::MAX,
    ensures
        skip <==> 0 < cache.max_size_bytes < file_len + growth,
        prune <==> 0 < cache.max_size_bytes < file_len,
        compact == prune,
{
}

/// Switching the cache on or off, or limiting its size, changes nothing else, and what
/// was set is what is reported.
pub proof fn law_settings_are_reported(
    switched: &mut MetadataCache,
    enabled: bool,
    limited: &mut MetadataCache,
    megabytes: u64,
    after_switch: &MetadataCache,
    reported: bool,
    after_limit: &MetadataCache,
    bytes: u64,
)
    requires
        call_ensures(set_metadata_cache_enabled, (switched, enabled), ()),
        *after_switch == *final(switched),
        call_ensures(metadata_cache_access_enabled, (after_switch,), reported),
        call_ensures(configure_metadata_cache_size_limit, (limited, megabytes), ()),
        *after_limit == *final(limited),
        call_ensures(metadata_cache_max_size_bytes, (after_limit,), bytes),
        megabytes * 1_048_576 <= u64::MAX,
    ensures
        reported == enabled,
        final(switched).stats == old(switched).stats,
        final(switched).max_size_bytes == old(switched).max_size_bytes,
        bytes == megabytes * 1_048_576,
        final(limited).stats == old(limited).stats,
        final(limited).enabled == old(limited).enabled,
{
}

/// A cache that is switched off reports that nothing was counted.
pub proof fn law_switched_off_caches_report_nothing(cache: &MetadataCache, stats: MetadataCacheStats)
    requires
        call_ensures(metadata_cache_stats, (cache,), stats),
    ensures
        cache.enabled ==> stats == cache.stats,
        !cache.enabled ==> stats.dimension_hits == 0 && stats.dimension_misses == 0
            && stats.dimension_expired == 0 && stats.dimension_evicted == 0,
{
}

/// A new cache is off, has counted nothing, and has a limit.
pub proof fn law_new_caches_are_off(cache: MetadataCache)
    requires
        call_ensures(MetadataCache::new, (), cache),
    ensures
        !cache.enabled,
        cache.stats.dimension_hits == 0 && cache.stats.dimension_misses == 0,
        cache.max_size_bytes == 1024 * 1024 * 1024,
{
}

/// A write goes to the background writer, is made directly only where that refused it, and
/// is dropped where the cache is off.
pub proof fn law_writes_find_their_way(
    cache: &MetadataCache,
    fresh: WriteRoute,
    queued: WriteRoute,
    refused: WriteRoute,
)
    requires
        call_ensures(store_cached_dimensions, (cache, WriteAttempt::Fresh), fresh),
        call_ensures(store_cached_dimensions, (cache, WriteAttempt::Queued), queued),
        call_ensures(store_cached_dimensions, (cache, WriteAttempt::Refused), refused),
    ensures
        fresh is Queue <==> cache.enabled,
        refused is Direct <==> cache.enabled,
        queued is Done,
        !cache.enabled ==> fresh is Done && refused is Done,
{
}

/// Pruning takes out every record that cannot be read or has no size, and as many sound
/// ones as are too many, which are counted.
pub proof fn law_pruning_is_counted(
    cache: &mut MetadataCache,
    rows: &Vec<Option<StoredRow>>,
    plan: PrunePlan,
)
    requires
        call_ensures(MetadataCache::plan_prune, (cache, rows), plan),
        old(cache).stats.dimension_expired + plan.expired@.len() <= u64::MAX,
        old(cache).stats.dimension_evicted + plan.evicted@.len() <= u64::MAX,
    ensures
        final(cache).stats.dimension_expired == old(cache).stats.dimension_expired
            + plan.expired@.len(),
        final(cache).stats.dimension_evicted == old(cache).stats.dimension_evicted
            + plan.evicted@.len(),
        final(cache).stats.dimension_hits == old(cache).stats.dimension_hits,
        rows@.len() == 0 ==> plan.expired@.len() == 0 && plan.evicted@.len() == 0,
        rows@.len() == 1 ==> (rows@[0] matches Some(row) ==> {
            &&& plan.evicted@.len() == 0
            &&& decoded(row.text@) is None ==> plan.expired@.len() == 1 && plan.expired@[0]@ == row.key@
            &&& (decoded(row.text@) matches Some(record) && record.width > 0 && record.height > 0)
                ==> plan.expired@.len() == 0
        }),
{
    assert(texts(plan.expired@).len() == plan.expired@.len());
    if rows@.len() == 1 {
        assert(rows@.drop_last().len() == 0);
        assert(row_keys(rows@.drop_last(), true).len() == 0);
        assert(row_keys(rows@.drop_last(), false).len() == 0);
        assert(rows@.last() == rows@[0]);
        if plan.expired@.len() == 1 {
            assert(texts(plan.expired@)[0] == plan.expired@[0]@);
        }
    }
}

/// The rows are told apart by whether they are sound, each in its place.
pub proof fn law_rows_are_sound_or_not(rows: Seq<Option<StoredRow>>, row: StoredRow)
    ensures
        sound(row.text@) ==> row_keys(rows.push(Some(row)), true) == row_keys(rows, true).push(
            row.key@,
        ) && row_keys(rows.push(Some(row)), false) == row_keys(rows, false),
        !sound(row.text@) ==> row_keys(rows.push(Some(row)), false) == row_keys(rows, false).push(
            row.key@,
        ) && row_keys(rows.push(Some(row)), true) == row_keys(rows, true),
        row_keys(rows.push(None), true) == row_keys(rows, true),
        decoded(row.text@) is None ==> !sound(row.text@),
        decoded(row.text@) matches Some(record) ==> (sound(row.text@) <==> record.width > 0
            && record.height > 0),
{
    assert(rows.push(Some(row)).drop_last() =~= rows);
    assert(rows.push(None).drop_last() =~= rows);
}

/// The table is pruned at most once a minute, but at once where the file is too long.
pub proof fn law_tables_are_pruned_in_time(
    cache: &mut MetadataCache,
    now: u64,
    file_len: Option<u64>,
    scope: PruneScope,
    too_long: bool,
)
    requires
        call_ensures(MetadataCache::maybe_prune_tables, (cache, now, file_len), scope),
        too_long == (file_len matches Some(len) && 0 < old(cache).max_size_bytes < len),
    ensures
        scope is TableAndFile <==> too_long,
        scope is Nothing <==> !too_long && now < old(cache).last_prune_secs + 60,
        scope is Nothing ==> *final(cache) == *old(cache),
        !(scope is Nothing) ==> final(cache).last_prune_secs == now && final(cache).stats == old(
            cache).stats,
{
}

/// A record that fits is written, one that does not is given up after one pruning.
pub proof fn law_writes_take_their_steps(
    cache: &MetadataCache,
    file_len: u64,
    growth: usize,
    first: (WriteStage, WriteStep),
    second: (WriteStage, WriteStep),
    done: (WriteStage, WriteStep),
)
    requires
        call_ensures(
            MetadataCache::next_write_step,
            (cache, WriteStage::Measuring, WriteOutcome::Measured(Some(file_len)), growth),
            first,
        ),
        call_ensures(
            MetadataCache::next_write_step,
            (cache, WriteStage::Remeasuring, WriteOutcome::Measured(Some(file_len)), growth),
            second,
        ),
        call_ensures(
            MetadataCache::next_write_step,
            (cache, WriteStage::Writing, WriteOutcome::Written, growth),
            done,
        ),
        file_len + growth <= u64::MAX,
    ensures
        first.1 is Write <==> cache.max_size_bytes == 0 || file_len + growth <= cache.max_size_bytes,
        second.1 is Write <==> first.1 is Write,
        first.1 is PruneAndMeasure <==> !(first.1 is Write),
        second.1 is Stop <==> !(second.1 is Write),
        first.1 is Write ==> first.0 is Writing,
        first.1 is PruneAndMeasure ==> first.0 is Remeasuring,
        done.1 is Prune && done.0 is Finished,
{
}

/// The table keeps eighty thousand sound records at most, and gives none up before that.
pub proof fn law_tables_keep_many_records(
    cache: &mut MetadataCache,
    rows: &Vec<Option<StoredRow>>,
    plan: PrunePlan,
)
    requires
        call_ensures(MetadataCache::plan_prune, (cache, rows), plan),
    ensures
        row_keys(rows@, true).len() <= 80_000 ==> plan.evicted@.len() == 0,
        row_keys(rows@, true).len() > 80_000 ==> row_keys(rows@, true).len() - plan.evicted@.len()
            == 80_000,
        plan.expired@.len() == row_keys(rows@, false).len(),
{
    law_prune_bounds_table(plan, rows@, 80_000);
    assert(texts(plan.expired@).len() == plan.expired@.len());
}

/// A write is reckoned with its key, its text and half a kibibyte.
pub proof fn law_writes_are_reckoned_with_their_size(
    cache: &MetadataCache,
    key: String,
    kind: CachedMediaKind,
    width: u32,
    height: u32,
    header: Option<&[u8]>,
    content: Option<&[u8]>,
    write: PendingWrite,
)
    requires
        call_ensures(
            MetadataCache::store_dimensions,
            (cache, key, kind, width, height, header, content),
            Some(write),
        ),
        encode_utf8(key@).len() + encode_utf8(write.text@).len() + 512 <= usize::MAX,
    ensures
        write.estimated_write_bytes == encode_utf8(key@).len() + encode_utf8(write.text@).len() + 512,
{
}

} // verus!
