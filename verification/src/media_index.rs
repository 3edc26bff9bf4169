//! Which media files a directory holds, remembered so that moving from file to
//! file does not scan the directory again and again.

use crate::recency::{
    distinct_keys, has_key, lemma_lookup_at, lemma_stored, lemma_touched, lemma_without,
    lemma_written, lookup, position, stored, touched, without,
};
use crate::text::texts;
use vstd::prelude::*;

verus! {

/// How many directories are remembered unless another number is given.
pub const DEFAULT_CACHED_DIRECTORIES: usize = 64;

/// How long the listing of a directory without a modification time is used, in
/// nanoseconds.
pub const UNKNOWN_MTIME_RESCAN_INTERVAL: u64 = 2_000_000_000;

/// What is remembered of a directory.
#[derive(Clone)]
pub struct DirectoryCacheEntry {
    /// The media files, by their paths.
    pub files: Vec<String>,
    /// When the directory was modified, in nanoseconds from the epoch.
    pub modified_at: Option<i128>,
    /// When the directory was scanned, in nanoseconds of program time.
    pub scanned_at: u64,
}

/// What a [`DirectoryCacheEntry`] says.
pub struct DirectoryListing {
    pub files: Seq<Seq<char>>,
    pub modified_at: Option<i128>,
    pub scanned_at: u64,
}

impl View for DirectoryCacheEntry {
    type V = DirectoryListing;

    open spec fn view(&self) -> DirectoryListing {
        DirectoryListing {
            files: texts(self.files@),
            modified_at: self.modified_at,
            scanned_at: self.scanned_at,
        }
    }
}

impl DirectoryListing {
    /// The listing still holds: the directory has the modification time that it
    /// had, or it never had one and the scan is recent.
    pub open spec fn fresh(self, modified_at: Option<i128>, now: u64) -> bool {
        match (self.modified_at, modified_at) {
            (Some(previous), Some(current)) => previous == current,
            (None, None) => now - self.scanned_at < UNKNOWN_MTIME_RESCAN_INTERVAL,
            _ => false,
        }
    }
}

/// How often a listing was at hand.
#[derive(Debug, Clone, Copy)]
pub struct MediaDirectoryIndexStats {
    pub hits: u64,
    pub misses: u64,
    pub scans: u64,
}

impl Default for MediaDirectoryIndexStats {
    fn default() -> (stats: Self)
        ensures
            stats == (MediaDirectoryIndexStats { hits: 0, misses: 0, scans: 0 }),
    {
        MediaDirectoryIndexStats { hits: 0, misses: 0, scans: 0 }
    }
}

/// One more, unless the counter is full.
pub open spec fn bumped(counter: u64) -> u64 {
    if counter == u64::MAX {
        counter
    } else {
        (counter + 1) as u64
    }
}

/// What a `lru::LruCache` of directories holds, from the directory used longest
/// ago to the directory used last.
pub uninterp spec fn lru_directories(cache: lru::LruCache<String, DirectoryCacheEntry>) -> Seq<
    (Seq<char>, DirectoryListing),
>;

/// The capacity of a `lru::LruCache` of directories.
pub uninterp spec fn lru_directory_limit(cache: lru::LruCache<String, DirectoryCacheEntry>) -> nat;

/// `lru::LruCache::new`: an empty cache with the given capacity.  It allocates
/// its table at once, and panics where the table's size cannot be represented.
#[verifier::external_body]
fn directory_lru_new(limit: usize) -> (cache: lru::LruCache<String, DirectoryCacheEntry>)
    requires
        0 < limit <= usize::MAX / 256,
    ensures
        lru_directories(cache).len() == 0,
        lru_directory_limit(cache) == limit,
{
    lru::LruCache::new(std::num::NonZeroUsize::new(limit).unwrap())
}

/// `lru::LruCache::get`: a copy of what is held for the directory, which becomes
/// the most recent one.
#[verifier::external_body]
fn directory_lru_get(
    cache: &mut lru::LruCache<String, DirectoryCacheEntry>,
    directory: &str,
) -> (entry: Option<DirectoryCacheEntry>)
    ensures
        lru_directory_limit(*final(cache)) == lru_directory_limit(*old(cache)),
        lru_directories(*final(cache)) == touched(lru_directories(*old(cache)), directory@),
        entry is Some <==> lookup(lru_directories(*old(cache)), directory@) is Some,
        entry matches Some(e) ==> e@ == lookup(lru_directories(*old(cache)), directory@)->0,
{
    cache.get(directory).cloned()
}

/// `lru::LruCache::put`: writes the entry of the directory and makes it the most
/// recent one.  Where the cache was full, the directory used longest ago leaves.
#[verifier::external_body]
fn directory_lru_put(
    cache: &mut lru::LruCache<String, DirectoryCacheEntry>,
    directory: String,
    entry: DirectoryCacheEntry,
)
    ensures
        lru_directory_limit(*final(cache)) == lru_directory_limit(*old(cache)),
        lru_directories(*final(cache)) == stored(
            lru_directories(*old(cache)),
            directory@,
            entry@,
            lru_directory_limit(*old(cache)),
        ),
{
    cache.put(directory, entry);
}

/// `lru::LruCache::pop`: takes the entry of the directory out.
#[verifier::external_body]
fn directory_lru_pop(cache: &mut lru::LruCache<String, DirectoryCacheEntry>, directory: &str)
    ensures
        lru_directory_limit(*final(cache)) == lru_directory_limit(*old(cache)),
        lru_directories(*final(cache)) == without(lru_directories(*old(cache)), directory@),
{
    cache.pop(directory);
}

/// What an index remembers.
pub struct DirectoryIndexState {
    /// The directories, the one used longest ago first.
    pub recency: Seq<(Seq<char>, DirectoryListing)>,
    pub limit: nat,
    pub stats: MediaDirectoryIndexStats,
}

impl DirectoryIndexState {
    pub open spec fn wf(self) -> bool {
        &&& self.limit > 0
        &&& self.recency.len() <= self.limit
        &&& distinct_keys(self.recency)
    }

    /// There is a listing of the directory that still holds.
    pub open spec fn has_fresh(self, directory: Seq<char>, modified_at: Option<i128>, now: u64) -> bool {
        match lookup(self.recency, directory) {
            Some(listing) => listing.fresh(modified_at, now),
            None => false,
        }
    }

    /// The index after it was asked for a directory.
    pub open spec fn asked(self, directory: Seq<char>, modified_at: Option<i128>, now: u64) -> Self {
        DirectoryIndexState {
            recency: touched(self.recency, directory),
            limit: self.limit,
            stats: if self.has_fresh(directory, modified_at, now) {
                MediaDirectoryIndexStats { hits: bumped(self.stats.hits), ..self.stats }
            } else {
                MediaDirectoryIndexStats {
                    misses: bumped(self.stats.misses),
                    scans: bumped(self.stats.scans),
                    ..self.stats
                }
            },
        }
    }

    /// The index after a directory was scanned.
    pub open spec fn scanned(self, directory: Seq<char>, listing: DirectoryListing) -> Self {
        DirectoryIndexState {
            recency: stored(self.recency, directory, listing, self.limit),
            ..self
        }
    }
}

/// The answer of an index.
pub enum DirectoryAnswer {
    /// The media files of the directory.
    Files(Vec<String>),
    /// The directory has to be scanned.
    Scan,
}

/// Remembers which media files the directories used last hold.
pub struct MediaDirectoryIndex {
    cache: lru::LruCache<String, DirectoryCacheEntry>,
    stats: MediaDirectoryIndexStats,
}

impl View for MediaDirectoryIndex {
    type V = DirectoryIndexState;

    closed spec fn view(&self) -> DirectoryIndexState {
        DirectoryIndexState {
            recency: lru_directories(self.cache),
            limit: lru_directory_limit(self.cache),
            stats: self.stats,
        }
    }
}

impl MediaDirectoryIndex {
    pub closed spec fn wf(&self) -> bool {
        self@.wf()
    }

    /// An empty index for at most the given number of directories, and one at
    /// least.
    pub fn new(max_cached_directories: usize) -> (index: Self)
        requires
            max_cached_directories <= usize::MAX / 256,
        ensures
            index.wf(),
            index@.recency == Seq::<(Seq<char>, DirectoryListing)>::empty(),
            index@.limit == (if max_cached_directories == 0 {
                1
            } else {
                max_cached_directories as nat
            }),
            index@.stats == (MediaDirectoryIndexStats { hits: 0, misses: 0, scans: 0 }),
    {
        let limit: usize = if max_cached_directories == 0 {
            1
        } else {
            max_cached_directories
        };
        let index = MediaDirectoryIndex {
            cache: directory_lru_new(limit),
            stats: MediaDirectoryIndexStats::default(),
        };
        assert(index@.recency =~= Seq::<(Seq<char>, DirectoryListing)>::empty());
        index
    }

    pub fn stats(&self) -> (stats: MediaDirectoryIndexStats)
        ensures
            stats == self@.stats,
    {
        self.stats
    }

    /// Forgets what is remembered of a directory.
    pub fn invalidate_directory(&mut self, directory: &str)
        requires
            old(self).wf(),
        ensures
            final(self).wf(),
            final(self)@ == (DirectoryIndexState {
                recency: without(old(self)@.recency, directory@),
                ..old(self)@
            }),
    {
        proof {
            lemma_without(self@.recency, directory@);
        }
        directory_lru_pop(&mut self.cache, directory);
    }

    /// The media files next to `path`, if they are known.  `directory` is the
    /// directory that `path` is in and `modified_at` its modification time.  A
    /// path that is in no directory stands alone.
    pub fn media_in_directory_for_path(
        &mut self,
        path: &str,
        directory: Option<&str>,
        modified_at: Option<i128>,
        now: u64,
    ) -> (answer: DirectoryAnswer)
        requires
            old(self).wf(),
        ensures
            final(self).wf(),
            directory is None ==> {
                &&& final(self)@ == old(self)@
                &&& answer matches DirectoryAnswer::Files(files) && texts(files@) == seq![path@]
            },
            directory matches Some(d) ==> {
                &&& final(self)@ == old(self)@.asked(d@, modified_at, now)
                &&& answer is Files <==> old(self)@.has_fresh(d@, modified_at, now)
                &&& answer matches DirectoryAnswer::Files(files) ==> texts(files@) == lookup(
                    old(self)@.recency,
                    d@,
                )->0.files
            },
    {
        let parent = match directory {
            Some(parent) => parent,
            None => {
                let mut alone: Vec<String> = Vec::new();
                alone.push(path.to_owned());
                assert(texts(alone@) =~= seq![path@]);
                return DirectoryAnswer::Files(alone);
            },
        };
        proof {
            lemma_touched(self@.recency, parent@);
        }
        match directory_lru_get(&mut self.cache, parent) {
            Some(entry) => {
                if is_entry_fresh(&entry, modified_at, now) {
                    self.stats.hits = self.stats.hits.saturating_add(1);
                    return DirectoryAnswer::Files(entry.files);
                }
            },
            None => {},
        }
        self.stats.misses = self.stats.misses.saturating_add(1);
        self.stats.scans = self.stats.scans.saturating_add(1);
        DirectoryAnswer::Scan
    }

    /// Remembers what a scan of a directory found.
    pub fn record_scan(
        &mut self,
        directory: String,
        files: Vec<String>,
        modified_at: Option<i128>,
        scanned_at: u64,
    )
        requires
            old(self).wf(),
        ensures
            final(self).wf(),
            final(self)@ == old(self)@.scanned(
                directory@,
                (DirectoryListing { files: texts(files@), modified_at, scanned_at }),
            ),
    {
        let entry = DirectoryCacheEntry { files, modified_at, scanned_at };
        proof {
            lemma_stored(self@.recency, directory@, entry@, self@.limit);
        }
        directory_lru_put(&mut self.cache, directory, entry);
    }
}

impl Default for MediaDirectoryIndex {
    fn default() -> (index: Self)
        ensures
            index.wf(),
            index@.recency == Seq::<(Seq<char>, DirectoryListing)>::empty(),
            index@.limit == DEFAULT_CACHED_DIRECTORIES,
            index@.stats == (MediaDirectoryIndexStats { hits: 0, misses: 0, scans: 0 }),
    {
        Self::new(DEFAULT_CACHED_DIRECTORIES)
    }
}

/// Whether what is remembered of a directory still holds.
pub fn is_entry_fresh(entry: &DirectoryCacheEntry, modified_at: Option<i128>, now: u64) -> (fresh: bool)
    ensures
        fresh == entry@.fresh(modified_at, now),
{
    match (entry.modified_at, modified_at) {
        (Some(previous), Some(current)) => previous == current,
        (None, None) => now.saturating_sub(entry.scanned_at) < UNKNOWN_MTIME_RESCAN_INTERVAL,
        _ => false,
    }
}

/// A scan answers the next question about its directory, as long as the
/// directory is not modified, or for a while where that cannot be told.
pub proof fn law_scan_is_remembered(
    state: DirectoryIndexState,
    directory: Seq<char>,
    listing: DirectoryListing,
    now: u64,
)
    requires
        state.wf(),
        listing.modified_at is Some || now - listing.scanned_at < UNKNOWN_MTIME_RESCAN_INTERVAL,
    ensures
        state.scanned(directory, listing).has_fresh(directory, listing.modified_at, now),
        lookup(state.scanned(directory, listing).recency, directory) == Some(listing),
{
    lemma_stored(state.recency, directory, listing, state.limit);
}

/// A directory whose modification time changed is scanned again.
pub proof fn law_change_forces_scan(
    state: DirectoryIndexState,
    directory: Seq<char>,
    listing: DirectoryListing,
    modified_at: Option<i128>,
    now: u64,
)
    requires
        state.wf(),
        modified_at != listing.modified_at,
    ensures
        !state.scanned(directory, listing).has_fresh(directory, modified_at, now),
{
    lemma_stored(state.recency, directory, listing, state.limit);
}

/// A use of an index.
pub enum IndexCall {
    /// It is asked for what is next to a path, in a directory with a modification
    /// time.
    Ask(Option<Seq<char>>, Option<i128>, u64),
    /// A scan of a directory is recorded.
    Scan(Seq<char>, DirectoryListing),
    /// A directory is forgotten.
    Invalidate(Seq<char>),
}

impl DirectoryIndexState {
    /// The index after one use.
    pub open spec fn after_call(self, call: IndexCall) -> Self {
        match call {
            IndexCall::Ask(Some(directory), modified_at, now) => self.asked(
                directory,
                modified_at,
                now,
            ),
            IndexCall::Ask(None, _, _) => self,
            IndexCall::Scan(directory, listing) => self.scanned(directory, listing),
            IndexCall::Invalidate(directory) => DirectoryIndexState {
                recency: without(self.recency, directory),
                ..self
            },
        }
    }

    /// The index after some uses.
    pub open spec fn after_calls(self, calls: Seq<IndexCall>) -> Self
        decreases calls.len(),
    {
        if calls.len() == 0 {
            self
        } else {
            self.after_calls(calls.drop_last()).after_call(calls.last())
        }
    }
}

/// How often it was asked for what is next to a path that is in a directory.
pub open spec fn questions(calls: Seq<IndexCall>) -> int
    decreases calls.len(),
{
    if calls.len() == 0 {
        0
    } else if calls.last() matches IndexCall::Ask(Some(_), _, _) {
        questions(calls.drop_last()) + 1
    } else {
        questions(calls.drop_last())
    }
}

/// What the last scan of a directory found, if there was one.
pub open spec fn last_scan(calls: Seq<IndexCall>, directory: Seq<char>) -> Option<DirectoryListing>
    decreases calls.len(),
{
    if calls.len() == 0 {
        None
    } else {
        match calls.last() {
            IndexCall::Scan(scanned, listing) => if scanned == directory {
                Some(listing)
            } else {
                last_scan(calls.drop_last(), directory)
            },
            _ => last_scan(calls.drop_last(), directory),
        }
    }
}

/// Whatever a new index was used for, each question with a directory counts as a hit
/// or as a miss, and each miss asks for a scan.  What is remembered of a directory,
/// and so what a hit answers, is what the last scan of it found.
pub proof fn law_questions_are_counted(
    new: DirectoryIndexState,
    calls: Seq<IndexCall>,
    directory: Seq<char>,
)
    requires
        new.limit > 0,
        new.recency == Seq::<(Seq<char>, DirectoryListing)>::empty(),
        new.stats == (MediaDirectoryIndexStats { hits: 0, misses: 0, scans: 0 }),
        questions(calls) <= u64::MAX,
    ensures
        new.after_calls(calls).wf(),
        new.after_calls(calls).stats.hits + new.after_calls(calls).stats.misses == questions(calls),
        new.after_calls(calls).stats.scans == new.after_calls(calls).stats.misses,
        lookup(new.after_calls(calls).recency, directory) matches Some(listing) ==> last_scan(
            calls,
            directory,
        ) == Some(listing),
    decreases calls.len(),
{
    if calls.len() > 0 {
        law_questions_are_counted(new, calls.drop_last(), directory);
        let before = new.after_calls(calls.drop_last());
        match calls.last() {
            IndexCall::Ask(Some(asked), modified_at, now) => {
                lemma_touched(before.recency, asked);
                law_asking_forgets_nothing(before, asked, modified_at, now, directory);
            },
            IndexCall::Ask(None, _, _) => {},
            IndexCall::Scan(scanned, listing) => {
                lemma_stored(before.recency, scanned, listing, before.limit);
                if scanned != directory {
                    lemma_stored_keeps(before.recency, scanned, listing, before.limit, directory);
                }
            },
            IndexCall::Invalidate(gone) => {
                lemma_without(before.recency, gone);
            },
        }
    }
}

/// What a cache still holds of another key after a write is what it held before.
proof fn lemma_stored_keeps(
    s: Seq<(Seq<char>, DirectoryListing)>,
    key: Seq<char>,
    value: DirectoryListing,
    limit: nat,
    other: Seq<char>,
)
    requires
        distinct_keys(s),
        s.len() <= limit,
        limit > 0,
        other != key,
    ensures
        lookup(stored(s, key, value, limit), other) is Some ==> lookup(
            stored(s, key, value, limit),
            other,
        ) == lookup(s, other),
{
    let all = stored(s, key, value, limit);
    lemma_stored(s, key, value, limit);
    if !has_key(s, key) && s.len() == limit {
        if has_key(all, other) {
            let p = position(all, other);
            assert(all[p].0 == other);
            assert(p < all.len() - 1);
            assert(all[p] == s[p + 1]);
            lemma_lookup_at(s, p + 1);
        }
    } else {
        lemma_written(s, key, value);
    }
}

/// Asking never changes what is remembered, only how recent it is.
pub proof fn law_asking_forgets_nothing(
    state: DirectoryIndexState,
    directory: Seq<char>,
    modified_at: Option<i128>,
    now: u64,
    other: Seq<char>,
)
    requires
        state.wf(),
    ensures
        lookup(state.asked(directory, modified_at, now).recency, other) == lookup(
            state.recency,
            other,
        ),
{
    lemma_touched(state.recency, directory);
}

/// A listing holds exactly as long as the modification time is the one it was made with;
/// where there never was one, for two seconds.
pub proof fn law_listings_hold_until_a_change(
    entry: &DirectoryCacheEntry,
    modified_at: Option<i128>,
    now: u64,
    fresh: bool,
)
    requires
        call_ensures(is_entry_fresh, (entry, modified_at, now), fresh),
    ensures
        fresh ==> entry.modified_at == modified_at,
        modified_at is Some ==> (fresh <==> entry.modified_at == modified_at),
        modified_at is None && entry.modified_at is None ==> (fresh <==> now < entry.scanned_at
            + 2_000_000_000),
{
}

/// A path that is in no directory is answered by itself alone, and nothing is counted.
/// In a directory, files are answered only out of a listing that holds, and the question
/// is counted.
pub proof fn law_questions_are_answered(
    index: &mut MediaDirectoryIndex,
    path: &str,
    directory: Option<&str>,
    modified_at: Option<i128>,
    now: u64,
    answer: DirectoryAnswer,
)
    requires
        call_ensures(
            MediaDirectoryIndex::media_in_directory_for_path,
            (index, path, directory, modified_at, now),
            answer,
        ),
        old(index)@.stats.hits < u64::MAX,
        old(index)@.stats.misses < u64::MAX,
    ensures
        directory is None ==> (answer matches DirectoryAnswer::Files(files) && files@.len() == 1
            && files@[0]@ == path@),
        directory is None ==> final(index)@ == old(index)@,
        directory is Some && answer is Files ==> final(index)@.stats.hits == old(index)@.stats.hits + 1
            && final(index)@.stats.misses == old(index)@.stats.misses,
        directory is Some && answer is Scan ==> final(index)@.stats.misses == old(index)@.stats.misses
            + 1 && final(index)@.stats.hits == old(index)@.stats.hits,
        directory matches Some(d) ==> (answer matches DirectoryAnswer::Files(files) ==> (lookup(
            old(index)@.recency,
            d@,
        ) matches Some(listing) && texts(files@) == listing.files && listing.modified_at
            == modified_at)),
        directory matches Some(d) ==> (answer is Scan ==> (lookup(old(index)@.recency, d@) is None
            || lookup(old(index)@.recency, d@)->0.modified_at != modified_at || modified_at is None)),
        final(index)@.limit == old(index)@.limit,
{
    if directory is None {
        let files = answer->Files_0;
        assert(texts(files@).len() == 1);
        assert(texts(files@).len() == files@.len());
        assert(texts(files@)[0] == files@[0]@);
    }
}

/// What a scan found is what the index then holds of its directory, as the most recent
/// one; a directory that is invalidated is not known any more.
pub proof fn law_scans_are_recorded(
    index: &mut MediaDirectoryIndex,
    directory: String,
    files: Vec<String>,
    modified_at: Option<i128>,
    scanned_at: u64,
)
    requires
        call_ensures(
            MediaDirectoryIndex::record_scan,
            (index, directory, files, modified_at, scanned_at),
            (),
        ),
        old(index)@.wf(),
    ensures
        final(index)@.recency.last().0 == directory@,
        final(index)@.recency.last().1.files == texts(files@),
        final(index)@.recency.last().1.modified_at == modified_at,
        final(index)@.recency.last().1.scanned_at == scanned_at,
        final(index)@.recency.len() <= final(index)@.limit,
        final(index)@.stats == old(index)@.stats,
{
    let listing = DirectoryListing { files: texts(files@), modified_at, scanned_at };
    lemma_stored(old(index)@.recency, directory@, listing, old(index)@.limit);
}

/// Invalidating a directory forgets it, and no other.
pub proof fn law_invalidated_directories_are_unknown(
    index: &mut MediaDirectoryIndex,
    directory: &str,
    other: Seq<char>,
)
    requires
        call_ensures(MediaDirectoryIndex::invalidate_directory, (index, directory), ()),
        old(index)@.wf(),
    ensures
        lookup(final(index)@.recency, directory@) is None,
        other != directory@ ==> lookup(final(index)@.recency, other) == lookup(
            old(index)@.recency,
            other,
        ),
        final(index)@.stats == old(index)@.stats,
{
    lemma_without(old(index)@.recency, directory@);
}

/// A new index knows nothing, has counted nothing, and has room for one directory at
/// least.
pub proof fn law_new_index_knows_nothing(limit: usize, index: MediaDirectoryIndex)
    requires
        call_ensures(MediaDirectoryIndex::new, (limit,), index),
    ensures
        index@.recency.len() == 0,
        index@.limit >= 1,
        limit > 0 ==> index@.limit == limit,
        limit == 0 ==> index@.limit == 1,
        index@.stats.hits == 0 && index@.stats.misses == 0 && index@.stats.scans == 0,
{
}

} // verus!
