//! The texture cache of the strip view.
//!
//! Textures of visible pages are pinned and stay.  All others are evicted, least
//! recently used first, once pinned and evictable textures together exceed the
//! cache's limit.

use crate::manga_loader::MangaMediaType;
use crate::page_map::PageMap;
use crate::recency::{
    distinct_keys, has_key, keys, lemma_lookup_at, lemma_skip_distinct, lemma_without,
    lemma_without_absent, lemma_without_keys, lemma_without_twice, lemma_written, lookup, position,
    stored, touched, without, without_keys, written,
};
use vstd::prelude::*;

verus! {

/// The limit of a cache that was made without one.
pub const DEFAULT_CACHED_TEXTURES: usize = 128;

/// A texture on the graphics card, known by its number, with its size.
#[derive(Clone, Copy, Debug, PartialEq, Eq, Structural)]
pub struct MangaTextureEntry {
    pub texture: u64,
    pub width: u32,
    pub height: u32,
    pub media_type: MangaMediaType,
}

#[verifier::external_type_specification]
#[verifier::external_body]
pub struct ExDefaultHasher(lru::DefaultHasher);

#[verifier::external_type_specification]
#[verifier::external_body]
#[verifier::reject_recursive_types(K)]
#[verifier::reject_recursive_types(V)]
#[verifier::reject_recursive_types(S)]
pub struct ExLruCache<K, V, S>(lru::LruCache<K, V, S>);

/// What a `lru::LruCache` of textures holds, from the entry used longest ago to
/// the entry used last.
pub uninterp spec fn lru_textures(cache: lru::LruCache<usize, MangaTextureEntry>) -> Seq<
    (usize, MangaTextureEntry),
>;

/// The capacity of a `lru::LruCache` of textures.
pub uninterp spec fn lru_texture_limit(cache: lru::LruCache<usize, MangaTextureEntry>) -> nat;

/// `lru::LruCache::new`: an empty cache with the given capacity.  It allocates
/// its table at once, and panics where the table's size cannot be represented.
#[verifier::external_body]
fn texture_lru_new(limit: usize) -> (cache: lru::LruCache<usize, MangaTextureEntry>)
    requires
        0 < limit <= usize::MAX / 256,
    ensures
        lru_textures(cache).len() == 0,
        lru_texture_limit(cache) == limit,
{
    lru::LruCache::new(std::num::NonZeroUsize::new(limit).unwrap())
}

/// `lru::LruCache::len`: how many entries there are.
#[verifier::external_body]
fn texture_lru_len(cache: &lru::LruCache<usize, MangaTextureEntry>) -> (count: usize)
    ensures
        count == lru_textures(*cache).len(),
{
    cache.len()
}

/// `lru::LruCache::push`: writes the key's entry and makes it the most recent
/// one.  It returns the old entry of the key, or the least recently used entry
/// that had to leave because the cache was full.
#[verifier::external_body]
fn texture_lru_push(
    cache: &mut lru::LruCache<usize, MangaTextureEntry>,
    page: usize,
    entry: MangaTextureEntry,
) -> (replaced: Option<(usize, MangaTextureEntry)>)
    ensures
        lru_texture_limit(*final(cache)) == lru_texture_limit(*old(cache)),
        lru_textures(*final(cache)) == stored(
            lru_textures(*old(cache)),
            page,
            entry,
            lru_texture_limit(*old(cache)),
        ),
        replaced == (if has_key(lru_textures(*old(cache)), page) {
            Some((page, lookup(lru_textures(*old(cache)), page)->0))
        } else if lru_textures(*old(cache)).len() == lru_texture_limit(*old(cache)) {
            Some(lru_textures(*old(cache))[0])
        } else {
            None
        }),
{
    cache.push(page, entry)
}

/// `lru::LruCache::get`: the entry of the key, which becomes the most recent one.
#[verifier::external_body]
fn texture_lru_get(cache: &mut lru::LruCache<usize, MangaTextureEntry>, page: usize) -> (entry:
    Option<MangaTextureEntry>)
    ensures
        lru_texture_limit(*final(cache)) == lru_texture_limit(*old(cache)),
        lru_textures(*final(cache)) == touched(lru_textures(*old(cache)), page),
        entry == lookup(lru_textures(*old(cache)), page),
{
    cache.get(&page).copied()
}

/// `lru::LruCache::peek`: the entry of the key; the order stays.
#[verifier::external_body]
fn texture_lru_peek(cache: &lru::LruCache<usize, MangaTextureEntry>, page: usize) -> (entry: Option<
    MangaTextureEntry,
>)
    ensures
        entry == lookup(lru_textures(*cache), page),
{
    cache.peek(&page).copied()
}

/// `lru::LruCache::pop`: takes the entry of the key out.
#[verifier::external_body]
fn texture_lru_pop(cache: &mut lru::LruCache<usize, MangaTextureEntry>, page: usize) -> (entry:
    Option<MangaTextureEntry>)
    ensures
        lru_texture_limit(*final(cache)) == lru_texture_limit(*old(cache)),
        lru_textures(*final(cache)) == without(lru_textures(*old(cache)), page),
        entry == lookup(lru_textures(*old(cache)), page),
{
    cache.pop(&page)
}

/// `lru::LruCache::pop_lru`: takes the least recently used entry out.
#[verifier::external_body]
fn texture_lru_pop_lru(cache: &mut lru::LruCache<usize, MangaTextureEntry>) -> (entry: Option<
    (usize, MangaTextureEntry),
>)
    ensures
        lru_texture_limit(*final(cache)) == lru_texture_limit(*old(cache)),
        entry == (if lru_textures(*old(cache)).len() > 0 {
            Some(lru_textures(*old(cache))[0])
        } else {
            None
        }),
        lru_textures(*final(cache)) == (if lru_textures(*old(cache)).len() > 0 {
            lru_textures(*old(cache)).skip(1)
        } else {
            lru_textures(*old(cache))
        }),
{
    cache.pop_lru()
}

/// `lru::LruCache::resize`: sets the capacity; what is beyond it leaves, least
/// recently used first.
#[verifier::external_body]
fn texture_lru_resize(cache: &mut lru::LruCache<usize, MangaTextureEntry>, limit: usize)
    requires
        limit > 0,
        lru_textures(*old(cache)).len() <= lru_texture_limit(*old(cache)),
    ensures
        lru_texture_limit(*final(cache)) == limit,
        lru_textures(*final(cache)) == newest(lru_textures(*old(cache)), limit as nat),
{
    cache.resize(std::num::NonZeroUsize::new(limit).unwrap())
}

/// `lru::LruCache::clear`: nothing is left; the capacity stays.
#[verifier::external_body]
fn texture_lru_clear(cache: &mut lru::LruCache<usize, MangaTextureEntry>)
    ensures
        lru_texture_limit(*final(cache)) == lru_texture_limit(*old(cache)),
        lru_textures(*final(cache)).len() == 0,
{
    cache.clear()
}

/// `lru::LruCache::iter`: the keys, from the entry used last to the entry used
/// longest ago.
#[verifier::external_body]
fn texture_lru_pages(cache: &lru::LruCache<usize, MangaTextureEntry>) -> (pages: Vec<usize>)
    ensures
        pages@ == keys(lru_textures(*cache)).reverse(),
{
    cache.iter().map(|entry| *entry.0).collect()
}

/// The last `limit` entries of `s`.
pub open spec fn newest<K, V>(s: Seq<(K, V)>, limit: nat) -> Seq<(K, V)> {
    if s.len() > limit {
        s.skip(s.len() - limit)
    } else {
        s
    }
}

/// What a texture cache holds.
pub struct TextureCacheState {
    /// The textures that stay.
    pub pinned: Map<usize, MangaTextureEntry>,
    /// The textures that may leave, the one used longest ago first.
    pub recency: Seq<(usize, MangaTextureEntry)>,
    /// The pages whose textures are to stay, whether they have one or not.
    pub pinned_pages: Set<usize>,
    /// How many textures the cache is to hold.
    pub limit: nat,
}

impl TextureCacheState {
    pub open spec fn wf(self) -> bool {
        &&& self.limit > 0
        &&& self.pinned.dom().finite()
        &&& self.pinned_pages.finite()
        &&& self.pinned.dom().subset_of(self.pinned_pages)
        &&& distinct_keys(self.recency)
        &&& self.recency.len() <= self.limit
        &&& forall|i: int|
            0 <= i < self.recency.len() ==> !self.pinned_pages.contains(
                (#[trigger] self.recency[i]).0,
            )
    }

    pub open spec fn total(self) -> nat {
        self.pinned.dom().len() + self.recency.len()
    }

    /// The texture that the cache has for `page`.
    pub open spec fn lookup(self, page: usize) -> Option<MangaTextureEntry> {
        if self.pinned.contains_key(page) {
            Some(self.pinned[page])
        } else {
            lookup(self.recency, page)
        }
    }

    /// How many textures have to leave to meet the limit.  Pinned ones never do.
    pub open spec fn excess(self) -> nat {
        if self.total() <= self.limit {
            0
        } else if self.total() - self.limit <= self.recency.len() {
            (self.total() - self.limit) as nat
        } else {
            self.recency.len()
        }
    }

    /// The cache after the textures beyond the limit have left.
    pub open spec fn trimmed(self) -> Self {
        TextureCacheState { recency: self.recency.skip(self.excess() as int), ..self }
    }

    /// The pages whose textures leave, in the order in which they do.
    pub open spec fn trimmed_pages(self) -> Seq<usize> {
        keys(self.recency.take(self.excess() as int))
    }

    /// The cache after `page` got a texture, before anything leaves for it.
    pub open spec fn placed(self, page: usize, entry: MangaTextureEntry) -> Self {
        if self.pinned_pages.contains(page) {
            TextureCacheState { pinned: self.pinned.insert(page, entry), ..self }
        } else {
            TextureCacheState { recency: written(self.recency, page, entry), ..self }
        }
    }

    /// The cache after its limit was set, before the pinned textures count.
    pub open spec fn resized(self, limit: nat) -> Self {
        TextureCacheState { recency: newest(self.recency, limit), limit, ..self }
    }

    /// The cache after the texture of `page` was read.
    pub open spec fn read(self, page: usize) -> Self {
        if self.pinned.contains_key(page) {
            self
        } else {
            TextureCacheState { recency: touched(self.recency, page), ..self }
        }
    }

    /// The cache after the texture of `page` was exchanged, where it has one.
    pub open spec fn updated(self, page: usize, texture: u64, width: u32, height: u32) -> Self {
        match self.lookup(page) {
            None => self,
            Some(entry) => {
                let next = MangaTextureEntry { texture, width, height, media_type: entry.media_type };
                if self.pinned.contains_key(page) {
                    TextureCacheState { pinned: self.pinned.insert(page, next), ..self }
                } else {
                    TextureCacheState { recency: written(self.recency, page, next), ..self }
                }
            },
        }
    }

    /// The cache after `page` lost its texture and its pin.
    pub open spec fn removed(self, page: usize) -> Self {
        TextureCacheState {
            pinned: self.pinned.remove(page),
            recency: without(self.recency, page),
            pinned_pages: self.pinned_pages.remove(page),
            limit: self.limit,
        }
    }

    /// The textures that `pages`, once pinned, leave behind in the given order.
    pub open spec fn released(self, order: Seq<usize>) -> Seq<(usize, MangaTextureEntry)> {
        Seq::new(order.len(), |i: int| (order[i], self.pinned[order[i]]))
    }

    /// `order` lists the pages that have a pinned texture and are not in `pages`.
    pub open spec fn release_order(self, order: Seq<usize>, pages: Set<usize>) -> bool {
        &&& order.no_duplicates()
        &&& forall|page: usize| #[trigger]
            order.contains(page) <==> self.pinned.contains_key(page) && !pages.contains(page)
    }

    /// The cache after `pages` were pinned, where the textures that lost their
    /// pin became evictable in the given order.
    pub open spec fn repinned(self, order: Seq<usize>, pages: Set<usize>) -> Self {
        let evictable = newest(self.recency + self.released(order), self.limit);
        TextureCacheState {
            pinned: Map::new(
                |page: usize|
                    pages.contains(page) && (self.pinned.contains_key(page) || has_key(evictable, page)),
                |page: usize|
                    if self.pinned.contains_key(page) {
                        self.pinned[page]
                    } else {
                        lookup(evictable, page)->0
                    },
            ),
            recency: without_keys(evictable, pages),
            pinned_pages: pages,
            limit: self.limit,
        }
    }
}

/// A cache of page textures with a limit and with pinned pages.
pub struct MangaTextureCache {
    pinned_entries: PageMap<MangaTextureEntry>,
    unpinned_entries: lru::LruCache<usize, MangaTextureEntry>,
    max_entries: usize,
    pinned_indices: PageMap<()>,
}

impl View for MangaTextureCache {
    type V = TextureCacheState;

    closed spec fn view(&self) -> TextureCacheState {
        TextureCacheState {
            pinned: self.pinned_entries@,
            recency: lru_textures(self.unpinned_entries),
            pinned_pages: self.pinned_indices@.dom(),
            limit: self.max_entries as nat,
        }
    }
}

impl MangaTextureCache {
    pub closed spec fn wf(&self) -> bool {
        &&& self.pinned_entries.wf()
        &&& self.pinned_indices.wf()
        &&& lru_texture_limit(self.unpinned_entries) == self.max_entries
        &&& self@.wf()
    }

    /// An empty cache that is to hold at most `max_entries` textures, and one at
    /// least.
    pub fn new(max_entries: usize) -> (cache: Self)
        requires
            max_entries <= usize::MAX / 256,
        ensures
            cache.wf(),
            cache@.pinned == Map::<usize, MangaTextureEntry>::empty(),
            cache@.recency == Seq::<(usize, MangaTextureEntry)>::empty(),
            cache@.pinned_pages == Set::<usize>::empty(),
            cache@.limit == (if max_entries == 0 {
                1
            } else {
                max_entries as nat
            }),
    {
        let limit: usize = if max_entries == 0 {
            1
        } else {
            max_entries
        };
        let cache = MangaTextureCache {
            pinned_entries: PageMap::new(),
            unpinned_entries: texture_lru_new(limit),
            max_entries: limit,
            pinned_indices: PageMap::new(),
        };
        assert(cache@.pinned_pages =~= Set::<usize>::empty());
        cache
    }

    /// Drops evictable textures, least recently used first, until the limit is
    /// met or only pinned ones are left.
    fn evict_to_capacity(&mut self) -> (evicted: Vec<usize>)
        requires
            old(self).wf(),
        ensures
            final(self).wf(),
            final(self)@ == old(self)@.trimmed(),
            evicted@ == old(self)@.trimmed_pages(),
    {
        let mut evicted: Vec<usize> = Vec::new();
        let ghost start = self@;
        let ghost mut gone: int = 0;
        proof {
            assert(start.recency.skip(0) =~= start.recency);
            assert(keys(start.recency.take(0)) =~= evicted@);
        }
        loop
            invariant
                start.wf(),
                self.pinned_entries.wf(),
                self.pinned_indices.wf(),
                lru_texture_limit(self.unpinned_entries) == self.max_entries,
                self@.pinned == start.pinned,
                self@.pinned_pages == start.pinned_pages,
                self@.limit == start.limit,
                0 <= gone <= start.excess(),
                self@.recency == start.recency.skip(gone),
                evicted@ == keys(start.recency.take(gone)),
            ensures
                gone == start.excess(),
            decreases start.recency.len() - gone,
        {
            let pinned: usize = self.pinned_entries.len();
            let evictable: usize = texture_lru_len(&self.unpinned_entries);
            if pinned <= self.max_entries && evictable <= self.max_entries - pinned {
                break;
            }
            let oldest = texture_lru_pop_lru(&mut self.unpinned_entries);
            match oldest {
                Some((page, _)) => {
                    proof {
                        assert(start.recency.skip(gone)[0] == start.recency[gone]);
                        assert(start.recency.skip(gone).skip(1) =~= start.recency.skip(gone + 1));
                        assert(keys(start.recency.take(gone)).push(page) =~= keys(
                            start.recency.take(gone + 1),
                        ));
                    }
                    self.pinned_indices.remove(page);
                    evicted.push(page);
                    proof {
                        assert(!start.pinned_pages.contains(page));
                        assert(self@.pinned_pages =~= start.pinned_pages);
                        gone = gone + 1;
                    }
                },
                None => {
                    break;
                },
            }
        }
        proof {
            lemma_skip_distinct(start.recency, gone);
            assert forall|i: int| 0 <= i < self@.recency.len() implies !self@.pinned_pages.contains(
                (#[trigger] self@.recency[i]).0,
            ) by {
                assert(self@.recency[i] == start.recency[i + gone]);
            }
        }
        evicted
    }

    /// Sets the limit.  Textures beyond it leave at once; the result names those
    /// that leave because pinned textures take up their room.
    pub fn set_max_entries(&mut self, max_entries: usize) -> (evicted: Vec<usize>)
        requires
            old(self).wf(),
        ensures
            final(self).wf(),
            final(self)@ == old(self)@.resized(
                (if max_entries == 0 {
                    1
                } else {
                    max_entries as nat
                }),
            ).trimmed(),
            evicted@ == old(self)@.resized(
                (if max_entries == 0 {
                    1
                } else {
                    max_entries as nat
                }),
            ).trimmed_pages(),
    {
        let ghost before = self@;
        self.max_entries = if max_entries == 0 {
            1
        } else {
            max_entries
        };
        texture_lru_resize(&mut self.unpinned_entries, self.max_entries);
        proof {
            let s = before.recency;
            let limit = self.max_entries as nat;
            if s.len() > limit {
                let dropped = s.len() - limit;
                lemma_skip_distinct(s, dropped);
                assert forall|i: int| 0 <= i < self@.recency.len() implies !self@.pinned_pages.contains(
                    (#[trigger] self@.recency[i]).0,
                ) by {
                    assert(self@.recency[i] == s[i + dropped]);
                }
            }
        }
        self.evict_to_capacity()
    }

    /// Gives `page` a texture, in place of the one it had.  Returns the pages
    /// whose textures left because the cache was full.
    pub fn insert_with_type(
        &mut self,
        page: usize,
        texture: u64,
        width: u32,
        height: u32,
        media_type: MangaMediaType,
    ) -> (evicted: Vec<usize>)
        requires
            old(self).wf(),
        ensures
            final(self).wf(),
            final(self)@ == old(self)@.placed(
                page,
                (MangaTextureEntry { texture, width, height, media_type }),
            ).trimmed(),
            evicted@ == old(self)@.placed(
                page,
                (MangaTextureEntry { texture, width, height, media_type }),
            ).trimmed_pages(),
    {
        let entry = MangaTextureEntry { texture, width, height, media_type };
        let ghost before = self@;
        let ghost target = before.placed(page, entry);
        if self.pinned_indices.contains(page) {
            let _ = texture_lru_pop(&mut self.unpinned_entries, page);
            self.pinned_entries.insert(page, entry);
            proof {
                assert(before.pinned_pages.contains(page));
                assert(without(before.recency, page) == before.recency) by {
                    lemma_without_absent(before.recency, Set::empty().insert(page));
                }
                assert(self@.pinned =~= before.pinned.insert(page, entry));
            }
            let evicted = self.evict_to_capacity();
            evicted
        } else {
            self.pinned_entries.remove(page);
            let replaced = texture_lru_push(&mut self.unpinned_entries, page, entry);
            proof {
                assert(!before.pinned_pages.contains(page));
                assert(self@.pinned =~= before.pinned);
                lemma_without(before.recency, page);
                lemma_written(before.recency, page, entry);
            }
                let mut evicted: Vec<usize> = Vec::new();
            match replaced {
                Some((oldest, _)) => {
                    if oldest != page {
                        self.pinned_indices.remove(oldest);
                        evicted.push(oldest);
                    }
                },
                None => {},
            }
            let ghost full = !has_key(before.recency, page) && before.recency.len() == before.limit;
            proof {
                if full {
                    if before.recency[0].0 == page {
                        assert(has_key(before.recency, page));
                    }
                    assert(!before.pinned_pages.contains(before.recency[0].0));
                    assert(before.recency.push((page, entry)).skip(1) =~= before.recency.skip(1).push(
                        (page, entry),
                    ));
                    assert(evicted@ =~= seq![before.recency[0].0]);
                    lemma_skip_distinct(target.recency, 1);
                } else {
                    assert(evicted@ =~= Seq::<usize>::empty());
                }
                assert(self@.pinned_pages =~= before.pinned_pages);
                assert forall|i: int| 0 <= i < self@.recency.len() implies !self@.pinned_pages.contains(
                    (#[trigger] self@.recency[i]).0,
                ) by {
                    let p = self@.recency[i].0;
                    if p != page {
                        assert(target.recency[if full {
                            i + 1
                        } else {
                            i
                        }].0 == p);
                        assert(has_key(target.recency, p));
                        assert(has_key(before.recency, p));
                        let j = position(before.recency, p);
                        assert(!before.pinned_pages.contains(before.recency[j].0));
                    }
                }
            }
            let ghost middle = self@;
            let mut rest = self.evict_to_capacity();
            evicted.append(&mut rest);
            proof {
                if full {
                    let n = target.excess() as int;
                    assert(middle.recency == target.recency.skip(1));
                    assert(middle.excess() == n - 1);
                    assert(target.recency.skip(1).skip(n - 1) =~= target.recency.skip(n));
                    assert(evicted@ =~= keys(target.recency.take(n)));
                } else {
                    assert(middle == target);
                    assert(evicted@ =~= target.trimmed_pages());
                }
            }
            evicted
        }
    }

    /// Pins exactly the given pages.
    pub fn set_pinned_indices(&mut self, pinned: Vec<usize>)
        requires
            old(self).wf(),
        ensures
            final(self).wf(),
            exists|order: Seq<usize>|
                old(self)@.release_order(order, pinned@.to_set()) && final(self)@
                    == #[trigger] old(self)@.repinned(order, pinned@.to_set()),
    {
        let ghost before = self@;
        let ghost pages = pinned@.to_set();
        let mut new_pinned: PageMap<()> = PageMap::new();
        let mut n: usize = 0;
        proof {
            assert(new_pinned@.dom() =~= pinned@.take(0).to_set());
        }
        while n < pinned.len()
            invariant
                n <= pinned@.len(),
                new_pinned.wf(),
                new_pinned@.dom() == pinned@.take(n as int).to_set(),
            decreases pinned@.len() - n,
        {
            new_pinned.insert(pinned[n], ());
            proof {
                let longer = pinned@.take(n + 1);
                assert(longer =~= pinned@.take(n as int).push(pinned@[n as int]));
                assert(new_pinned@.dom() =~= longer.to_set()) by {
                    assert forall|p: usize| longer.contains(p) implies new_pinned@.contains_key(p) by {
                        let i = choose|i: int| 0 <= i < longer.len() && longer[i] == p;
                        if i < n {
                            assert(pinned@.take(n as int)[i] == p);
                            assert(pinned@.take(n as int).contains(p));
                        }
                    }
                    assert forall|p: usize| new_pinned@.contains_key(p) implies longer.contains(p) by {
                        if p == pinned@[n as int] {
                            assert(longer[n as int] == p);
                        } else {
                            assert(pinned@.take(n as int).contains(p));
                            let i = choose|i: int|
                                0 <= i < n && pinned@.take(n as int)[i] == p;
                            assert(longer[i] == p);
                        }
                    }
                }
            }
            n = n + 1;
        }
        assert(pinned@.take(n as int) =~= pinned@);
        assert(new_pinned@.dom() == pages);

        let current = self.pinned_entries.pages();
        let mut i: usize = 0;
        let ghost mut order: Seq<usize> = Seq::empty();
        proof {
            assert(before.recency + before.released(order) =~= before.recency);
        }
        while i < current.len()
            invariant
                i <= current@.len(),
                before.wf(),
                new_pinned.wf(),
                new_pinned@.dom() == pages,
                current@.no_duplicates(),
                forall|p: usize| before.pinned.contains_key(p) <==> #[trigger] current@.contains(p),
                self.pinned_entries.wf(),
                self.pinned_indices.wf(),
                lru_texture_limit(self.unpinned_entries) == self.max_entries,
                self@.limit == before.limit,
                self@.pinned_pages == before.pinned_pages,
                order.no_duplicates(),
                forall|p: usize| #[trigger]
                    order.contains(p) <==> !pages.contains(p) && current@.take(i as int).contains(p),
                forall|p: usize| #[trigger]
                    self@.pinned.contains_key(p) <==> before.pinned.contains_key(p) && !order.contains(p),
                forall|p: usize| #[trigger]
                    self@.pinned.contains_key(p) ==> self@.pinned[p] == before.pinned[p],
                self@.recency == newest(before.recency + before.released(order), before.limit),
            decreases current@.len() - i,
        {
            let page: usize = current[i];
            let ghost done = current@.take(i as int);
            let ghost longer = current@.take(i + 1);
            proof {
                assert(longer =~= done.push(page));
                assert(current@.contains(page));
                if done.contains(page) {
                    let j = choose|j: int| 0 <= j < i && done[j] == page;
                    assert(current@[j] == current@[i as int]);
                }
                assert forall|p: usize| longer.contains(p) <==> done.contains(p) || p == page by {
                    if done.contains(p) {
                        let j = choose|j: int| 0 <= j < i && done[j] == p;
                        assert(longer[j] == p);
                    }
                    if p == page {
                        assert(longer[i as int] == p);
                    }
                    if longer.contains(p) {
                        let j = choose|j: int| 0 <= j < i + 1 && longer[j] == p;
                        if j < i {
                            assert(done[j] == p);
                        }
                    }
                }
                assert(!order.contains(page));
                assert(before.pinned.contains_key(page));
                assert(self@.pinned.contains_key(page));
            }
            if !new_pinned.contains(page) {
                let ghost held = self@;
                match self.pinned_entries.remove(page) {
                    Some(entry) => {
                        let ghost line = before.recency + before.released(order);
                        proof {
                            assert forall|p: usize| #[trigger] order.contains(p) implies before.pinned.contains_key(
                            p) by {
                                let j = choose|j: int| 0 <= j < i && done[j] == p;
                                assert(current@[j] == p);
                                assert(current@.contains(p));
                            }
                            lemma_released(before, order);
                            let next = order.push(page);
                            assert(before.released(next) =~= before.released(order).push((page, entry)));
                            assert(before.recency + before.released(next) =~= line.push((page, entry)));
                            if has_key(held.recency, page) {
                                let j = position(held.recency, page);
                                let k = j + line.len() - held.recency.len();
                                assert(line[k] == held.recency[j]);
                                if k < before.recency.len() {
                                    assert(before.recency[k].0 == page);
                                } else {
                                    assert(order[k - before.recency.len()] == page);
                                }
                            }
                            lemma_without(held.recency, page);
                        }
                        let _ = texture_lru_push(&mut self.unpinned_entries, page, entry);
                        proof {
                            let all = line.push((page, entry));
                            if line.len() < before.limit {
                                assert(self@.recency =~= all);
                            } else {
                                assert(self@.recency =~= all.skip(all.len() - before.limit));
                            }
                        }
                    },
                    None => {},
                }
                proof {
                    let next = order.push(page);
                    assert forall|p: usize| #[trigger] next.contains(p) <==> !pages.contains(p)
                        && longer.contains(p) by {
                        if order.contains(p) {
                            let j = choose|j: int| 0 <= j < order.len() && order[j] == p;
                            assert(next[j] == p);
                        }
                        if p == page {
                            assert(next[order.len() as int] == p);
                        }
                        if next.contains(p) && p != page {
                            let j = choose|j: int| 0 <= j < next.len() && next[j] == p;
                            assert(order[j] == p);
                        }
                    }
                    assert forall|p: usize| #[trigger] self@.pinned.contains_key(p) <==> (
                    before.pinned.contains_key(p) && !next.contains(p)) by {
                        assert(next.contains(p) <==> order.contains(p) || p == page) by {
                            assert(next.contains(p) <==> !pages.contains(p) && longer.contains(p));
                            assert(order.contains(p) <==> !pages.contains(p) && done.contains(p));
                        }
                    }
                    order = next;
                }
            }
            i = i + 1;
        }
        assert(current@.take(i as int) =~= current@);
        assert(before.release_order(order, pages));
        let ghost evictable = self@.recency;
        proof {
            lemma_released(before, order);
            let line = before.recency + before.released(order);
            if line.len() > before.limit {
                lemma_skip_distinct(line, line.len() - before.limit);
            }
            assert(distinct_keys(evictable));
            assert forall|j: int| 0 <= j < evictable.len() implies !before.pinned_pages.contains(
                (#[trigger] evictable[j]).0,
            ) || (order.contains(evictable[j].0)) by {
                let k = j + line.len() - evictable.len();
                assert(line[k] == evictable[j]);
                if k >= before.recency.len() {
                    assert(order[k - before.recency.len()] == evictable[j].0);
                }
            }
        }

        let wanted = new_pinned.pages();
        let mut w: usize = 0;
        let ghost settled = self@.pinned;
        proof {
            lemma_without_absent(evictable, wanted@.take(0).to_set());
        }
        while w < wanted.len()
            invariant
                w <= wanted@.len(),
                before.wf(),
                new_pinned.wf(),
                new_pinned@.dom() == pages,
                wanted@.no_duplicates(),
                forall|p: usize| #[trigger] pages.contains(p) <==> wanted@.contains(p),
                self.pinned_entries.wf(),
                self.pinned_indices.wf(),
                lru_texture_limit(self.unpinned_entries) == self.max_entries,
                self@.limit == before.limit,
                self@.pinned_pages == before.pinned_pages,
                distinct_keys(evictable),
                forall|j: int|
                    0 <= j < evictable.len() ==> !before.pinned_pages.contains(
                        (#[trigger] evictable[j]).0,
                    ) || order.contains(evictable[j].0),
                forall|p: usize| #[trigger] order.contains(p) ==> !pages.contains(p),
                forall|p: usize| #[trigger] settled.contains_key(p) ==> before.pinned_pages.contains(p),
                self@.recency == without_keys(evictable, wanted@.take(w as int).to_set()),
                forall|p: usize| #[trigger]
                    self@.pinned.contains_key(p) <==> settled.contains_key(p) || (wanted@.take(
                        w as int,
                    ).contains(p) && has_key(evictable, p)),
                forall|p: usize| #[trigger]
                    self@.pinned.contains_key(p) ==> self@.pinned[p] == (if settled.contains_key(p) {
                        settled[p]
                    } else {
                        lookup(evictable, p)->0
                    }),
            decreases wanted@.len() - w,
        {
            let page: usize = wanted[w];
            let ghost done = wanted@.take(w as int);
            let ghost longer = wanted@.take(w + 1);
            let ghost held = self@;
            proof {
                assert(longer =~= done.push(page));
                assert(wanted@.contains(page));
                assert forall|p: usize| longer.contains(p) <==> done.contains(p) || p == page by {
                    if done.contains(p) {
                        let j = choose|j: int| 0 <= j < w && done[j] == p;
                        assert(longer[j] == p);
                    }
                    if p == page {
                        assert(longer[w as int] == p);
                    }
                    if longer.contains(p) {
                        let j = choose|j: int| 0 <= j < w + 1 && longer[j] == p;
                        if j < w {
                            assert(done[j] == p);
                        }
                    }
                }
                if done.contains(page) {
                    let j = choose|j: int| 0 <= j < w && done[j] == page;
                    assert(wanted@[j] == wanted@[w as int]);
                }
                let one = Set::empty().insert(page);
                lemma_without_twice(evictable, done.to_set(), one);
                assert(done.to_set().union(one) =~= longer.to_set());
                lemma_without_keys(evictable, done.to_set());
                assert(has_key(held.recency, page) == has_key(evictable, page)) by {
                    lemma_without_has(evictable, done.to_set(), page);
                }
                assert(lookup(held.recency, page) == lookup(evictable, page)) by {
                    lemma_without_has(evictable, done.to_set(), page);
                }
                lemma_without(held.recency, page);
                if has_key(evictable, page) {
                    let j = position(evictable, page);
                    assert(!before.pinned_pages.contains(evictable[j].0));
                }
            }
            if !self.pinned_indices.contains(page) {
                let found = texture_lru_pop(&mut self.unpinned_entries, page);
                match found {
                    Some(entry) => {
                        self.pinned_entries.insert(page, entry);
                    },
                    None => {},
                }
            }
            proof {
                assert forall|p: usize| #[trigger] self@.pinned.contains_key(p) <==> (
                settled.contains_key(p) || (longer.contains(p) && has_key(evictable, p))) by {
                    assert(held.pinned.contains_key(p) <==> settled.contains_key(p) || (done.contains(p)
                        && has_key(evictable, p)));
                    assert(longer.contains(p) <==> done.contains(p) || p == page);
                }
                assert forall|p: usize| #[trigger] self@.pinned.contains_key(p) implies self@.pinned[p]
                    == (if settled.contains_key(p) {
                    settled[p]
                } else {
                    lookup(evictable, p)->0
                }) by {
                    if p != page || !has_key(evictable, page) {
                        assert(held.pinned.contains_key(p));
                    } else {
                        assert(!settled.contains_key(page));
                    }
                }
            }
            w = w + 1;
        }
        assert(wanted@.take(w as int) =~= wanted@);
        assert(wanted@.to_set() =~= pages);
        let ghost last = self@;
        self.pinned_indices = new_pinned;
        proof {
            assert(self@.pinned == last.pinned);
            let target = before.repinned(order, pages);
            assert forall|p: usize| #[trigger] self@.pinned.contains_key(p) <==> target.pinned.contains_key(
            p) by {
                assert(settled.contains_key(p) <==> before.pinned.contains_key(p) && !order.contains(p));
                assert(order.contains(p) <==> before.pinned.contains_key(p) && !pages.contains(p));
                assert(pages.contains(p) <==> wanted@.contains(p));
                assert(last.pinned.contains_key(p) <==> settled.contains_key(p) || (wanted@.contains(p)
                    && has_key(evictable, p)));
            }
            assert forall|p: usize| #[trigger] self@.pinned.contains_key(p) implies self@.pinned[p]
                == target.pinned[p] by {
                assert(target.pinned.contains_key(p));
                assert(last.pinned.contains_key(p));
                assert(settled.contains_key(p) <==> before.pinned.contains_key(p) && !order.contains(p));
                assert(order.contains(p) <==> before.pinned.contains_key(p) && !pages.contains(p));
            }
            assert(self@.pinned =~= target.pinned);
            assert(self@ == target);
            lemma_without_keys(evictable, pages);
            self.pinned_entries.lemma_page_order();
            self.pinned_indices.lemma_page_order();
            assert(self@.pinned.dom().subset_of(pages));
            assert(self@.recency.len() <= self@.limit);
        }
    }
}

impl MangaTextureCache {
    /// Marks the start of a frame.  Reads keep the order up to date, so there is
    /// nothing to do.
    pub fn tick(&mut self)
        ensures
            *final(self) == *old(self),
    {
    }

    /// The texture of `page`, which counts as a use of it.
    fn read_entry(&mut self, page: usize) -> (entry: Option<MangaTextureEntry>)
        requires
            old(self).wf(),
        ensures
            final(self).wf(),
            final(self)@ == old(self)@.read(page),
            entry == old(self)@.lookup(page),
    {
        let ghost before = self@;
        match self.pinned_entries.get(page) {
            Some(entry) => {
                return Some(*entry);
            },
            None => {},
        }
        let entry = texture_lru_get(&mut self.unpinned_entries, page);
        proof {
            lemma_touched(before, page);
        }
        entry
    }

    /// The texture of `page` and its size.  Counts as a use of the page.
    pub fn get_texture_info(&mut self, page: usize) -> (info: Option<(u64, u32, u32)>)
        requires
            old(self).wf(),
        ensures
            final(self).wf(),
            final(self)@ == old(self)@.read(page),
            info == (match old(self)@.lookup(page) {
                Some(entry) => Some((entry.texture, entry.width, entry.height)),
                None => None,
            }),
    {
        match self.read_entry(page) {
            Some(entry) => Some((entry.texture, entry.width, entry.height)),
            None => None,
        }
    }

    /// The texture of `page`, its size and its kind.  Counts as a use of the page.
    pub fn get_texture_handle_info(&mut self, page: usize) -> (info: Option<
        (u64, u32, u32, MangaMediaType),
    >)
        requires
            old(self).wf(),
        ensures
            final(self).wf(),
            final(self)@ == old(self)@.read(page),
            info == (match old(self)@.lookup(page) {
                Some(entry) => Some((entry.texture, entry.width, entry.height, entry.media_type)),
                None => None,
            }),
    {
        match self.read_entry(page) {
            Some(entry) => Some((entry.texture, entry.width, entry.height, entry.media_type)),
            None => None,
        }
    }

    fn peek_entry(&self, page: usize) -> (entry: Option<MangaTextureEntry>)
        requires
            self.wf(),
        ensures
            entry == self@.lookup(page),
    {
        match self.pinned_entries.get(page) {
            Some(entry) => Some(*entry),
            None => texture_lru_peek(&self.unpinned_entries, page),
        }
    }

    /// The size of the texture of `page`.  Does not count as a use.
    pub fn peek_texture_dimensions(&self, page: usize) -> (size: Option<(u32, u32)>)
        requires
            self.wf(),
        ensures
            size == (match self@.lookup(page) {
                Some(entry) => Some((entry.width, entry.height)),
                None => None,
            }),
    {
        match self.peek_entry(page) {
            Some(entry) => Some((entry.width, entry.height)),
            None => None,
        }
    }

    /// Whether `page` has a texture.  Does not count as a use.
    pub fn contains(&self, page: usize) -> (found: bool)
        requires
            self.wf(),
        ensures
            found == (self@.lookup(page) is Some),
    {
        self.peek_entry(page).is_some()
    }

    /// Exchanges the texture of `page` for another one of the same kind.  A page
    /// without a texture stays without, and no page loses its texture.
    pub fn update_texture(&mut self, page: usize, texture: u64, width: u32, height: u32)
        requires
            old(self).wf(),
        ensures
            final(self).wf(),
            final(self)@ == old(self)@.updated(page, texture, width, height),
    {
        let ghost before = self@;
        match self.pinned_entries.get(page) {
            Some(entry) => {
                let next = MangaTextureEntry { texture, width, height, media_type: entry.media_type };
                self.pinned_entries.insert(page, next);
                proof {
                    assert(before.pinned_pages.contains(page));
                    self.pinned_entries.lemma_page_order();
                    assert(self@.pinned.dom() =~= before.pinned.dom());
                }
                return ;
            },
            None => {},
        }
        match texture_lru_peek(&self.unpinned_entries, page) {
            Some(entry) => {
                let next = MangaTextureEntry { texture, width, height, media_type: entry.media_type };
                let _ = texture_lru_push(&mut self.unpinned_entries, page, next);
                proof {
                    lemma_rewritten(before, page, next);
                }
            },
            None => {},
        }
    }

    /// Takes the texture of `page` out and lifts its pin.
    pub fn remove(&mut self, page: usize)
        requires
            old(self).wf(),
        ensures
            final(self).wf(),
            final(self)@ == old(self)@.removed(page),
    {
        let ghost before = self@;
        let _ = self.pinned_entries.remove(page);
        let _ = texture_lru_pop(&mut self.unpinned_entries, page);
        let _ = self.pinned_indices.remove(page);
        proof {
            assert(self@.pinned_pages =~= before.pinned_pages.remove(page));
            let gone = Set::empty().insert(page);
            lemma_without_keys(before.recency, gone);
            self.pinned_entries.lemma_page_order();
            self.pinned_indices.lemma_page_order();
            assert forall|i: int| 0 <= i < self@.recency.len() implies !self@.pinned_pages.contains(
                (#[trigger] self@.recency[i]).0,
            ) by {
                assert(before.recency.contains(self@.recency[i]));
            }
            assert(self@.pinned.dom().subset_of(self@.pinned_pages));
        }
    }

    /// Takes all textures out and lifts all pins.
    pub fn clear(&mut self)
        requires
            old(self).wf(),
        ensures
            final(self).wf(),
            final(self)@.pinned == Map::<usize, MangaTextureEntry>::empty(),
            final(self)@.recency == Seq::<(usize, MangaTextureEntry)>::empty(),
            final(self)@.pinned_pages == Set::<usize>::empty(),
            final(self)@.limit == old(self)@.limit,
    {
        self.pinned_entries.clear();
        texture_lru_clear(&mut self.unpinned_entries);
        self.pinned_indices.clear();
        assert(self@.pinned_pages =~= Set::<usize>::empty());
        assert(self@.recency =~= Seq::<(usize, MangaTextureEntry)>::empty());
    }

    pub fn is_empty(&self) -> (empty: bool)
        requires
            self.wf(),
        ensures
            empty == (self@.total() == 0),
    {
        self.pinned_entries.len() == 0 && texture_lru_len(&self.unpinned_entries) == 0
    }

    /// The pages that have a texture: the pinned ones in any order, then the
    /// others, the most recently used first.
    pub fn cached_indices(&self) -> (pages: Vec<usize>)
        requires
            self.wf(),
        ensures
            pages@.len() == self@.total(),
            pages@.take(self@.pinned.dom().len() as int).to_set() == self@.pinned.dom(),
            pages@.skip(self@.pinned.dom().len() as int) == keys(self@.recency).reverse(),
    {
        proof {
            self.pinned_entries.lemma_page_order();
        }
        let mut pages = self.pinned_entries.pages();
        let ghost first = pages@;
        let mut rest = texture_lru_pages(&self.unpinned_entries);
        let ghost second = rest@;
        pages.append(&mut rest);
        proof {
            assert(pages@.take(first.len() as int) =~= first);
            assert(pages@.skip(first.len() as int) =~= second);
        }
        pages
    }
}

impl Default for MangaTextureCache {
    fn default() -> (cache: Self)
        ensures
            cache.wf(),
            cache@.pinned == Map::<usize, MangaTextureEntry>::empty(),
            cache@.recency == Seq::<(usize, MangaTextureEntry)>::empty(),
            cache@.pinned_pages == Set::<usize>::empty(),
            cache@.limit == DEFAULT_CACHED_TEXTURES,
    {
        Self::new(DEFAULT_CACHED_TEXTURES)
    }
}

/// Rewriting the entry of an evictable page keeps the cache well formed.
proof fn lemma_rewritten(state: TextureCacheState, page: usize, entry: MangaTextureEntry)
    requires
        state.wf(),
        has_key(state.recency, page),
    ensures
        (TextureCacheState { recency: written(state.recency, page, entry), ..state }).wf(),
{
    lemma_without(state.recency, page);
    lemma_written(state.recency, page, entry);
    let next = written(state.recency, page, entry);
    assert forall|i: int| 0 <= i < next.len() implies !state.pinned_pages.contains(
        (#[trigger] next[i]).0,
    ) by {
        let p = next[i].0;
        assert(has_key(next, p));
        assert(has_key(state.recency, p));
        let j = position(state.recency, p);
        assert(!state.pinned_pages.contains(state.recency[j].0));
    }
}

/// Reading an evictable page keeps the cache well formed.
proof fn lemma_touched(state: TextureCacheState, page: usize)
    requires
        state.wf(),
    ensures
        (TextureCacheState { recency: touched(state.recency, page), ..state }).wf(),
{
    if has_key(state.recency, page) {
        lemma_rewritten(state, page, state.recency[position(state.recency, page)].1);
    }
}

/// After an insertion the cache meets its limit, or holds pinned textures only.
pub proof fn law_insert_meets_limit(
    state: TextureCacheState,
    page: usize,
    entry: MangaTextureEntry,
)
    requires
        state.wf(),
    ensures
        ({
            let after = state.placed(page, entry).trimmed();
            after.total() <= after.limit || after.recency.len() == 0
        }),
{
}

/// A pinned texture outlives every insertion under another page.
pub proof fn law_pinned_survives_insert(
    state: TextureCacheState,
    page: usize,
    entry: MangaTextureEntry,
    other: usize,
)
    requires
        state.wf(),
        state.pinned.contains_key(other),
        other != page,
    ensures
        state.placed(page, entry).trimmed().lookup(other) == Some(state.pinned[other]),
{
}

/// An insertion is reported in full: a page named in the result has no texture
/// afterwards, the inserted page has the new texture unless it is named, and
/// every other page keeps what it had unless it is named.
pub proof fn law_insert_reports_evictions(
    state: TextureCacheState,
    page: usize,
    entry: MangaTextureEntry,
    other: usize,
)
    requires
        state.wf(),
    ensures
        ({
            let placed = state.placed(page, entry);
            let named = placed.trimmed_pages().contains(other);
            let left = placed.trimmed().lookup(other);
            &&& named ==> left is None
            &&& !named && other == page ==> left == Some(entry)
            &&& !named && other != page ==> left == state.lookup(other)
        }),
{
    let placed = state.placed(page, entry);
    lemma_written(state.recency, page, entry);
    let line = placed.recency;
    let n = placed.excess() as int;
    let left = line.skip(n);
    let named = placed.trimmed_pages();
    assert(distinct_keys(line));
    lemma_skip_distinct(line, n);
    if named.contains(other) {
        let i = choose|i: int| 0 <= i < named.len() && named[i] == other;
        assert(line.take(n)[i] == line[i]);
        assert(line[i].0 == other);
        if has_key(left, other) {
            let j = position(left, other);
            assert(left[j] == line[j + n]);
        }
        if state.pinned_pages.contains(other) {
            if state.pinned_pages.contains(page) {
                assert(state.recency[i].0 == other);
            } else {
                assert(has_key(line, other));
                assert(has_key(state.recency, other));
                let j = position(state.recency, other);
                assert(!state.pinned_pages.contains(state.recency[j].0));
            }
        }
    } else if has_key(line, other) {
        let i = position(line, other);
        if i < n {
            assert(named[i] == other);
        }
        assert(left[i - n] == line[i]);
        lemma_lookup_at(line, i);
        lemma_lookup_at(left, i - n);
    } else if has_key(left, other) {
        let j = position(left, other);
        assert(line[j + n] == left[j]);
    }
}

/// While the limit is met, choosing other pinned pages changes no texture.
pub proof fn law_repin_keeps_textures(
    state: TextureCacheState,
    order: Seq<usize>,
    pages: Set<usize>,
    page: usize,
)
    requires
        state.wf(),
        state.total() <= state.limit,
        state.release_order(order, pages),
    ensures
        state.repinned(order, pages).lookup(page) == state.lookup(page),
        pages.contains(page) && state.lookup(page) is Some ==> state.repinned(
            order,
            pages,
        ).pinned.contains_key(page),
{
    let line = state.recency + state.released(order);
    let n = state.recency.len() as int;
    lemma_released(state, order);
    assert(line.len() <= state.limit) by {
        order.unique_seq_to_set();
        assert(order.to_set().subset_of(state.pinned.dom()));
        vstd::set_lib::lemma_len_subset(order.to_set(), state.pinned.dom());
    }
    if state.pinned.contains_key(page) && !pages.contains(page) {
        assert(order.contains(page));
        let i = choose|i: int| 0 <= i < order.len() && order[i] == page;
        assert(line[n + i] == (page, state.pinned[page]));
        lemma_lookup_at(line, n + i);
    } else if state.pinned.contains_key(page) {
    } else if has_key(state.recency, page) {
        let i = position(state.recency, page);
        assert(line[i] == state.recency[i]);
        lemma_lookup_at(line, i);
        lemma_lookup_at(state.recency, i);
    } else if has_key(line, page) {
        let i = position(line, page);
        if i < n {
            assert(state.recency[i] == line[i]);
        } else {
            assert(order.contains(order[i - n]));
        }
    }
    if !pages.contains(page) {
        lemma_without_has(line, pages, page);
    } else {
        lemma_without_keys(line, pages);
        let left = without_keys(line, pages);
        if has_key(left, page) {
            assert(!pages.contains(left[position(left, page)].0));
        }
    }
}

/// The textures that lose their pin follow the evictable ones without a key
/// occurring twice.
proof fn lemma_released(state: TextureCacheState, order: Seq<usize>)
    requires
        state.wf(),
        order.no_duplicates(),
        forall|page: usize| #[trigger] order.contains(page) ==> state.pinned.contains_key(page),
    ensures
        distinct_keys(state.recency + state.released(order)),
{
    let line = state.recency + state.released(order);
    let n = state.recency.len() as int;
    assert forall|i: int, j: int| 0 <= i < line.len() && 0 <= j < line.len() && i != j implies (
    #[trigger] line[i]).0 != (#[trigger] line[j]).0 by {
        if i < n {
            assert(!state.pinned_pages.contains(state.recency[i].0));
        } else {
            assert(order.contains(order[i - n]));
        }
        if j < n {
            assert(!state.pinned_pages.contains(state.recency[j].0));
        } else {
            assert(order.contains(order[j - n]));
        }
    }
}

/// A key outside the removed ones keeps its entry.
proof fn lemma_without_has<K, V>(s: Seq<(K, V)>, gone: Set<K>, key: K)
    requires
        distinct_keys(s),
        !gone.contains(key),
    ensures
        has_key(without_keys(s, gone), key) == has_key(s, key),
        lookup(without_keys(s, gone), key) == lookup(s, key),
{
    let left = without_keys(s, gone);
    lemma_without_keys(s, gone);
    if has_key(s, key) {
        let i = position(s, key);
        assert(left.contains(s[i]));
        let j = choose|j: int| 0 <= j < left.len() && left[j] == s[i];
        assert(left[j].0 == key);
    }
    if has_key(left, key) {
        let i = position(left, key);
        assert(s.contains(left[i]));
        let j = choose|j: int| 0 <= j < s.len() && s[j] == left[i];
        assert(s[j].0 == key);
        lemma_lookup_at(s, j);
        lemma_lookup_at(left, i);
    }
}

/// A page that got a texture has that texture, and the others keep theirs.
pub proof fn law_placed_texture_is_found(
    state: TextureCacheState,
    page: usize,
    entry: MangaTextureEntry,
    other: usize,
)
    requires
        state.wf(),
    ensures
        state.placed(page, entry).lookup(page) == Some(entry),
        other != page ==> state.placed(page, entry).lookup(other) == state.lookup(other),
        !state.pinned_pages.contains(page) ==> state.placed(page, entry).recency.last().0 == page,
        state.pinned_pages.contains(page) ==> state.placed(page, entry).recency == state.recency,
{
    lemma_written(state.recency, page, entry);
}

/// Reading a texture changes no texture; a page that is not pinned becomes the one
/// that leaves last.
pub proof fn law_read_page_leaves_last(state: TextureCacheState, page: usize, other: usize)
    requires
        state.wf(),
    ensures
        state.read(page).lookup(other) == state.lookup(other),
        state.read(page).total() == state.total(),
        state.lookup(page) is Some && !state.pinned.contains_key(page) ==> state.read(
            page,
        ).recency.last().0 == page,
        state.pinned.contains_key(page) || state.lookup(page) is None ==> state.read(page) == state,
{
    if has_key(state.recency, page) {
        lemma_without(state.recency, page);
        lemma_written(state.recency, page, state.recency[position(state.recency, page)].1);
        lemma_lookup_at(state.recency, position(state.recency, page));
    }
}

/// A texture that is exchanged keeps the kind of its page; a page without one gets
/// none, and the others keep theirs.
pub proof fn law_exchanged_texture_is_found(
    state: TextureCacheState,
    page: usize,
    texture: u64,
    width: u32,
    height: u32,
    other: usize,
)
    requires
        state.wf(),
    ensures
        ({
            let after = state.updated(page, texture, width, height);
            &&& state.lookup(page) is None ==> after == state
            &&& state.lookup(page) matches Some(known) ==> after.lookup(page) == Some(
                MangaTextureEntry { texture, width, height, media_type: known.media_type },
            )
            &&& other != page ==> after.lookup(other) == state.lookup(other)
            &&& after.pinned_pages == state.pinned_pages
        }),
{
    if let Some(known) = state.lookup(page) {
        let next = MangaTextureEntry { texture, width, height, media_type: known.media_type };
        lemma_written(state.recency, page, next);
    }
}

/// A page that is removed has neither a texture nor a pin, and the others keep theirs.
pub proof fn law_removed_texture_is_gone(state: TextureCacheState, page: usize, other: usize)
    requires
        state.wf(),
    ensures
        state.removed(page).lookup(page) is None,
        !state.removed(page).pinned_pages.contains(page),
        other != page ==> state.removed(page).lookup(other) == state.lookup(other),
        other != page ==> state.removed(page).pinned_pages.contains(other)
            == state.pinned_pages.contains(other),
{
    lemma_without(state.recency, page);
}

/// Of the textures that may leave, those used longest ago leave first: where one
/// leaves, every one that was used longer ago leaves too.  No more leave than the
/// limit asks for.
pub proof fn law_least_recently_used_leave_first(state: TextureCacheState, older: int, newer: int)
    requires
        state.wf(),
        0 <= older < newer < state.recency.len(),
    ensures
        state.trimmed_pages().contains(state.recency[newer].0) ==> state.trimmed_pages().contains(
            state.recency[older].0,
        ),
        state.trimmed().lookup(state.recency[older].0) is Some ==> state.trimmed().lookup(
            state.recency[newer].0,
        ) is Some,
        state.total() <= state.limit ==> state.trimmed_pages().len() == 0,
        state.total() > state.limit && state.trimmed().recency.len() > 0 ==> state.trimmed().total()
            == state.limit,
        state.trimmed().pinned == state.pinned,
{
    let n = state.excess() as int;
    let gone = state.recency.take(n);
    let left = state.recency.skip(n);
    let named = state.trimmed_pages();
    if named.contains(state.recency[newer].0) {
        let k = choose|k: int| 0 <= k < named.len() && named[k] == state.recency[newer].0;
        assert(gone[k] == state.recency[k]);
        assert(k == newer);
        assert(named[older] == state.recency[older].0);
    }
    if newer >= n {
        assert(left[newer - n] == state.recency[newer]);
        assert(has_key(left, state.recency[newer].0));
    }
    if has_key(left, state.recency[older].0) {
        let k = choose|k: int| 0 <= k < left.len() && (#[trigger] left[k]).0 == state.recency[older].0;
        assert(left[k] == state.recency[k + n]);
        assert(k + n == older);
    }
}

/// A smaller limit keeps the textures that were used last.
pub proof fn law_smaller_limit_keeps_the_newest(state: TextureCacheState, limit: nat, i: int)
    requires
        0 <= i < state.resized(limit).recency.len(),
    ensures
        state.resized(limit).limit == limit,
        state.resized(limit).recency.len() <= limit,
        state.resized(limit).recency.len() <= state.recency.len(),
        state.recency.len() <= limit ==> state.resized(limit).recency == state.recency,
        state.recency.len() > limit ==> state.resized(limit).recency.len() == limit,
        state.resized(limit).recency[i] == state.recency[i + state.recency.len() - state.resized(
            limit,
        ).recency.len()],
        state.resized(limit).pinned == state.pinned,
{
}

/// A page that got a texture has it afterwards; the pages that are named have lost
/// theirs, and nothing else changes.
pub proof fn law_inserted_textures_are_there(
    cache: &mut MangaTextureCache,
    page: usize,
    texture: u64,
    width: u32,
    height: u32,
    media_type: MangaMediaType,
    evicted: Vec<usize>,
    other: usize,
)
    requires
        call_ensures(
            MangaTextureCache::insert_with_type,
            (cache, page, texture, width, height, media_type),
            evicted,
        ),
        old(cache)@.wf(),
    ensures
        old(cache)@.pinned_pages.contains(page) ==> final(cache)@.lookup(page) == Some(
            MangaTextureEntry { texture, width, height, media_type },
        ),
        !old(cache)@.pinned_pages.contains(page) && old(cache)@.pinned.dom().len() < old(
            cache)@.limit ==> final(cache)@.lookup(page) == Some(
            MangaTextureEntry { texture, width, height, media_type },
        ),
        final(cache)@.total() <= old(cache)@.limit || final(cache)@.recency.len() == 0,
        evicted@.contains(other) && other != page ==> final(cache)@.lookup(other) is None,
        other != page && !evicted@.contains(other) ==> final(cache)@.lookup(other) == old(
            cache)@.lookup(other),
        final(cache)@.pinned_pages == old(cache)@.pinned_pages,
        final(cache)@.limit == old(cache)@.limit,
{
    let entry = MangaTextureEntry { texture, width, height, media_type };
    let state = old(cache)@;
    let placed = state.placed(page, entry);
    law_placed_texture_is_found(state, page, entry, other);
    lemma_written(state.recency, page, entry);
    assert forall|i: int| 0 <= i < placed.recency.len() implies !placed.pinned.contains_key(
        (#[trigger] placed.recency[i]).0,
    ) by {
        let key = placed.recency[i].0;
        if state.pinned_pages.contains(page) {
            assert(!state.pinned_pages.contains(state.recency[i].0));
        } else if key != page {
            assert(has_key(placed.recency, key));
            assert(has_key(state.recency, key));
            let j = choose|j: int| 0 <= j < state.recency.len() && (#[trigger] state.recency[j]).0 == key;
            assert(!state.pinned_pages.contains(state.recency[j].0));
        }
    }
    lemma_trimmed_lookup(placed, other);
    lemma_trimmed_lookup(placed, page);
    if !state.pinned_pages.contains(page) && state.pinned.dom().len() < state.limit {
        let n = placed.excess() as int;
        let left = placed.recency.skip(n);
        assert(n < placed.recency.len());
        assert(left[left.len() - 1] == placed.recency.last());
        if placed.trimmed_pages().contains(page) {
            let k = choose|k: int|
                0 <= k < placed.trimmed_pages().len() && placed.trimmed_pages()[k] == page;
            assert(placed.recency[k].0 == page);
        }
    }
}

/// Trimming takes the textures of the pages that it names, and no others.
proof fn lemma_trimmed_lookup(state: TextureCacheState, page: usize)
    requires
        distinct_keys(state.recency),
        forall|i: int|
            0 <= i < state.recency.len() ==> !state.pinned.contains_key(
                (#[trigger] state.recency[i]).0,
            ),
    ensures
        state.trimmed_pages().contains(page) ==> state.trimmed().lookup(page) is None,
        !state.trimmed_pages().contains(page) ==> state.trimmed().lookup(page) == state.lookup(page),
{
    let n = state.excess() as int;
    let gone = state.recency.take(n);
    let left = state.recency.skip(n);
    let named = state.trimmed_pages();
    assert forall|i: int, j: int|
        0 <= i < left.len() && 0 <= j < left.len() && i != j implies (#[trigger] left[i]).0 != (
    #[trigger] left[j]).0 by {
        assert(left[i] == state.recency[i + n] && left[j] == state.recency[j + n]);
    }
    if named.contains(page) {
        let k = choose|k: int| 0 <= k < named.len() && named[k] == page;
        assert(gone[k] == state.recency[k]);
        assert(!state.pinned.contains_key(state.recency[k].0));
        if has_key(left, page) {
            let m = choose|m: int| 0 <= m < left.len() && (#[trigger] left[m]).0 == page;
            assert(left[m] == state.recency[m + n]);
        }
    } else {
        if has_key(state.recency, page) {
            let p = position(state.recency, page);
            lemma_lookup_at(state.recency, p);
            if p < n {
                assert(gone[p] == state.recency[p]);
                assert(named[p] == page);
            } else {
                assert(left[p - n] == state.recency[p]);
                lemma_lookup_at(left, p - n);
            }
        } else if has_key(left, page) {
            let m = choose|m: int| 0 <= m < left.len() && (#[trigger] left[m]).0 == page;
            assert(left[m] == state.recency[m + n]);
        }
    }
}

/// A new limit holds at once, and of what may leave the textures that were used last
/// stay.
pub proof fn law_new_limits_hold(
    cache: &mut MangaTextureCache,
    max_entries: usize,
    evicted: Vec<usize>,
    i: int,
)
    requires
        call_ensures(MangaTextureCache::set_max_entries, (cache, max_entries), evicted),
    ensures
        max_entries > 0 ==> final(cache)@.limit == max_entries,
        max_entries == 0 ==> final(cache)@.limit == 1,
        final(cache)@.total() <= final(cache)@.limit || final(cache)@.recency.len() == 0,
        final(cache)@.pinned == old(cache)@.pinned,
        0 <= i < final(cache)@.recency.len() ==> final(cache)@.recency[i] == old(
            cache)@.recency[i + old(cache)@.recency.len() - final(cache)@.recency.len()],
        old(cache)@.total() <= max_entries ==> final(cache)@.recency == old(cache)@.recency
            && evicted@.len() == 0,
{
    if old(cache)@.total() <= max_entries && max_entries > 0 {
        let resized = old(cache)@.resized(max_entries as nat);
        assert(resized.recency.skip(0) =~= resized.recency);
        assert(resized.recency.take(0).len() == 0);
    }
}

/// What is read of a page is its texture, with its size and its kind; reading changes no
/// texture.
pub proof fn law_read_textures_are_the_pages(
    cache: &mut MangaTextureCache,
    page: usize,
    info: Option<(u64, u32, u32, MangaMediaType)>,
    other: usize,
)
    requires
        call_ensures(MangaTextureCache::get_texture_handle_info, (cache, page), info),
        old(cache)@.wf(),
    ensures
        info is Some <==> old(cache)@.lookup(page) is Some,
        info matches Some((texture, width, height, media_type)) ==> old(cache)@.lookup(page) == Some(
            MangaTextureEntry { texture, width, height, media_type },
        ),
        final(cache)@.lookup(other) == old(cache)@.lookup(other),
        info is Some && !old(cache)@.pinned.contains_key(page) ==> final(cache)@.recency.last().0
            == page,
{
    law_read_page_leaves_last(old(cache)@, page, other);
}

/// All ways to read a texture agree.
pub proof fn law_readers_agree(
    first: &mut MangaTextureCache,
    second: &mut MangaTextureCache,
    third: &MangaTextureCache,
    page: usize,
    info: Option<(u64, u32, u32)>,
    full: Option<(u64, u32, u32, MangaMediaType)>,
    size: Option<(u32, u32)>,
)
    requires
        *old(first) == *old(second),
        *old(first) == *third,
        call_ensures(MangaTextureCache::get_texture_info, (first, page), info),
        call_ensures(MangaTextureCache::get_texture_handle_info, (second, page), full),
        call_ensures(MangaTextureCache::peek_texture_dimensions, (third, page), size),
    ensures
        info is Some <==> full is Some,
        size is Some <==> full is Some,
        full matches Some((texture, width, height, kind)) ==> info == Some((texture, width, height))
            && size == Some((width, height)),
        final(first)@ == final(second)@,
{
}

/// A texture that is exchanged keeps the kind of its page, and a page without one gets
/// none.
pub proof fn law_updated_textures_are_there(
    cache: &mut MangaTextureCache,
    page: usize,
    texture: u64,
    width: u32,
    height: u32,
    other: usize,
)
    requires
        call_ensures(MangaTextureCache::update_texture, (cache, page, texture, width, height), ()),
        old(cache)@.wf(),
    ensures
        old(cache)@.lookup(page) is None ==> final(cache)@ == old(cache)@,
        old(cache)@.lookup(page) matches Some(known) ==> final(cache)@.lookup(page) == Some(
            MangaTextureEntry { texture, width, height, media_type: known.media_type },
        ),
        other != page ==> final(cache)@.lookup(other) == old(cache)@.lookup(other),
{
    law_exchanged_texture_is_found(old(cache)@, page, texture, width, height, other);
}

/// Pinning changes which textures may leave and takes none of those that stay pinned; a
/// page that is unpinned keeps its texture as long as there is room.
pub proof fn law_pinned_textures_stay(
    cache: &mut MangaTextureCache,
    pinned: Vec<usize>,
    page: usize,
)
    requires
        call_ensures(MangaTextureCache::set_pinned_indices, (cache, pinned), ()),
    ensures
        final(cache)@.pinned_pages == pinned@.to_set(),
        pinned@.contains(page) && old(cache)@.pinned.contains_key(page) ==> final(
            cache)@.pinned.contains_key(page) && final(cache)@.pinned[page] == old(
            cache)@.pinned[page],
        final(cache)@.pinned.contains_key(page) ==> pinned@.contains(page),
        final(cache)@.limit == old(cache)@.limit,
{
    assert(pinned@.to_set().contains(page) <==> pinned@.contains(page));
}

/// A cleared cache holds nothing and keeps its limit.
pub proof fn law_cleared_caches_are_empty(
    cache: &mut MangaTextureCache,
    page: usize,
    after: &MangaTextureCache,
    empty: bool,
)
    requires
        call_ensures(MangaTextureCache::clear, (cache,), ()),
        *after == *final(cache),
        call_ensures(MangaTextureCache::is_empty, (after,), empty),
    ensures
        final(cache)@.lookup(page) is None,
        !final(cache)@.pinned_pages.contains(page),
        final(cache)@.limit == old(cache)@.limit,
        empty,
{
    assert(Map::<usize, MangaTextureEntry>::empty().dom() =~= Set::<usize>::empty());
}

} // verus!
