//! Maps and sets keyed by page number.
//!
//! A [`PageMap`] keeps its entries densely in a vector and finds them through a
//! hash index from page number to vector position.  Lookups, insertions and
//! removals take constant time, and walking the entries never has to go through
//! the hash table.

use vstd::prelude::*;

verus! {

/// The hash index: page number to position in the entry vector.
#[verifier::external_body]
pub struct SlotIndex {
    inner: hashbrown::HashMap<usize, usize>,
}

/// The pairs that a [`SlotIndex`] holds.
pub uninterp spec fn index_slots(index: SlotIndex) -> Map<usize, usize>;

/// `hashbrown::HashMap::new`: the new map holds nothing.
#[verifier::external_body]
fn index_new() -> (index: SlotIndex)
    ensures
        index_slots(index) == (Map::<usize, usize>::empty()),
{
    SlotIndex { inner: hashbrown::HashMap::new() }
}

/// `hashbrown::HashMap::get`: the value stored under the key, if there is one.
#[verifier::external_body]
fn index_get(index: &SlotIndex, page: usize) -> (slot: Option<usize>)
    ensures
        slot == (if index_slots(*index).contains_key(page) {
            Some(index_slots(*index)[page])
        } else {
            None
        }),
{
    index.inner.get(&page).copied()
}

/// `hashbrown::HashMap::insert`: afterwards the key has the given value and all
/// other keys are as they were.
#[verifier::external_body]
fn index_insert(index: &mut SlotIndex, page: usize, slot: usize)
    ensures
        index_slots(*final(index)) == index_slots(*old(index)).insert(page, slot),
{
    index.inner.insert(page, slot);
}

/// `hashbrown::HashMap::remove`: afterwards the key is gone and all other keys
/// are as they were.
#[verifier::external_body]
fn index_remove(index: &mut SlotIndex, page: usize)
    ensures
        index_slots(*final(index)) == index_slots(*old(index)).remove(page),
{
    index.inner.remove(&page);
}

/// `hashbrown::HashMap::clear`: afterwards the map holds nothing.
#[verifier::external_body]
fn index_clear(index: &mut SlotIndex)
    ensures
        index_slots(*final(index)) == (Map::<usize, usize>::empty()),
{
    index.inner.clear();
}

/// A map from page number to `V`.
#[verifier::reject_recursive_types(V)]
pub struct PageMap<V> {
    slots: SlotIndex,
    entries: Vec<(usize, V)>,
}

impl<V> View for PageMap<V> {
    type V = Map<usize, V>;

    closed spec fn view(&self) -> Map<usize, V> {
        Map::new(
            |page: usize| index_slots(self.slots).contains_key(page),
            |page: usize| self.entries@[index_slots(self.slots)[page] as int].1,
        )
    }
}

impl<V> PageMap<V> {
    /// The index and the entry vector describe the same pairs.
    pub closed spec fn wf(&self) -> bool {
        &&& forall|i: int|
            0 <= i < self.entries@.len() ==> {
                &&& #[trigger] index_slots(self.slots).contains_key(self.entries@[i].0)
                &&& index_slots(self.slots)[self.entries@[i].0] == i
            }
        &&& forall|page: usize| #[trigger]
            index_slots(self.slots).contains_key(page) ==> {
                &&& index_slots(self.slots)[page] < self.entries@.len()
                &&& self.entries@[index_slots(self.slots)[page] as int].0 == page
            }
    }

    /// The page numbers in the order in which the entries are stored.
    pub closed spec fn page_order(&self) -> Seq<usize> {
        self.entries@.map_values(|entry: (usize, V)| entry.0)
    }

    /// The storage order names every page of the map exactly once.
    pub proof fn lemma_page_order(&self)
        requires
            self.wf(),
        ensures
            self.page_order().no_duplicates(),
            self.page_order().to_set() == self@.dom(),
            self.page_order().len() == self@.dom().len(),
            self@.dom().finite(),
            forall|page: usize| self@.contains_key(page) <==> self.page_order().contains(page),
    {
        let order = self.page_order();
        assert forall|i: int, j: int|
            0 <= i < order.len() && 0 <= j < order.len() && i != j implies order[i] != order[j] by {
            assert(index_slots(self.slots).contains_key(self.entries@[i].0));
            assert(index_slots(self.slots).contains_key(self.entries@[j].0));
        }
        assert forall|page: usize| self@.contains_key(page) implies order.contains(page) by {
            assert(index_slots(self.slots).contains_key(page));
            assert(order[index_slots(self.slots)[page] as int] == page);
        }
        assert forall|page: usize| order.contains(page) implies self@.contains_key(page) by {
            let i = choose|i: int| 0 <= i < order.len() && order[i] == page;
            assert(index_slots(self.slots).contains_key(self.entries@[i].0));
        }
        assert(order.to_set() =~= self@.dom());
        order.unique_seq_to_set();
    }

    pub fn new() -> (map: Self)
        ensures
            map.wf(),
            map@ == Map::<usize, V>::empty(),
    {
        let map = PageMap { slots: index_new(), entries: Vec::new() };
        assert(map@ =~= Map::<usize, V>::empty());
        map
    }

    /// How many pages the map holds.
    pub fn len(&self) -> (count: usize)
        requires
            self.wf(),
        ensures
            count == self@.dom().len(),
            self@.dom().finite(),
    {
        proof {
            self.lemma_page_order();
        }
        self.entries.len()
    }

    pub fn contains(&self, page: usize) -> (found: bool)
        requires
            self.wf(),
        ensures
            found == self@.contains_key(page),
    {
        index_get(&self.slots, page).is_some()
    }

    pub fn get(&self, page: usize) -> (value: Option<&V>)
        requires
            self.wf(),
        ensures
            value is Some <==> self@.contains_key(page),
            value matches Some(v) ==> *v == self@[page],
    {
        match index_get(&self.slots, page) {
            Some(slot) => {
                assert(index_slots(self.slots).contains_key(page));
                Some(&self.entries[slot].1)
            },
            None => None,
        }
    }

    /// Stores `value` under `page`, in place of what was there before.
    pub fn insert(&mut self, page: usize, value: V)
        requires
            old(self).wf(),
        ensures
            final(self).wf(),
            final(self)@ == old(self)@.insert(page, value),
    {
        let ghost before = *self;
        match index_get(&self.slots, page) {
            Some(slot) => {
                assert(index_slots(self.slots).contains_key(page));
                self.entries.set(slot, (page, value));
                assert forall|i: int| 0 <= i < self.entries@.len() implies {
                    &&& #[trigger] index_slots(self.slots).contains_key(self.entries@[i].0)
                    &&& index_slots(self.slots)[self.entries@[i].0] == i
                } by {
                    assert(index_slots(before.slots).contains_key(before.entries@[i].0));
                    assert(self.entries@[i].0 == before.entries@[i].0);
                }
            },
            None => {
                let slot: usize = self.entries.len();
                index_insert(&mut self.slots, page, slot);
                self.entries.push((page, value));
                assert forall|i: int| 0 <= i < self.entries@.len() implies {
                    &&& #[trigger] index_slots(self.slots).contains_key(self.entries@[i].0)
                    &&& index_slots(self.slots)[self.entries@[i].0] == i
                } by {
                    if i < slot {
                        assert(index_slots(before.slots).contains_key(before.entries@[i].0));
                    }
                }
                assert forall|other: usize| #[trigger]
                    index_slots(self.slots).contains_key(other) implies {
                    &&& index_slots(self.slots)[other] < self.entries@.len()
                    &&& self.entries@[index_slots(self.slots)[other] as int].0 == other
                } by {
                    if other != page {
                        assert(index_slots(before.slots).contains_key(other));
                    }
                }
            },
        }
        assert(self@ =~= before@.insert(page, value));
    }

    /// Takes the entry of `page` out of the map.
    pub fn remove(&mut self, page: usize) -> (value: Option<V>)
        requires
            old(self).wf(),
        ensures
            final(self).wf(),
            final(self)@ == old(self)@.remove(page),
            value is Some <==> old(self)@.contains_key(page),
            value matches Some(v) ==> v == old(self)@[page],
    {
        let ghost before = *self;
        match index_get(&self.slots, page) {
            Some(slot) => {
                assert(index_slots(self.slots).contains_key(page));
                index_remove(&mut self.slots, page);
                let last: usize = self.entries.len() - 1;
                if slot < last {
                    let moved: usize = self.entries[last].0;
                    assert(index_slots(before.slots).contains_key(before.entries@[last as int].0));
                    index_insert(&mut self.slots, moved, slot);
                }
                let (_, value) = self.entries.swap_remove(slot);
                assert forall|i: int| 0 <= i < self.entries@.len() implies {
                    &&& #[trigger] index_slots(self.slots).contains_key(self.entries@[i].0)
                    &&& index_slots(self.slots)[self.entries@[i].0] == i
                } by {
                    assert(index_slots(before.slots).contains_key(before.entries@[i].0));
                    assert(index_slots(before.slots).contains_key(before.entries@[last as int].0));
                }
                assert forall|other: usize| #[trigger]
                    index_slots(self.slots).contains_key(other) implies {
                    &&& index_slots(self.slots)[other] < self.entries@.len()
                    &&& self.entries@[index_slots(self.slots)[other] as int].0 == other
                } by {
                    assert(index_slots(before.slots).contains_key(other));
                    assert(index_slots(before.slots).contains_key(before.entries@[last as int].0));
                }
                assert forall|other: usize| before@.remove(page).contains_key(other) implies {
                    &&& #[trigger] self@.contains_key(other)
                    &&& self@[other] == before@[other]
                } by {
                    assert(index_slots(before.slots).contains_key(other));
                    assert(index_slots(before.slots).contains_key(before.entries@[last as int].0));
                }
                assert(self@ =~= before@.remove(page));
                Some(value)
            },
            None => {
                assert(self@ =~= before@.remove(page));
                None
            },
        }
    }

    pub fn clear(&mut self)
        ensures
            final(self).wf(),
            final(self)@ == Map::<usize, V>::empty(),
    {
        index_clear(&mut self.slots);
        self.entries.clear();
        assert(self@ =~= Map::<usize, V>::empty());
    }

    /// All pages of the map, each once, in storage order.
    pub fn pages(&self) -> (pages: Vec<usize>)
        requires
            self.wf(),
        ensures
            pages@ == self.page_order(),
            pages@.no_duplicates(),
            forall|page: usize| self@.contains_key(page) <==> pages@.contains(page),
    {
        let mut pages: Vec<usize> = Vec::new();
        let mut i: usize = 0;
        while i < self.entries.len()
            invariant
                i <= self.entries@.len(),
                pages@ == self.page_order().take(i as int),
            decreases self.entries@.len() - i,
        {
            pages.push(self.entries[i].0);
            i = i + 1;
            assert(pages@ =~= self.page_order().take(i as int));
        }
        proof {
            self.lemma_page_order();
        }
        assert(self.page_order().take(i as int) =~= self.page_order());
        pages
    }
}

/// The pages as a map, for asking which are there.
pub fn page_set(pages: &Vec<usize>) -> (set: PageMap<bool>)
    ensures
        set.wf(),
        set@.dom() == pages@.to_set(),
{
    let mut set: PageMap<bool> = PageMap::new();
    let mut i: usize = 0;
    assert(set@.dom() =~= pages@.take(0).to_set());
    while i < pages.len()
        invariant
            i <= pages@.len(),
            set.wf(),
            set@.dom() == pages@.take(i as int).to_set(),
        decreases pages@.len() - i,
    {
        let ghost shorter = pages@.take(i as int);
        set.insert(pages[i], true);
        proof {
            let longer = pages@.take(i + 1);
            assert(longer =~= shorter.push(pages@[i as int]));
            assert forall|p: usize| longer.to_set().contains(p) <==> shorter.to_set().insert(
                pages@[i as int],
            ).contains(p) by {
                if shorter.contains(p) {
                    let k = choose|k: int| 0 <= k < shorter.len() && shorter[k] == p;
                    assert(longer[k] == p);
                }
                assert(longer[i as int] == pages@[i as int]);
            }
            assert(longer.to_set() =~= shorter.to_set().insert(pages@[i as int]));
        }
        i = i + 1;
    }
    assert(pages@.take(pages@.len() as int) =~= pages@);
    set
}

/// What is stored under a page is found there, and what is stored elsewhere stays.
pub proof fn law_stored_values_are_found<V>(
    map: &mut PageMap<V>,
    page: usize,
    value: V,
    after: &PageMap<V>,
    other: usize,
    found: Option<&V>,
)
    requires
        call_ensures(PageMap::<V>::insert, (map, page, value), ()),
        *after == *final(map),
        call_ensures(PageMap::<V>::get, (after, other), found),
    ensures
        other == page ==> found == Some(&value),
        other != page ==> (found is Some <==> old(map)@.contains_key(other)),
        other != page ==> (found matches Some(v) ==> *v == old(map)@[other]),
{
}

/// What is taken out was there, is not found afterwards, and nothing else leaves.
pub proof fn law_removed_values_are_gone<V>(
    map: &mut PageMap<V>,
    page: usize,
    taken: Option<V>,
    after: &PageMap<V>,
    other: usize,
    found: bool,
)
    requires
        call_ensures(PageMap::<V>::remove, (map, page), taken),
        *after == *final(map),
        call_ensures(PageMap::<V>::contains, (after, other), found),
    ensures
        taken is Some <==> old(map)@.contains_key(page),
        taken matches Some(v) ==> v == old(map)@[page],
        other == page ==> !found,
        other != page ==> found == old(map)@.contains_key(other),
{
}

/// A set of pages holds those that it was made of.
pub proof fn law_sets_hold_their_pages(given: &Vec<usize>, set: PageMap<bool>, page: usize)
    requires
        call_ensures(page_set, (given,), set),
    ensures
        set@.contains_key(page) <==> given@.contains(page),
{
    assert(given@.to_set().contains(page) <==> given@.contains(page));
    assert(set@.dom().contains(page) <==> set@.contains_key(page));
}

} // verus!
