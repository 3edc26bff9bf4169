//! Maps keyed by fixed names.

use vstd::prelude::*;

verus! {

/// The hash index: name to position in the value vector.
#[verifier::external_body]
pub struct NameIndex {
    inner: hashbrown::HashMap<&'static str, usize>,
}

/// The pairs that a [`NameIndex`] holds.
pub uninterp spec fn name_slots(index: NameIndex) -> Map<Seq<char>, usize>;

/// `hashbrown::HashMap::new`: the new map holds nothing.
#[verifier::external_body]
fn names_new() -> (index: NameIndex)
    ensures
        name_slots(index) == (Map::<Seq<char>, usize>::empty()),
{
    NameIndex { inner: hashbrown::HashMap::new() }
}

/// `hashbrown::HashMap::get`: the value stored under the name, if there is one.
#[verifier::external_body]
fn names_get(index: &NameIndex, name: &str) -> (slot: Option<usize>)
    ensures
        slot == (if name_slots(*index).contains_key(name@) {
            Some(name_slots(*index)[name@])
        } else {
            None
        }),
{
    index.inner.get(name).copied()
}

/// `hashbrown::HashMap::insert`: afterwards the name has the given value and all
/// other names are as they were.
#[verifier::external_body]
fn names_insert(index: &mut NameIndex, name: &'static str, slot: usize)
    ensures
        name_slots(*final(index)) == name_slots(*old(index)).insert(name@, slot),
{
    index.inner.insert(name, slot);
}

/// A map from name to `V`.  Names are never taken out.
#[verifier::reject_recursive_types(V)]
pub struct NameMap<V> {
    slots: NameIndex,
    values: Vec<V>,
}

impl<V> View for NameMap<V> {
    type V = Map<Seq<char>, V>;

    closed spec fn view(&self) -> Map<Seq<char>, V> {
        Map::new(
            |name: Seq<char>| name_slots(self.slots).contains_key(name),
            |name: Seq<char>| self.values@[name_slots(self.slots)[name] as int],
        )
    }
}

impl<V> NameMap<V> {
    /// Every name has a place of its own.
    pub closed spec fn wf(&self) -> bool {
        &&& forall|name: Seq<char>| #[trigger]
            name_slots(self.slots).contains_key(name) ==> name_slots(self.slots)[name]
                < self.values@.len()
        &&& forall|a: Seq<char>, b: Seq<char>|
            #![trigger name_slots(self.slots)[a], name_slots(self.slots)[b]]
            name_slots(self.slots).contains_key(a) && name_slots(self.slots).contains_key(b)
                && a != b ==> name_slots(self.slots)[a] != name_slots(self.slots)[b]
    }

    pub fn new() -> (map: Self)
        ensures
            map.wf(),
            map@ == Map::<Seq<char>, V>::empty(),
    {
        let map = NameMap { slots: names_new(), values: Vec::new() };
        assert(map@ =~= Map::<Seq<char>, V>::empty());
        map
    }

    pub fn get(&self, name: &str) -> (value: Option<&V>)
        requires
            self.wf(),
        ensures
            value is Some <==> self@.contains_key(name@),
            value matches Some(v) ==> *v == self@[name@],
    {
        match names_get(&self.slots, name) {
            Some(slot) => Some(&self.values[slot]),
            None => None,
        }
    }

    /// The value of `name`, which is `fresh` if it had none, to be changed in
    /// place.
    pub fn entry(&mut self, name: &'static str, fresh: V) -> (value: &mut V)
        requires
            old(self).wf(),
        ensures
            *value == (if old(self)@.contains_key(name@) {
                old(self)@[name@]
            } else {
                fresh
            }),
            final(self).wf(),
            final(self)@ == old(self)@.insert(name@, *final(value)),
    {
        let ghost before = *self;
        let slot: usize = match names_get(&self.slots, name) {
            Some(slot) => slot,
            None => {
                let slot: usize = self.values.len();
                names_insert(&mut self.slots, name, slot);
                self.values.push(fresh);
                slot
            },
        };
        let ghost slots = name_slots(self.slots);
        let ghost values = self.values@;
        proof {
            assert forall|other: Seq<char>| slots.contains_key(other) && other != name@ implies {
                &&& slots[other] != slot
                &&& before@.contains_key(other)
                &&& values[slots[other] as int] == #[trigger] before@[other]
            } by {
                assert(name_slots(before.slots).contains_key(other));
            }
        }
        let value = &mut self.values[slot];
        proof {
            let after = values.update(slot as int, *final(value));
            assert(before@.insert(name@, *final(value)) =~= Map::new(
                |name: Seq<char>| slots.contains_key(name),
                |name: Seq<char>| after[slots[name] as int],
            ));
        }
        value
    }
}

} // verus!
