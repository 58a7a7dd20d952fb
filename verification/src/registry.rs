//! Ordered lists of handlers under text keys.

use vstd::prelude::*;
use vstd::hash_map::StringHashMap;

verus! {

/// The handlers that `map` holds under `key`: none where the key is absent.
pub open spec fn hooks_at<H>(map: Map<Seq<char>, Seq<H>>, key: Seq<char>) -> Seq<H> {
    if map.contains_key(key) {
        map[key]
    } else {
        Seq::empty()
    }
}

/// `map` with `handler` added behind the handlers already under `key`.
pub open spec fn appended<H>(map: Map<Seq<char>, Seq<H>>, key: Seq<char>, handler: H) -> Map<
    Seq<char>,
    Seq<H>,
> {
    map.insert(key, hooks_at(map, key).push(handler))
}

/// For each key the handlers registered under it, in the order in which
/// they were registered. A key that is present has at least one handler.
pub struct Registry<H> {
    slots: StringHashMap<usize>,
    lists: Vec<Vec<H>>,
}

impl<H> Registry<H> {
    /// The registry is consistent: every value of this type that the
    /// functions below hand out is.
    pub closed spec fn wf(&self) -> bool {
        &&& forall|key: Seq<char>| #[trigger]
            self.slots@.contains_key(key) ==> self.slots@[key] < self.lists@.len()
        &&& forall|a: Seq<char>, b: Seq<char>|
            self.slots@.contains_key(a) && self.slots@.contains_key(b) && #[trigger] self.slots@[a]
                == #[trigger] self.slots@[b] ==> a == b
        &&& forall|i: int| 0 <= i < self.lists@.len() ==> (#[trigger] self.lists@[i])@.len() > 0
    }

    /// Emptiness aside, the registry as a map from keys to handler lists.
    pub closed spec fn view(&self) -> Map<Seq<char>, Seq<H>> {
        Map::new(
            |key: Seq<char>| self.slots@.contains_key(key),
            |key: Seq<char>| self.lists@[self.slots@[key] as int]@,
        )
    }

    /// A registry without handlers.
    pub fn new() -> (registry: Self)
        ensures
            registry.wf(),
            registry@ == Map::<Seq<char>, Seq<H>>::empty(),
    {
        let registry = Registry { slots: StringHashMap::new(), lists: Vec::new() };
        assert(registry@ =~= Map::<Seq<char>, Seq<H>>::empty());
        registry
    }

    /// Adds `handler` behind the handlers already under `key`. Handlers
    /// under other keys stay as they are.
    pub fn register(&mut self, key: String, handler: H)
        requires
            old(self).wf(),
        ensures
            final(self).wf(),
            final(self)@ == appended(old(self)@, key@, handler),
    {
        let slot = match self.slots.get(key.as_str()) {
            Some(slot) => Some(*slot),
            None => None,
        };
        match slot {
            Some(slot) => {
                let ghost before = self.lists@;
                self.lists[slot].push(handler);
                assert(forall|i: int|
                    0 <= i < before.len() && i != slot ==> self.lists@[i] == before[i]);
                assert(self@ =~= appended(old(self)@, key@, handler));
            },
            None => {
                let mut list: Vec<H> = Vec::new();
                list.push(handler);
                let slot = self.lists.len();
                self.lists.push(list);
                self.slots.insert(key, slot);
                assert(hooks_at(old(self)@, key@) =~= Seq::<H>::empty());
                assert(list@ =~= Seq::<H>::empty().push(handler));
                assert(self@ =~= appended(old(self)@, key@, handler));
            },
        }
    }

    /// The handlers under `key`, in registration order, if there are any.
    pub fn get(&self, key: &str) -> (handlers: Option<&Vec<H>>)
        requires
            self.wf(),
        ensures
            handlers is Some <==> self@.contains_key(key@),
            handlers matches Some(list) ==> list@ == self@[key@] && list@.len() > 0,
    {
        match self.slots.get(key) {
            Some(slot) => Some(&self.lists[*slot]),
            None => None,
        }
    }
}

} // verus!
