use crate::error::ResourceError;
use crate::handle::Handle;
use vstd::prelude::*;

verus! {

#[verifier::external_type_specification]
#[verifier::external_body]
#[verifier::reject_recursive_types(T)]
pub struct ExSlab<T>(slab::Slab<T>);

/// What a table holds: for each occupied slot, the generation it was filled
/// in and the resource; and the generation the next insert will use.
#[verifier::reject_recursive_types(T)]
pub struct TableModel<T> {
    pub entries: Map<usize, (u64, T)>,
    pub next_generation: u64,
}

impl<T> TableModel<T> {
    /// Every stored generation was handed out before the current counter.
    pub open spec fn wf(self) -> bool {
        forall|k: usize| #[trigger]
            self.entries.contains_key(k) ==> self.entries[k].0 < self.next_generation
    }

    pub open spec fn no_entries() -> Map<usize, (u64, T)> {
        Map::empty()
    }

    /// The slot a handle names, where it can name one.
    pub open spec fn slot(h: Handle) -> usize {
        h.index as usize
    }

    /// The handle names an occupied slot filled in the handle's generation.
    pub open spec fn is_live(self, h: Handle) -> bool {
        &&& h.index <= usize::MAX
        &&& self.entries.contains_key(Self::slot(h))
        &&& self.entries[Self::slot(h)].0 == h.generation
    }

    pub open spec fn lookup(self, h: Handle) -> Option<T> {
        if self.is_live(h) {
            Some(self.entries[Self::slot(h)].1)
        } else {
            None
        }
    }

    /// The table after `v` was stored in the free slot `key`.
    pub open spec fn inserted(self, key: usize, v: T) -> TableModel<T> {
        TableModel {
            entries: self.entries.insert(key, (self.next_generation, v)),
            next_generation: (self.next_generation + 1) as u64,
        }
    }

    /// The table after a release through `h`: only an owning, live handle
    /// frees its slot.
    pub open spec fn released(self, h: Handle) -> TableModel<T> {
        if h.owned && self.is_live(h) {
            TableModel { entries: self.entries.remove(Self::slot(h)), next_generation: self.next_generation }
        } else {
            self
        }
    }

    /// The result a release through `h` reports.
    pub open spec fn release_result(self, h: Handle) -> Result<(), ResourceError> {
        if !h.owned {
            Err(ResourceError::OwnershipViolation)
        } else if !self.is_live(h) {
            Err(ResourceError::NotFound)
        } else {
            Ok(())
        }
    }
}

/// A reusable slot array of resources of one kind, addressed by handles.
///
/// Each insert stamps its slot with a fresh generation, so a handle whose
/// resource was released never reaches a later resource that reuses the slot.
#[verifier::reject_recursive_types(T)]
pub struct ResourceTable<T> {
    slots: slab::Slab<(u64, T)>,
    next_generation: u64,
    contents: Ghost<Map<usize, (u64, T)>>,
}

impl<T> View for ResourceTable<T> {
    type V = TableModel<T>;

    closed spec fn view(&self) -> TableModel<T> {
        TableModel { entries: self.contents@, next_generation: self.next_generation }
    }
}

impl<T> ResourceTable<T> {
    /// Relies on slab::Slab::new: a slab with no occupied slot.
    #[verifier::external_body]
    fn with_empty_slab() -> (r: Self)
        ensures
            r.contents@ == TableModel::<T>::no_entries(),
            r.next_generation == 0,
    {
        ResourceTable { slots: slab::Slab::new(), next_generation: 0, contents: Ghost(Map::empty()) }
    }

    /// Relies on slab::Slab::insert: the value goes into a slot that was
    /// vacant, whose key is returned, and no other slot changes.
    #[verifier::external_body]
    fn slab_insert(&mut self, entry: (u64, T)) -> (key: usize)
        ensures
            !old(self).contents@.contains_key(key),
            final(self).contents@ == old(self).contents@.insert(key, entry),
            final(self).next_generation == old(self).next_generation,
    {
        self.slots.insert(entry)
    }

    /// Relies on slab::Slab::get: the value of an occupied slot, or `None`.
    #[verifier::external_body]
    fn slab_get(&self, key: usize) -> (r: Option<&(u64, T)>)
        ensures
            r.is_some() == self.contents@.contains_key(key),
            r.is_some() ==> *r.unwrap() == self.contents@[key],
    {
        self.slots.get(key)
    }

    /// Relies on slab::Slab::get_mut: exclusive access to the value of an
    /// occupied slot, or `None`; no other slot changes.
    #[verifier::external_body]
    fn slab_get_mut(&mut self, key: usize) -> (r: Option<&mut (u64, T)>)
        ensures
            r.is_some() == old(self).contents@.contains_key(key),
            final(self).next_generation == old(self).next_generation,
            r.is_none() ==> final(self).contents@ == old(self).contents@,
            r.is_some() ==> *r.unwrap() == old(self).contents@[key]
                && final(self).contents@ == old(self).contents@.insert(key, *final(r.unwrap())),
    {
        self.slots.get_mut(key)
    }

    /// Relies on slab::Slab::try_remove: an occupied slot is vacated and its
    /// value returned; a vacant one gives `None` and nothing changes.
    #[verifier::external_body]
    fn slab_try_remove(&mut self, key: usize) -> (r: Option<(u64, T)>)
        ensures
            r.is_some() == old(self).contents@.contains_key(key),
            final(self).next_generation == old(self).next_generation,
            r.is_some() ==> r.unwrap() == old(self).contents@[key]
                && final(self).contents@ == old(self).contents@.remove(key),
            r.is_none() ==> final(self).contents@ == old(self).contents@,
    {
        self.slots.try_remove(key)
    }

    /// An empty table.
    pub fn new() -> (r: Self)
        ensures
            r@.wf(),
            r@.entries == TableModel::<T>::no_entries(),
            r@.next_generation == 0,
    {
        Self::with_empty_slab()
    }

    /// The generation the next insert will stamp; an insert needs it below
    /// `u64::MAX`.
    pub fn next_generation(&self) -> (r: u64)
        ensures
            r == self@.next_generation,
    {
        self.next_generation
    }

    /// Stores `item` in a free slot and returns a fresh owning handle to it.
    pub fn insert(&mut self, item: T) -> (h: Handle)
        requires
            old(self)@.wf(),
            old(self)@.next_generation < u64::MAX,
        ensures
            final(self)@.wf(),
            h.owned,
            h.index <= usize::MAX,
            !old(self)@.entries.contains_key(h.index as usize),
            h.generation == old(self)@.next_generation,
            final(self)@ == old(self)@.inserted(h.index as usize, item),
            final(self)@.lookup(h) == Some(item),
    {
        let ghost before = self@;
        let generation = self.next_generation;
        let key = self.slab_insert((generation, item));
        self.next_generation = generation + 1;
        proof {
            assert forall|k: usize| #[trigger] self@.entries.contains_key(k) implies self@.entries[k].0
                < self@.next_generation by {
                if k != key {
                    assert(before.entries.contains_key(k));
                }
            }
        }
        let h = Handle { index: key as u64, generation, owned: true };
        assert(h.index as usize == key);
        h
    }

    /// Shared access to the resource `h` names, or `None` when the handle is
    /// stale, released, or was never valid.
    pub fn get(&self, h: Handle) -> (r: Option<&T>)
        ensures
            r.is_some() == self@.is_live(h),
            r.is_some() ==> self@.lookup(h) == Some(*r.unwrap()),
    {
        if h.index > usize::MAX as u64 {
            return None;
        }
        let key = h.index as usize;
        match self.slab_get(key) {
            Some(entry) => {
                if entry.0 == h.generation {
                    Some(&entry.1)
                } else {
                    None
                }
            },
            None => None,
        }
    }

    /// Exclusive access to the resource `h` names, or `None` as for `get`.
    /// Whatever is written through the result is what the slot then holds.
    pub fn get_mut(&mut self, h: Handle) -> (r: Option<&mut T>)
        requires
            old(self)@.wf(),
        ensures
            final(self)@.wf(),
            r.is_some() == old(self)@.is_live(h),
            r.is_none() ==> final(self)@ == old(self)@,
            r.is_some() ==> old(self)@.lookup(h) == Some(*r.unwrap())
                && final(self)@ == (TableModel {
                    entries: old(self)@.entries.insert(h.index as usize, (h.generation, *final(r.unwrap()))),
                    next_generation: old(self)@.next_generation,
                }),
    {
        if h.index > usize::MAX as u64 {
            return None;
        }
        let key = h.index as usize;
        let live = match self.slab_get(key) {
            Some(entry) => entry.0 == h.generation,
            None => false,
        };
        if !live {
            return None;
        }
        match self.slab_get_mut(key) {
            Some(entry) => Some(&mut entry.1),
            None => None,
        }
    }

    /// Frees the slot of the resource `h` names and drops the resource.
    /// Only an owning handle may release; a stale one changes nothing.
    pub fn drop_key(&mut self, h: Handle) -> (r: Result<(), ResourceError>)
        requires
            old(self)@.wf(),
        ensures
            final(self)@.wf(),
            final(self)@ == old(self)@.released(h),
            r == old(self)@.release_result(h),
    {
        if !h.owned {
            return Err(ResourceError::OwnershipViolation);
        }
        if h.index > usize::MAX as u64 {
            return Err(ResourceError::NotFound);
        }
        let key = h.index as usize;
        let live = match self.slab_get(key) {
            Some(entry) => entry.0 == h.generation,
            None => false,
        };
        if !live {
            return Err(ResourceError::NotFound);
        }
        let _ = self.slab_try_remove(key);
        Ok(())
    }
}

} // verus!
