use vstd::prelude::*;

use crate::descriptor::build_descriptor;
use crate::descriptor::descriptor_of;
use crate::descriptor::Descriptor;
use crate::descriptor::DescriptorV;
use crate::descriptor::PluginDescriptor;
use crate::descriptor::PluginV;

verus! {

/// Fixed number of slots in the descriptor table. The table signals the
/// fatal condition as soon as registrations fill it.
pub const MAX_DESCRIPTORS: usize = 32;

/// One registered plugin: the marshaled host-visible record beside the
/// retained original description (the instantiation step reads the
/// original back to construct plugin logic).
pub struct Entry {
    /// The marshaled, host-visible descriptor record.
    pub abi: Descriptor,
    /// The original plugin description, retained for instantiation.
    pub source: PluginDescriptor,
}

/// Mathematical value of a registry entry.
#[verifier::ext_equal]
pub ghost struct EntryV {
    pub abi: DescriptorV,
    pub source: PluginV,
}

impl View for Entry {
    type V = EntryV;

    open spec fn view(&self) -> EntryV {
        EntryV { abi: self.abi@, source: self.source@ }
    }
}

/// Failure of the registry.
#[derive(Clone, Copy, PartialEq, Eq, Structural, Debug)]
pub enum RegistryError {
    /// Registrations reached the fixed capacity: the catalog failed to
    /// terminate enumeration. The caller must treat this as fatal.
    CapacityExhausted,
}

/// The process-wide descriptor table: one marshaled descriptor per
/// catalog index, built lazily in index order, capacity-bounded.
pub struct Registry {
    /// Built entries; the entry at position `i` answers lookups of index `i`.
    pub entries: Vec<Entry>,
    /// Fixed capacity the table was created with.
    pub capacity: usize,
}

/// Mathematical value of the registry.
#[verifier::ext_equal]
pub ghost struct RegistryV {
    pub entries: Seq<EntryV>,
    pub capacity: nat,
}

impl View for Registry {
    type V = RegistryV;

    open spec fn view(&self) -> RegistryV {
        RegistryV {
            entries: Seq::new(self.entries@.len(), |i: int| self.entries@[i]@),
            capacity: self.capacity as nat,
        }
    }
}

impl RegistryV {
    /// What a lookup of `index` answers: the cached entry once built,
    /// nothing beyond the built range.
    pub open spec fn lookup_spec(self, index: int) -> Option<EntryV> {
        if 0 <= index < self.entries.len() {
            Some(self.entries[index])
        } else {
            None
        }
    }
}

impl Registry {
    /// Creates the empty table with the fixed capacity.
    pub fn new() -> (r: Registry)
        ensures
            r@.entries.len() == 0,
            r@.capacity == MAX_DESCRIPTORS,
    {
        Registry { entries: Vec::new(), capacity: MAX_DESCRIPTORS }
    }

    /// Number of entries built so far.
    pub fn count(&self) -> (n: usize)
        ensures
            n == self@.entries.len(),
    {
        self.entries.len()
    }

    /// Looks an index up in the table: the cached entry for an index
    /// already built, nothing for an index beyond the built range.
    pub fn lookup(&self, index: usize) -> (r: Option<&Entry>)
        ensures
            match r {
                Some(e) => index < self@.entries.len() && e@ == self@.entries[index as int],
                None => index >= self@.entries.len(),
            },
    {
        if index < self.entries.len() {
            Some(&self.entries[index])
        } else {
            None
        }
    }

    /// Marshals one plugin description and appends it to the table.
    /// The result reports whether the table is still under its capacity
    /// afterwards; `Err` is the fatal over-capacity condition and the
    /// caller must not register further.
    pub fn register(&mut self, plugin: PluginDescriptor) -> (r: Result<usize, RegistryError>)
        requires
            old(self)@.entries.len() < old(self)@.capacity,
        ensures
            final(self)@.capacity == old(self)@.capacity,
            final(self)@.entries == old(self)@.entries.push(
                EntryV { abi: descriptor_of(plugin@), source: plugin@ },
            ),
            r is Ok <==> old(self)@.entries.len() + 1 < old(self)@.capacity,
            r matches Ok(idx) ==> idx == old(self)@.entries.len(),
            r is Err ==> r->Err_0 == RegistryError::CapacityExhausted,
    {
        let abi = build_descriptor(&plugin);
        let index = self.entries.len();
        self.entries.push(Entry { abi, source: plugin });
        proof {
            assert(self@.entries =~~= old(self)@.entries.push(
                EntryV { abi: descriptor_of(plugin@), source: plugin@ },
            ));
        }
        if self.entries.len() < self.capacity {
            Ok(index)
        } else {
            Err(RegistryError::CapacityExhausted)
        }
    }
}

/// Once an index is built, its entry is stable: a registration step
/// appends one entry and leaves what every already-built index answers
/// exactly as it was, so repeated lookups of a registered index keep
/// returning the identical cached record.
pub proof fn lemma_lookup_stable_after_register(pre: RegistryV, post: RegistryV, e: EntryV, i: int)
    requires
        post.entries == pre.entries.push(e),
        0 <= i < pre.entries.len(),
    ensures
        post.lookup_spec(i) == pre.lookup_spec(i),
        post.lookup_spec(i) is Some,
{
    assert(post.entries[i] == pre.entries[i]);
}

/// What a registration leaves behind: the index it filled answers every
/// later lookup with exactly the marshaled record and the retained
/// original description.
pub proof fn lemma_register_then_lookup(pre: RegistryV, post: RegistryV, p: PluginV)
    requires
        post.entries == pre.entries.push(EntryV { abi: descriptor_of(p), source: p }),
    ensures
        post.lookup_spec(pre.entries.len() as int) == Some(
            EntryV { abi: descriptor_of(p), source: p },
        ),
{
}

/// Beyond the built range a lookup answers nothing: probing indices past
/// the last registered one reads no entry.
pub proof fn lemma_lookup_beyond_range(r: RegistryV, i: int)
    requires
        i >= r.entries.len(),
    ensures
        r.lookup_spec(i) is None,
{
}

} // verus!
