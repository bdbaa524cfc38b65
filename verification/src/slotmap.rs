//! Generational slot map: resources are stored in numbered slots and named by
//! a `ResourceHandle` carrying the slot index and the generation the slot had
//! when the resource was stored. Slot 0 is never used, so the null handle
//! (index 0) never names anything; a handle whose resource was removed stops
//! resolving.

use vstd::prelude::*;

use crate::types::ResourceHandle;

verus! {

/// A stored resource and the generation it was stored under.
struct Slot<T> {
    item: T,
    generation: u32,
}

/// Slot map of resources of type `T`.
pub struct SlotMap<T> {
    slots: Vec<Option<Slot<T>>>,
    next_generation: u32,
}

/// Slot map holding textures.
pub type TextureSlotMap<T> = SlotMap<T>;

/// A stored mesh: the GPU side of it (`gpu`) and its triangle count.
pub struct MeshSlot<B> {
    pub gpu: B,
    pub triangle_count: usize,
}

/// Slot map holding meshes.
pub type MeshSlotMap<B> = SlotMap<MeshSlot<B>>;

/// The abstract content of a slot map: for each slot, the stored item and its
/// generation, or `None` for a free slot.
pub type SlotsView<T> = Seq<Option<(T, u32)>>;

/// The resource a handle resolves to: the slot's item, when the slot exists,
/// is occupied, and carries the handle's generation.
pub open spec fn spec_find<T>(s: SlotsView<T>, h: ResourceHandle) -> Option<T> {
    if (h.index as int) < s.len() {
        match s[h.index as int] {
            Some(e) => if e.1 == h.generation {
                Some(e.0)
            } else {
                None
            },
            None => None,
        }
    } else {
        None
    }
}

/// The item in slot `index`, whatever its generation.
pub open spec fn spec_find_by_index<T>(s: SlotsView<T>, index: u32) -> Option<T> {
    if (index as int) < s.len() {
        match s[index as int] {
            Some(e) => Some(e.0),
            None => None,
        }
    } else {
        None
    }
}

/// The first free slot at or after `i`, or the length when there is none.
pub open spec fn free_from<T>(s: SlotsView<T>, i: int) -> int
    decreases s.len() - i,
{
    if i >= s.len() {
        s.len() as int
    } else if s[i] is None {
        i
    } else {
        free_from(s, i + 1)
    }
}

/// The slot an insertion uses: the first free slot after slot 0, or a new
/// slot at the end.
pub open spec fn insert_index<T>(s: SlotsView<T>) -> int {
    free_from(s, 1)
}

/// The slots after storing `item` under generation `g`.
pub open spec fn spec_insert<T>(s: SlotsView<T>, item: T, g: u32) -> SlotsView<T> {
    let i = insert_index(s);
    if i < s.len() {
        s.update(i, Some((item, g)))
    } else {
        s.push(Some((item, g)))
    }
}

/// The slots after removing what `h` resolves to (unchanged when it resolves
/// to nothing).
pub open spec fn spec_remove<T>(s: SlotsView<T>, h: ResourceHandle) -> SlotsView<T> {
    if spec_find(s, h) is Some {
        s.update(h.index as int, None)
    } else {
        s
    }
}

/// The generation handed out after `g`: the next number, skipping 0.
pub open spec fn following_generation(g: u32) -> u32 {
    if g == u32::MAX {
        1
    } else {
        (g + 1) as u32
    }
}

/// Shape every slot map keeps: slot 0 exists and is free, the slot count fits
/// in a `usize`, and the next generation is nonzero.
pub open spec fn slots_wf<T>(s: SlotsView<T>, next_gen: u32) -> bool {
    &&& 1 <= s.len() <= usize::MAX
    &&& s[0] is None
    &&& next_gen != 0
}

/// `active` lists, in increasing order, exactly the occupied slots after slot 0.
pub open spec fn lists_active<T>(s: SlotsView<T>, active: Seq<u32>) -> bool {
    &&& forall|k: int| 0 <= k < active.len() ==> 1 <= active[k] < s.len() && s[active[k] as int] is Some
    &&& forall|k1: int, k2: int| 0 <= k1 < k2 < active.len() ==> active[k1] < active[k2]
    &&& forall|i: int| 1 <= i < s.len() && s[i] is Some ==> exists|k: int| 0 <= k < active.len() && active[k] == i
}

impl<T> View for SlotMap<T> {
    type V = SlotsView<T>;

    closed spec fn view(&self) -> SlotsView<T> {
        self.slots@.map_values(
            |s: Option<Slot<T>>|
                match s {
                    Some(e) => Some((e.item, e.generation)),
                    None => None,
                },
        )
    }
}

/// `free_from` finds a free slot (or the end) and skips only occupied slots.
pub proof fn lemma_free_from<T>(s: SlotsView<T>, i: int)
    requires
        0 <= i <= s.len(),
    ensures
        i <= free_from(s, i) <= s.len(),
        free_from(s, i) < s.len() ==> s[free_from(s, i)] is None,
        forall|j: int| i <= j < free_from(s, i) ==> s[j] is Some,
    decreases s.len() - i,
{
    if i < s.len() && s[i] is Some {
        lemma_free_from(s, i + 1);
    }
}

/// A stored resource is found again under the handle its insertion returned.
pub proof fn lemma_insert_then_find<T>(s: SlotsView<T>, item: T, g: u32)
    requires
        slots_wf(s, g),
        s.len() <= u32::MAX,
    ensures
        1 <= insert_index(s) <= s.len(),
        spec_find(
            spec_insert(s, item, g),
            ResourceHandle { index: insert_index(s) as u32, generation: g },
        ) == Some(item),
{
    lemma_free_from(s, 1);
}

/// An insertion changes what no other handle resolves to: every handle that
/// differs from the returned one in index or generation resolves as before.
pub proof fn lemma_insert_keeps_other_handles<T>(s: SlotsView<T>, item: T, g: u32, h: ResourceHandle)
    requires
        slots_wf(s, g),
        s.len() <= u32::MAX,
        h.index as int != insert_index(s) || h.generation != g,
    ensures
        spec_find(spec_insert(s, item, g), h) == spec_find(s, h),
{
    lemma_free_from(s, 1);
}

/// The slot an insertion takes is named by no live handle beforehand.
pub proof fn lemma_insert_slot_was_unused<T>(s: SlotsView<T>, h: ResourceHandle)
    requires
        s.len() >= 1,
        h.index as int == insert_index(s),
    ensures
        spec_find(s, h) is None,
{
    lemma_free_from(s, 1);
}

/// After a removal the removed handle resolves to nothing, and handles of
/// other slots resolve as before.
pub proof fn lemma_remove_then_find<T>(s: SlotsView<T>, h: ResourceHandle, other: ResourceHandle)
    requires
        other.index != h.index,
    ensures
        spec_find(spec_remove(s, h), h) is None,
        spec_find(spec_remove(s, h), other) == spec_find(s, other),
{
}

/// Removing what an insertion just stored gives back the slots from before,
/// except that a slot appended at the end stays, now free.
pub proof fn lemma_remove_undoes_insert<T>(s: SlotsView<T>, item: T, g: u32)
    requires
        slots_wf(s, g),
        s.len() <= u32::MAX,
    ensures
        spec_remove(
            spec_insert(s, item, g),
            ResourceHandle { index: insert_index(s) as u32, generation: g },
        ) == if insert_index(s) < s.len() {
            s
        } else {
            s.push(None)
        },
{
    lemma_free_from(s, 1);
    let h = ResourceHandle { index: insert_index(s) as u32, generation: g };
    if insert_index(s) < s.len() {
        assert(spec_remove(spec_insert(s, item, g), h) =~= s);
    } else {
        assert(spec_remove(spec_insert(s, item, g), h) =~= s.push(None));
    }
}

/// A handle that resolves names the same resource as a lookup by its index.
pub proof fn lemma_find_agrees_with_index<T>(s: SlotsView<T>, h: ResourceHandle)
    requires
        spec_find(s, h) is Some,
    ensures
        spec_find_by_index(s, h.index) == spec_find(s, h),
{
}

/// The null handle, and any handle of slot 0, resolves to nothing.
pub proof fn lemma_null_never_resolves<T>(s: SlotsView<T>, h: ResourceHandle)
    requires
        s.len() >= 1,
        s[0] is None,
        h.index == 0,
    ensures
        spec_find(s, h) is None,
        spec_find_by_index(s, h.index) is None,
{
}

/// Generations handed out are never 0.
pub proof fn lemma_generation_nonzero(g: u32)
    ensures
        following_generation(g) != 0,
{
}

impl<T> SlotMap<T> {
    /// The map keeps its shape: see `slots_wf`.
    pub open spec fn wf(&self) -> bool {
        slots_wf(self@, self.next_gen())
    }

    /// The generation the next insertion will use.
    pub closed spec fn next_gen(&self) -> u32 {
        self.next_generation
    }

    /// Whether the map keeps its shape (see `slots_wf`). Every map made by
    /// `new` and changed only by this type's methods does.
    pub fn is_well_formed(&self) -> (r: bool)
        ensures
            r == self.wf(),
    {
        proof {
            vstd::std_specs::vec::axiom_spec_len(&self.slots);
        }
        self.slots.len() >= 1 && self.slots[0].is_none() && self.next_generation != 0
    }

    /// Number of slots, the reserved slot 0 included.
    pub fn slot_count(&self) -> (n: usize)
        ensures
            n == self@.len(),
    {
        self.slots.len()
    }

    /// An empty map: only the reserved slot 0, next generation 1.
    pub fn new() -> (m: SlotMap<T>)
        ensures
            m@ =~= seq![None],
            m.next_gen() == 1,
            slots_wf(m@, m.next_gen()),
    {
        let mut slots: Vec<Option<Slot<T>>> = Vec::new();
        slots.push(None);
        let m = SlotMap { slots, next_generation: 1 };
        assert(m@ =~= seq![None]);
        m
    }

    /// Store `item`, returning its handle. The item goes into the first free
    /// slot after slot 0, or into a new slot at the end; it is stored under
    /// the current next generation, and the next generation moves on.
    pub fn insert(&mut self, item: T) -> (h: ResourceHandle)
        requires
            old(self).wf(),
            old(self)@.len() <= u32::MAX,
        ensures
            h.index as int == insert_index(old(self)@),
            h.index != 0,
            h.generation == old(self).next_gen(),
            h.generation != 0,
            final(self)@ == spec_insert(old(self)@, item, h.generation),
            final(self).next_gen() == following_generation(old(self).next_gen()),
            slots_wf(final(self)@, final(self).next_gen()),
    {
        proof {
            lemma_free_from(self@, 1);
        }
        let generation = self.next_generation;
        let mut next = self.next_generation.wrapping_add(1);
        if next == 0 {
            next = 1;
        }
        self.next_generation = next;

        let len = self.slots.len();
        let mut i: usize = 1;
        while i < len
            invariant
                1 <= i <= len,
                len == self.slots@.len(),
                len <= u32::MAX + 1,
                self.slots@ == old(self).slots@,
                self.next_generation == following_generation(old(self).next_gen()),
                generation == old(self).next_gen(),
                free_from(old(self)@, 1) == free_from(old(self)@, i as int),
                self@ == old(self)@,
                old(self).wf(),
                self.next_generation != 0,
            decreases len - i,
        {
            if self.slots[i].is_none() {
                proof {
                    assert(old(self)@[i as int] is None);
                }
                self.slots.set(i, Some(Slot { item, generation }));
                proof {
                    assert(self@ =~= spec_insert(old(self)@, item, generation));
                }
                return ResourceHandle { index: i as u32, generation };
            }
            proof {
                assert(old(self)@[i as int] is Some);
            }
            i += 1;
        }
        let index = len as u32;
        self.slots.push(Some(Slot { item, generation }));
        proof {
            vstd::std_specs::vec::axiom_spec_len(&self.slots);
            assert(self@ =~= spec_insert(old(self)@, item, generation));
        }
        ResourceHandle { index, generation }
    }

    /// The resource `handle` names, if its slot is occupied under the
    /// handle's generation.
    pub fn find(&self, handle: ResourceHandle) -> (r: Option<&T>)
        requires
            self.wf(),
        ensures
            match spec_find(self@, handle) {
                Some(t) => r matches Some(x) && *x == t,
                None => r is None,
            },
            r is Some ==> handle.index != 0,
    {
        let idx = handle.index as usize;
        if idx < self.slots.len() {
            match &self.slots[idx] {
                Some(s) => {
                    if s.generation == handle.generation {
                        Some(&s.item)
                    } else {
                        None
                    }
                },
                None => None,
            }
        } else {
            None
        }
    }

    /// The resource in slot `index`, whatever its generation.
    pub fn find_by_index(&self, index: u32) -> (r: Option<&T>)
        requires
            self.wf(),
        ensures
            match spec_find_by_index(self@, index) {
                Some(t) => r matches Some(x) && *x == t,
                None => r is None,
            },
            r is Some ==> index != 0,
    {
        let idx = index as usize;
        if idx < self.slots.len() {
            match &self.slots[idx] {
                Some(s) => Some(&s.item),
                None => None,
            }
        } else {
            None
        }
    }

    /// Remove the resource `handle` names; nothing changes when it names none.
    pub fn remove(&mut self, handle: ResourceHandle)
        requires
            old(self).wf(),
        ensures
            final(self)@ == spec_remove(old(self)@, handle),
            final(self).next_gen() == old(self).next_gen(),
            slots_wf(final(self)@, final(self).next_gen()),
    {
        let idx = handle.index as usize;
        if idx < self.slots.len() {
            let hit = match &self.slots[idx] {
                Some(s) => s.generation == handle.generation,
                None => false,
            };
            if hit {
                self.slots.set(idx, None);
                proof {
                    assert(self@ =~= spec_remove(old(self)@, handle));
                }
            } else {
                proof {
                    assert(self@ =~= spec_remove(old(self)@, handle));
                }
            }
        }
    }

    /// Indices of all occupied slots, in increasing order.
    pub fn active_indices(&self) -> (r: Vec<u32>)
        requires
            self.wf(),
            self@.len() <= u32::MAX + 1,
        ensures
            lists_active(self@, r@),
    {
        let mut out: Vec<u32> = Vec::new();
        let len = self.slots.len();
        let mut i: usize = 1;
        while i < len
            invariant
                1 <= i <= len,
                len == self@.len(),
                len <= u32::MAX + 1,
                forall|k: int| 0 <= k < out@.len() ==> 1 <= out@[k] < i && self@[out@[k] as int] is Some,
                forall|k1: int, k2: int| 0 <= k1 < k2 < out@.len() ==> out@[k1] < out@[k2],
                forall|j: int| 1 <= j < i && self@[j] is Some ==> exists|k: int| 0 <= k < out@.len() && out@[k] == j,
            decreases len - i,
        {
            if self.slots[i].is_some() {
                let ghost before = out@;
                out.push(i as u32);
                proof {
                    assert(out@[out@.len() - 1] == i);
                    assert forall|j: int| 1 <= j < i + 1 && self@[j] is Some implies exists|k: int| 0 <= k < out@.len() && out@[k] == j by {
                        if j < i {
                            let k = choose|k: int| 0 <= k < before.len() && before[k] == j;
                            assert(out@[k] == j);
                        } else {
                            assert(out@[out@.len() - 1] == j);
                        }
                    }
                }
            }
            i += 1;
        }
        out
    }
}

} // verus!
