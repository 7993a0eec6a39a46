//! The per-camera dimension registry and its cyclic selection.

use vstd::prelude::*;
use vstd::arithmetic::div_mod::{
    lemma_add_mod_noop_right, lemma_mod_add_multiples_vanish, lemma_small_mod,
};
use crate::target::TargetHandle;

verus! {

/// One dimension of the registry: a non-owning reference to the offscreen
/// target its scene pass renders into. Order among entries is significant.
#[derive(Clone, Copy, PartialEq, Eq, Structural, Debug)]
pub struct DimensionEntry {
    pub texture: TargetHandle,
}

/// The ordered list of dimensions attached to the compositing camera,
/// together with the index of the currently selected one. Entries are fixed
/// at scene setup; only `selected` moves afterwards, through
/// [`DimensionRegistry::rotate_next`].
#[derive(Debug)]
pub struct DimensionRegistry {
    pub entries: Vec<DimensionEntry>,
    pub selected: usize,
}

/// The selection after one rotation: one step forward, wrapping modulo the
/// number of entries; unchanged when the registry is empty.
pub open spec fn rotated(selected: int, count: int) -> int {
    if count <= 0 {
        selected
    } else {
        (selected + 1) % count
    }
}

/// The selection after `steps` rotations.
pub open spec fn rotated_times(selected: int, count: int, steps: nat) -> int
    decreases steps,
{
    if steps == 0 {
        selected
    } else {
        rotated(rotated_times(selected, count, (steps - 1) as nat), count)
    }
}

impl DimensionRegistry {
    /// A non-empty registry keeps its selection in range; on an empty one
    /// the selection is meaningless.
    pub open spec fn wf(self) -> bool {
        self.entries@.len() > 0 ==> self.selected < self.entries@.len()
    }

    /// A registry over the given entries, with the first one selected.
    pub fn new(entries: Vec<DimensionEntry>) -> (registry: DimensionRegistry)
        ensures
            registry.entries == entries,
            registry.selected == 0,
            registry.wf(),
    {
        DimensionRegistry { entries, selected: 0 }
    }

    /// How many dimensions the registry holds.
    pub fn len(&self) -> (count: usize)
        ensures
            count == self.entries@.len(),
    {
        self.entries.len()
    }

    /// Runtime check of the registry invariant, for unverified callers that
    /// must guard a call site.
    pub fn is_well_formed(&self) -> (well_formed: bool)
        ensures
            well_formed == self.wf(),
    {
        self.entries.len() == 0 || self.selected < self.entries.len()
    }

    /// The input-triggered "advance selection" handler: moves `selected`
    /// one step forward, wrapping modulo the number of entries. On an empty
    /// registry this is a documented no-op, not an error. Entries are never
    /// touched, so the change costs no reallocation.
    pub fn rotate_next(&mut self)
        requires
            old(self).wf(),
        ensures
            final(self).wf(),
            final(self).entries == old(self).entries,
            final(self).selected == rotated(
                old(self).selected as int,
                old(self).entries@.len() as int,
            ),
            old(self).entries@.len() == 0 ==> final(self).selected == old(self).selected,
            old(self).entries@.len() > 0 ==> final(self).selected == (old(self).selected + 1) % (
            old(self).entries@.len() as int),
    {
        let count = self.entries.len();
        if count == 0 {
            return ;
        }
        self.selected = (self.selected + 1) % count;
    }
}

/// After `steps` rotations the selection sits `steps` places past where it
/// began, modulo the number of entries.
proof fn lemma_rotated_times_is_addition(selected: int, count: int, steps: nat)
    requires
        0 <= selected < count,
    ensures
        rotated_times(selected, count, steps) == (selected + steps) % count,
    decreases steps,
{
    if steps == 0 {
        lemma_small_mod(selected as nat, count as nat);
    } else {
        lemma_rotated_times_is_addition(selected, count, (steps - 1) as nat);
        lemma_add_mod_noop_right(1, selected + steps - 1, count);
    }
}

/// The cyclic invariant of the selection: rotating once per entry brings
/// `selected` back to where it began, for every registry size. An empty
/// registry is covered by [`lemma_rotate_empty_noop`].
pub proof fn lemma_rotate_full_cycle(registry: DimensionRegistry)
    requires
        registry.wf(),
    ensures
        rotated_times(
            registry.selected as int,
            registry.entries@.len() as int,
            registry.entries@.len() as nat,
        ) == registry.selected,
{
    let selected = registry.selected as int;
    let count = registry.entries@.len() as int;
    if count == 0 {
        lemma_rotate_empty_noop(selected, 0);
    } else {
        lemma_rotated_times_is_addition(selected, count, count as nat);
        lemma_mod_add_multiples_vanish(selected, count);
        lemma_small_mod(selected as nat, count as nat);
    }
}

/// On an empty registry any number of rotations changes nothing.
pub proof fn lemma_rotate_empty_noop(selected: int, steps: nat)
    ensures
        rotated_times(selected, 0, steps) == selected,
    decreases steps,
{
    if steps > 0 {
        lemma_rotate_empty_noop(selected, (steps - 1) as nat);
    }
}

} // verus!
