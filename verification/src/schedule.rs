//! The frame schedule: scene passes write their targets strictly before
//! the composite pass samples them.

use vstd::prelude::*;
use crate::registry::DimensionRegistry;
use crate::target::TargetHandle;

verus! {

/// One scene render pass: it clears and redraws exactly one offscreen
/// target each frame, at its place in the frame's pass order.
#[derive(Clone, Copy, PartialEq, Eq, Structural, Debug)]
pub struct ScenePass {
    pub target: TargetHandle,
    pub order: i32,
}

/// No two scene passes write the same target: each offscreen target has a
/// single writer per frame.
pub open spec fn writers_are_exclusive(passes: Seq<ScenePass>) -> bool {
    forall|i: int, j: int|
        0 <= i < j < passes.len() ==> (#[trigger] passes[i]).target != (#[trigger] passes[j]).target
}

/// Every scene pass runs strictly before the composite pass, so each
/// sampled target is fully written when the composite draw reads it.
pub open spec fn all_passes_precede(passes: Seq<ScenePass>, composite_order: int) -> bool {
    forall|i: int| 0 <= i < passes.len() ==> (#[trigger] passes[i]).order < composite_order
}

/// Some scene pass writes the given target this frame.
pub open spec fn target_is_written(passes: Seq<ScenePass>, handle: TargetHandle) -> bool {
    exists|j: int| 0 <= j < passes.len() && (#[trigger] passes[j]).target == handle
}

/// Every dimension the registry references has a scene pass writing its
/// target this frame.
pub open spec fn passes_cover_registry(passes: Seq<ScenePass>, registry: DimensionRegistry) -> bool {
    forall|i: int|
        0 <= i < registry.entries@.len() ==> target_is_written(
            passes,
            (#[trigger] registry.entries@[i]).texture,
        )
}

/// A frame schedule is valid when targets have exclusive writers, every
/// scene pass precedes the composite pass, and every registered dimension
/// is written. Together with exclusivity, coverage gives each registered
/// target exactly one writer.
pub open spec fn schedule_valid(
    passes: Seq<ScenePass>,
    registry: DimensionRegistry,
    composite_order: int,
) -> bool {
    &&& writers_are_exclusive(passes)
    &&& all_passes_precede(passes, composite_order)
    &&& passes_cover_registry(passes, registry)
}

/// Checks the frame schedule once, at setup, the way the host scheduler's
/// ordering edges are declared once: exclusive writers, strict ordering
/// before the composite pass, and coverage of every registered dimension.
pub fn validate_schedule(
    passes: &Vec<ScenePass>,
    registry: &DimensionRegistry,
    composite_order: i32,
) -> (valid: bool)
    ensures
        valid == schedule_valid(passes@, *registry, composite_order as int),
{
    let pass_count = passes.len();
    let mut i: usize = 0;
    while i < pass_count
        invariant
            pass_count == passes@.len(),
            i <= pass_count,
            forall|a: int, b: int|
                0 <= a < b < i ==> (#[trigger] passes@[a]).target != (#[trigger] passes@[b]).target,
            forall|a: int| 0 <= a < i ==> (#[trigger] passes@[a]).order < composite_order,
        decreases pass_count - i,
    {
        if passes[i].order >= composite_order {
            return false;
        }
        let mut j: usize = 0;
        while j < i
            invariant
                pass_count == passes@.len(),
                j <= i < pass_count,
                forall|b: int| 0 <= b < j ==> (#[trigger] passes@[b]).target != passes@[i as int].target,
            decreases i - j,
        {
            if passes[j].target == passes[i].target {
                return false;
            }
            j += 1;
        }
        i += 1;
    }
    let entry_count = registry.entries.len();
    let mut i: usize = 0;
    while i < entry_count
        invariant
            pass_count == passes@.len(),
            entry_count == registry.entries@.len(),
            i <= entry_count,
            forall|a: int|
                0 <= a < i ==> target_is_written(passes@, (#[trigger] registry.entries@[a]).texture),
        decreases entry_count - i,
    {
        let wanted = registry.entries[i].texture;
        let mut j: usize = 0;
        let mut found = false;
        while j < pass_count
            invariant
                pass_count == passes@.len(),
                j <= pass_count,
                found ==> target_is_written(passes@, wanted),
                !found ==> forall|k: int| 0 <= k < j ==> (#[trigger] passes@[k]).target != wanted,
            decreases pass_count - j,
        {
            if passes[j].target == wanted {
                found = true;
            }
            j += 1;
        }
        if !found {
            return false;
        }
        i += 1;
    }
    true
}

} // verus!
