//! The per-frame composite node: bounded texture bindings, the ping-pong
//! view target, and the skip-or-draw state machine.

use vstd::prelude::*;
use vstd::arithmetic::div_mod::{
    lemma_add_mod_noop_right, lemma_mod_division_less_than_divisor, lemma_mod_sub_multiples_vanish,
    lemma_small_mod,
};
use crate::registry::DimensionRegistry;
use crate::target::{TargetHandle, TargetManager};

verus! {

/// Number of texture slots the full-screen shader binds. It is fixed by the
/// compiled shader contract; changing it means recompiling both sides.
pub const MAX_TEXTURE_COUNT: usize = 2;

/// The texture view bound to slot `slot` of the composite draw: the cyclic
/// read of the registry's entries that starts at `selected` and wraps,
/// repeating entries when there are fewer than slots.
pub open spec fn bound_view(registry: DimensionRegistry, slot: int) -> TargetHandle {
    registry.entries@[(registry.selected + slot) % (registry.entries@.len() as int)].texture
}

/// Every entry of the registry currently resolves to a live target.
pub open spec fn all_entries_resolve(registry: DimensionRegistry, manager: TargetManager) -> bool {
    forall|i: int|
        0 <= i < registry.entries@.len() ==> manager.resolves(
            (#[trigger] registry.entries@[i]).texture,
        )
}

/// The composite node draws this frame exactly when nothing transient is in
/// the way: the pipeline is compiled, the frame globals are bound, and the
/// registry is non-empty with every entry resolvable.
pub open spec fn can_composite(
    registry: DimensionRegistry,
    manager: TargetManager,
    pipeline_ready: bool,
    globals_ready: bool,
) -> bool {
    &&& pipeline_ready
    &&& globals_ready
    &&& registry.entries@.len() > 0
    &&& all_entries_resolve(registry, manager)
}

/// The ephemeral binding set of one composite draw, rebuilt every frame:
/// exactly [`MAX_TEXTURE_COUNT`] resolved texture views, and the sampler of
/// the first registered texture.
pub struct TextureBindingSet {
    pub views: Vec<TargetHandle>,
    pub sampler: TargetHandle,
}

impl TextureBindingSet {
    /// What a well-built binding set holds: slot `i` carries the cyclic
    /// read [`bound_view`]`(registry, i)`, and the sampler comes from the
    /// registry's first entry.
    pub open spec fn resolves_from(self, registry: DimensionRegistry) -> bool {
        &&& self.views@.len() == MAX_TEXTURE_COUNT
        &&& forall|i: int| 0 <= i < MAX_TEXTURE_COUNT ==> #[trigger] self.views@[i] == bound_view(
            registry,
            i,
        )
        &&& self.sampler == registry.entries@[0].texture
    }
}

/// Builds the frame's texture bindings from the registry, or reports the
/// transient skip. `None` comes exactly when the registry is empty or some
/// entry does not resolve; `Some` always carries exactly
/// [`MAX_TEXTURE_COUNT`] views, filled cyclically from `selected` with
/// repetition when the registry is shorter than the slot count.
pub fn resolve_bindings(registry: &DimensionRegistry, manager: &TargetManager) -> (bindings: Option<
    TextureBindingSet,
>)
    requires
        registry.wf(),
    ensures
        bindings is Some <==> registry.entries@.len() > 0 && all_entries_resolve(
            *registry,
            *manager,
        ),
        bindings matches Some(b) ==> b.resolves_from(*registry),
{
    let count = registry.entries.len();
    if count == 0 {
        return None;
    }
    let mut i: usize = 0;
    while i < count
        invariant
            count == registry.entries@.len(),
            i <= count,
            forall|j: int|
                0 <= j < i ==> manager.resolves((#[trigger] registry.entries@[j]).texture),
        decreases count - i,
    {
        if !manager.is_valid(registry.entries[i].texture) {
            return None;
        }
        i += 1;
    }
    let sampler = registry.entries[0].texture;
    let mut views: Vec<TargetHandle> = Vec::new();
    let mut index: usize = registry.selected;
    let mut slot: usize = 0;
    proof {
        lemma_small_mod(registry.selected as nat, count as nat);
    }
    while slot < MAX_TEXTURE_COUNT
        invariant
            count == registry.entries@.len(),
            0 < count,
            registry.selected < count,
            slot <= MAX_TEXTURE_COUNT,
            index < count,
            index == (registry.selected + slot) % (count as int),
            views@.len() == slot,
            forall|j: int| 0 <= j < slot ==> #[trigger] views@[j] == bound_view(*registry, j),
        decreases MAX_TEXTURE_COUNT - slot,
    {
        views.push(registry.entries[index].texture);
        proof {
            lemma_add_mod_noop_right(1, registry.selected + slot, count as int);
            lemma_mod_division_less_than_divisor(registry.selected + slot + 1, count as int);
        }
        index = (index + 1) % count;
        slot += 1;
    }
    Some(TextureBindingSet { views, sampler })
}

/// When the registry holds at least [`MAX_TEXTURE_COUNT`] pairwise distinct
/// textures, the bound views are a cyclic window with no duplicate slot.
/// (With fewer entries than slots, repetition is the defined fallback and
/// duplicates are intended.)
pub proof fn lemma_bound_views_distinct(registry: DimensionRegistry)
    requires
        registry.wf(),
        registry.entries@.len() >= MAX_TEXTURE_COUNT,
        forall|i: int, j: int|
            0 <= i < j < registry.entries@.len() ==> (#[trigger] registry.entries@[i]).texture != (
            #[trigger] registry.entries@[j]).texture,
    ensures
        forall|i: int, j: int|
            0 <= i < j < MAX_TEXTURE_COUNT ==> bound_view(registry, i) != bound_view(registry, j),
{
    let count = registry.entries@.len() as int;
    let selected = registry.selected as int;
    assert forall|i: int, j: int|
        0 <= i < j < MAX_TEXTURE_COUNT implies bound_view(registry, i) != bound_view(
        registry,
        j,
    ) by {
        let a = (selected + i) % count;
        let b = (selected + j) % count;
        lemma_wrapped_index(selected, i, count);
        lemma_wrapped_index(selected, j, count);
        assert(a != b) by {
            if selected + i < count && selected + j < count {
                assert(a == selected + i && b == selected + j);
            } else if selected + i >= count && selected + j >= count {
                assert(a == selected + i - count && b == selected + j - count);
            } else {
                assert(selected + i < count <= selected + j);
                assert(a == selected + i && b == selected + j - count);
                assert(b - a == j - i - count < 0);
                assert(0 <= b < count && 0 <= a < count);
            }
        }
        if a < b {
            assert(registry.entries@[a].texture != registry.entries@[b].texture);
        } else {
            assert(registry.entries@[b].texture != registry.entries@[a].texture);
        }
    }
}

/// A cyclic index that wraps at most once lands either on itself or one
/// whole cycle back.
proof fn lemma_wrapped_index(selected: int, offset: int, count: int)
    requires
        0 < count,
        0 <= selected < count,
        0 <= offset <= count,
    ensures
        selected + offset < count ==> (selected + offset) % count == selected + offset,
        selected + offset >= count ==> (selected + offset) % count == selected + offset - count,
{
    if selected + offset < count {
        lemma_small_mod((selected + offset) as nat, count as nat);
    } else {
        lemma_mod_sub_multiples_vanish(selected + offset, count);
        lemma_small_mod((selected + offset - count) as nat, count as nat);
    }
}

/// What one slot of the compiled shader's bind group holds.
#[derive(Clone, Copy, PartialEq, Eq, Structural, Debug)]
pub enum BindingKind {
    /// The read-only frame-global uniform buffer (time and similar).
    GlobalsUniform,
    /// A fixed-size array of 2D float-sampled textures.
    TextureArray { count: usize },
    /// One filtering sampler.
    FilteringSampler,
}

/// One slot of the shader's binding contract: its binding index and what
/// stands behind it.
#[derive(Clone, Copy, PartialEq, Eq, Structural, Debug)]
pub struct BindingSlot {
    pub binding: u32,
    pub kind: BindingKind,
}

/// The binding contract the compiled full-screen program is built against:
/// binding 0 the frame globals, binding 1 a texture array of exactly
/// [`MAX_TEXTURE_COUNT`] entries (never left partially bound), binding 2
/// one filtering sampler. The vertex stage generates the full-screen
/// triangle itself and needs no vertex buffer.
pub fn pipeline_binding_layout() -> (layout: Vec<BindingSlot>)
    ensures
        layout@.len() == 3,
        layout@[0] == (BindingSlot { binding: 0, kind: BindingKind::GlobalsUniform }),
        layout@[1] == (BindingSlot {
            binding: 1,
            kind: BindingKind::TextureArray { count: MAX_TEXTURE_COUNT },
        }),
        layout@[2] == (BindingSlot { binding: 2, kind: BindingKind::FilteringSampler }),
{
    let mut layout: Vec<BindingSlot> = Vec::new();
    layout.push(BindingSlot { binding: 0, kind: BindingKind::GlobalsUniform });
    layout.push(BindingSlot { binding: 1, kind: BindingKind::TextureArray { count: MAX_TEXTURE_COUNT } });
    layout.push(BindingSlot { binding: 2, kind: BindingKind::FilteringSampler });
    layout
}

/// One of the two physical colour buffers the view's post-processing chain
/// alternates between from frame to frame.
#[derive(Clone, Copy, PartialEq, Eq, Structural, Debug)]
pub enum PingPongBuffer {
    First,
    Second,
}

/// The buffer that is not the given one.
pub open spec fn other_buffer(buffer: PingPongBuffer) -> PingPongBuffer {
    match buffer {
        PingPongBuffer::First => PingPongBuffer::Second,
        PingPongBuffer::Second => PingPongBuffer::First,
    }
}

/// The source/destination pair a pass obtains for one frame: it must write
/// `destination`; `source` holds the main texture as it stood before.
#[derive(Clone, Copy, PartialEq, Eq, Structural, Debug)]
pub struct PostProcessWrite {
    pub source: PingPongBuffer,
    pub destination: PingPongBuffer,
}

/// The ping-pong state of the view's render target: which physical buffer
/// currently holds the main texture.
#[derive(Clone, Copy, PartialEq, Eq, Structural, Debug)]
pub struct ViewTarget {
    pub main: PingPongBuffer,
}

impl ViewTarget {
    /// A fresh view target, with the first buffer as the main texture.
    pub fn new() -> (target: ViewTarget)
        ensures
            target.main == PingPongBuffer::First,
    {
        ViewTarget { main: PingPongBuffer::First }
    }

    /// Acquires this frame's source/destination pair and performs the swap
    /// bookkeeping: the destination becomes the next frame's main texture.
    /// Because the destination's identity alternates across frames, any
    /// binding built against it must be rebuilt every frame, never cached.
    pub fn post_process_write(&mut self) -> (write: PostProcessWrite)
        ensures
            write.source == old(self).main,
            write.destination == other_buffer(old(self).main),
            write.source != write.destination,
            final(self).main == write.destination,
    {
        let destination = match self.main {
            PingPongBuffer::First => PingPongBuffer::Second,
            PingPongBuffer::Second => PingPongBuffer::First,
        };
        let write = PostProcessWrite { source: self.main, destination };
        self.main = destination;
        write
    }
}

/// The draw the composite node issues when it runs: a non-indexed
/// full-screen triangle, one instance.
#[derive(Clone, Copy, PartialEq, Eq, Structural, Debug)]
pub struct DrawCall {
    pub vertex_count: u32,
    pub instance_count: u32,
}

/// The two operational states of the composite node for one frame. There
/// are no others, and nothing is remembered across frames.
pub enum CompositeOutcome {
    /// A transient precondition was unmet; the frame's composite draw is
    /// dropped silently and the next frame retries from scratch.
    Skipped,
    /// The full sequence ran: bindings resolved, pair acquired, one draw
    /// encoded into `destination`.
    Drawn { bindings: TextureBindingSet, destination: PingPongBuffer, draw: DrawCall },
}

impl CompositeOutcome {
    /// How many draw calls the frame performed.
    pub open spec fn draw_calls(self) -> nat {
        match self {
            CompositeOutcome::Skipped => 0,
            CompositeOutcome::Drawn { .. } => 1,
        }
    }
}

/// One frame of the composite node, reading the registry anew as every
/// frame must. If the pipeline or the frame globals are not ready, or the
/// bindings do not resolve, the frame is skipped without error and the view
/// target is left alone. Otherwise the node acquires the frame's ping-pong
/// pair and issues exactly one full-screen-triangle draw into its
/// destination, with a binding set rebuilt for this frame.
pub fn composite_frame(
    registry: &DimensionRegistry,
    manager: &TargetManager,
    pipeline_ready: bool,
    globals_ready: bool,
    view_target: &mut ViewTarget,
) -> (outcome: CompositeOutcome)
    requires
        registry.wf(),
    ensures
        outcome is Drawn <==> can_composite(*registry, *manager, pipeline_ready, globals_ready),
        outcome is Skipped ==> *final(view_target) == *old(view_target),
        outcome is Skipped ==> outcome.draw_calls() == 0,
        outcome matches CompositeOutcome::Drawn { bindings, destination, draw } ==> ({
            &&& bindings.resolves_from(*registry)
            &&& destination == other_buffer(old(view_target).main)
            &&& final(view_target).main == destination
            &&& draw == (DrawCall { vertex_count: 3, instance_count: 1 })
            &&& outcome.draw_calls() == 1
        }),
{
    if !pipeline_ready || !globals_ready {
        return CompositeOutcome::Skipped;
    }
    match resolve_bindings(registry, manager) {
        None => CompositeOutcome::Skipped,
        Some(bindings) => {
            let write = view_target.post_process_write();
            CompositeOutcome::Drawn {
                bindings,
                destination: write.destination,
                draw: DrawCall { vertex_count: 3, instance_count: 1 },
            }
        },
    }
}

} // verus!
