//! The offscreen target arena: allocation and the resize lifecycle.

use vstd::prelude::*;

verus! {

/// A GPU-backed two-dimensional colour texture used as a render destination
/// instead of the visible surface. The model keeps what the compositing
/// logic reads of it: its size. Every target is allocated with the one
/// swap-chain-compatible colour format and with the sampled, copy and
/// render-attachment usages, so the model need not distinguish them.
#[derive(Clone, Copy, PartialEq, Eq, Structural, Debug)]
pub struct OffscreenTarget {
    pub width: u32,
    pub height: u32,
}

impl OffscreenTarget {
    /// A live target is positive in both dimensions.
    pub open spec fn valid(self) -> bool {
        self.width > 0 && self.height > 0
    }
}

/// Stable identity of one target in the arena. Holders (registry entries,
/// scene passes) keep the handle across reallocation: a resize replaces the
/// backing storage under the same index, never the index itself.
#[derive(Clone, Copy, PartialEq, Eq, Structural, Debug)]
pub struct TargetHandle {
    pub index: usize,
}

/// The arena that exclusively owns every offscreen target's storage.
/// Everything else holds non-owning [`TargetHandle`]s into it.
#[derive(Debug)]
pub struct TargetManager {
    targets: Vec<OffscreenTarget>,
}

impl View for TargetManager {
    type V = Seq<OffscreenTarget>;

    closed spec fn view(&self) -> Seq<OffscreenTarget> {
        self.targets@
    }
}

/// The arena after one resize request: a degenerate size or a stale handle
/// leaves it untouched; otherwise the addressed target's storage is replaced
/// in place with the new size.
pub open spec fn resized(
    targets: Seq<OffscreenTarget>,
    index: int,
    width: u32,
    height: u32,
) -> Seq<OffscreenTarget> {
    if width == 0 || height == 0 || index < 0 || index >= targets.len() {
        targets
    } else {
        targets.update(index, OffscreenTarget { width, height })
    }
}

/// The arena after a whole-window resize: a degenerate size leaves it
/// untouched; otherwise every target is reallocated to the new size.
pub open spec fn resized_all(
    targets: Seq<OffscreenTarget>,
    width: u32,
    height: u32,
) -> Seq<OffscreenTarget> {
    if width == 0 || height == 0 {
        targets
    } else {
        Seq::new(targets.len(), |i: int| OffscreenTarget { width, height })
    }
}

impl TargetManager {
    /// Every target in the arena is live.
    pub open spec fn wf(self) -> bool {
        forall|i: int| 0 <= i < self@.len() ==> (#[trigger] self@[i]).valid()
    }

    /// A handle resolves while it addresses a slot of the arena.
    pub open spec fn resolves(self, handle: TargetHandle) -> bool {
        handle.index < self@.len()
    }

    /// An empty arena, filled during scene setup.
    pub fn new() -> (manager: TargetManager)
        ensures
            manager@ == Seq::<OffscreenTarget>::empty(),
            manager.wf(),
    {
        TargetManager { targets: Vec::new() }
    }

    /// Allocates one offscreen target of the given size and returns its
    /// stable handle, the index of the new slot.
    pub fn allocate(&mut self, width: u32, height: u32) -> (handle: TargetHandle)
        requires
            old(self).wf(),
            width > 0,
            height > 0,
        ensures
            final(self).wf(),
            final(self)@ == old(self)@.push(OffscreenTarget { width, height }),
            handle.index == old(self)@.len(),
            final(self).resolves(handle),
    {
        let handle = TargetHandle { index: self.targets.len() };
        self.targets.push(OffscreenTarget { width, height });
        proof {
            assert forall|i: int| 0 <= i < self@.len() implies (#[trigger] self@[i]).valid() by {
                if i < old(self)@.len() {
                    assert(old(self)@[i].valid());
                }
            }
        }
        handle
    }

    /// How many targets the arena holds.
    pub fn len(&self) -> (n: usize)
        ensures
            n == self@.len(),
    {
        self.targets.len()
    }

    /// Whether the handle currently resolves to a target.
    pub fn is_valid(&self, handle: TargetHandle) -> (resolves: bool)
        ensures
            resolves == self.resolves(handle),
    {
        handle.index < self.targets.len()
    }

    /// The current size behind a handle, or `None` for a stale handle.
    pub fn size_of(&self, handle: TargetHandle) -> (size: Option<(u32, u32)>)
        ensures
            size is Some <==> self.resolves(handle),
            self.resolves(handle) ==> size == Some::<(u32, u32)>((
                self@[handle.index as int].width,
                self@[handle.index as int].height,
            )),
    {
        if handle.index < self.targets.len() {
            let t = self.targets[handle.index];
            Some((t.width, t.height))
        } else {
            None
        }
    }

    /// Runtime check of the arena invariant, for unverified callers that
    /// must guard a call site.
    pub fn is_well_formed(&self) -> (well_formed: bool)
        ensures
            well_formed == self.wf(),
    {
        let n = self.targets.len();
        let mut i: usize = 0;
        while i < n
            invariant
                n == self@.len(),
                i <= n,
                forall|j: int| 0 <= j < i ==> (#[trigger] self@[j]).valid(),
            decreases n - i,
        {
            let t = self.targets[i];
            if t.width == 0 || t.height == 0 {
                return false;
            }
            i += 1;
        }
        true
    }

    /// Replaces the backing storage of one target in place, preserving the
    /// handle, so every holder stays valid without re-registration. A zero
    /// dimension or a stale handle makes the call a silent no-op, never an
    /// error: callers in degenerate window states must not crash.
    pub fn resize(&mut self, handle: TargetHandle, width: u32, height: u32)
        requires
            old(self).wf(),
        ensures
            final(self).wf(),
            final(self)@ == resized(old(self)@, handle.index as int, width, height),
            width == 0 || height == 0 ==> final(self)@ == old(self)@,
            final(self)@.len() == old(self)@.len(),
    {
        if width == 0 || height == 0 {
            return ;
        }
        if handle.index < self.targets.len() {
            self.targets.set(handle.index, OffscreenTarget { width, height });
            proof {
                assert forall|i: int| 0 <= i < self@.len() implies (#[trigger] self@[i]).valid() by {
                    if i != handle.index {
                        assert(old(self)@[i].valid());
                    }
                }
            }
        }
    }

    /// The resize coordinator's per-event handler: reallocates every
    /// registered target to the new window size, keeping all handles
    /// stable. A zero-area event is deferred as a whole-arena no-op.
    pub fn resize_all(&mut self, width: u32, height: u32)
        requires
            old(self).wf(),
        ensures
            final(self).wf(),
            final(self)@ == resized_all(old(self)@, width, height),
            width == 0 || height == 0 ==> final(self)@ == old(self)@,
            final(self)@.len() == old(self)@.len(),
            width > 0 && height > 0 ==> forall|i: int|
                0 <= i < final(self)@.len() ==> final(self)@[i] == (OffscreenTarget {
                    width,
                    height,
                }),
    {
        if width == 0 || height == 0 {
            return ;
        }
        let n = self.targets.len();
        let mut i: usize = 0;
        while i < n
            invariant
                self.wf(),
                n == self@.len(),
                i <= n,
                width > 0,
                height > 0,
                forall|j: int| 0 <= j < i ==> self@[j] == (OffscreenTarget { width, height }),
                forall|j: int| i <= j < n ==> self@[j] == old(self)@[j],
            decreases n - i,
        {
            self.resize(TargetHandle { index: i }, width, height);
            i += 1;
        }
        proof {
            assert(self@ =~= resized_all(old(self)@, width, height));
        }
    }
}

/// Resize is idempotent: requesting the same size twice in a row leaves the
/// arena exactly where one request left it, for every size (degenerate ones
/// included) and every handle (stale ones included).
pub proof fn lemma_resize_idempotent(
    targets: Seq<OffscreenTarget>,
    index: int,
    width: u32,
    height: u32,
)
    ensures
        resized(resized(targets, index, width, height), index, width, height) == resized(
            targets,
            index,
            width,
            height,
        ),
{
    assert(resized(resized(targets, index, width, height), index, width, height) =~= resized(
        targets,
        index,
        width,
        height,
    ));
}

/// The whole-window resize handler is idempotent: a repeated identical
/// resize event leaves every target exactly where the first event left it.
pub proof fn lemma_resize_all_idempotent(targets: Seq<OffscreenTarget>, width: u32, height: u32)
    ensures
        resized_all(resized_all(targets, width, height), width, height) == resized_all(
            targets,
            width,
            height,
        ),
{
    assert(resized_all(resized_all(targets, width, height), width, height) =~= resized_all(
        targets,
        width,
        height,
    ));
}

} // verus!
