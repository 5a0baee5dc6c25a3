//! Pipeline cache: compute pipelines are queued, built on a later tick once
//! their shader's bytecode is ready, and sent back to pending when that
//! bytecode is replaced.
use vstd::prelude::*;
use crate::layout::{BindGroupLayout, BindingSlot};
use crate::registry::{refreshed, RefreshOutcome, ShaderHandle, ShaderRegistry, SpvFile};

verus! {

/// A range of push constant bytes, `start..end`.
#[derive(Clone, Copy, Debug, PartialEq, Eq, Structural)]
pub struct PushConstantRange {
    pub start: u32,
    pub end: u32,
}

/// Everything a compute pipeline is built from.
pub struct ComputePipelineDescriptor {
    pub layout: Vec<BindGroupLayout>,
    pub shader: ShaderHandle,
    pub entry_point: String,
    pub shader_defs: Vec<String>,
    pub push_constant_ranges: Vec<PushConstantRange>,
}

/// A descriptor as a value: two descriptors with equal models share one
/// pipeline.
pub struct DescriptorModel {
    pub layout: Seq<Seq<BindingSlot>>,
    pub shader: ShaderHandle,
    pub entry_point: Seq<char>,
    pub shader_defs: Seq<Seq<char>>,
    pub push_constant_ranges: Seq<PushConstantRange>,
}

impl View for ComputePipelineDescriptor {
    type V = DescriptorModel;

    open spec fn view(&self) -> DescriptorModel {
        DescriptorModel {
            layout: self.layout@.map_values(|l: BindGroupLayout| l@),
            shader: self.shader,
            entry_point: self.entry_point@,
            shader_defs: self.shader_defs@.map_values(|s: String| s@),
            push_constant_ranges: self.push_constant_ranges@,
        }
    }
}

fn same_layouts(a: &Vec<BindGroupLayout>, b: &Vec<BindGroupLayout>) -> (r: bool)
    ensures
        r == (a@.map_values(|l: BindGroupLayout| l@) == b@.map_values(|l: BindGroupLayout| l@)),
{
    if a.len() != b.len() {
        proof {
            assert(a@.map_values(|l: BindGroupLayout| l@).len() != b@.map_values(
                |l: BindGroupLayout| l@,
            ).len());
        }
        return false;
    }
    let mut i: usize = 0;
    while i < a.len()
        invariant
            i <= a.len(),
            a@.len() == b@.len(),
            forall|j: int| 0 <= j < i ==> a@[j]@ == b@[j]@,
        decreases a.len() - i,
    {
        if !a[i].same_as(&b[i]) {
            proof {
                assert(a@.map_values(|l: BindGroupLayout| l@)[i as int] != b@.map_values(
                    |l: BindGroupLayout| l@,
                )[i as int]);
            }
            return false;
        }
        i = i + 1;
    }
    assert(a@.map_values(|l: BindGroupLayout| l@) =~= b@.map_values(|l: BindGroupLayout| l@));
    true
}

fn same_strings(a: &Vec<String>, b: &Vec<String>) -> (r: bool)
    ensures
        r == (a@.map_values(|s: String| s@) == b@.map_values(|s: String| s@)),
{
    if a.len() != b.len() {
        proof {
            assert(a@.map_values(|s: String| s@).len() != b@.map_values(|s: String| s@).len());
        }
        return false;
    }
    let mut i: usize = 0;
    while i < a.len()
        invariant
            i <= a.len(),
            a@.len() == b@.len(),
            forall|j: int| 0 <= j < i ==> a@[j]@ == b@[j]@,
        decreases a.len() - i,
    {
        if a[i] != b[i] {
            proof {
                assert(a@.map_values(|s: String| s@)[i as int] != b@.map_values(|s: String| s@)[i as int]);
            }
            return false;
        }
        i = i + 1;
    }
    assert(a@.map_values(|s: String| s@) =~= b@.map_values(|s: String| s@));
    true
}

fn same_ranges(a: &Vec<PushConstantRange>, b: &Vec<PushConstantRange>) -> (r: bool)
    ensures
        r == (a@ == b@),
{
    if a.len() != b.len() {
        return false;
    }
    let mut i: usize = 0;
    while i < a.len()
        invariant
            i <= a.len(),
            a@.len() == b@.len(),
            forall|j: int| 0 <= j < i ==> a@[j] == b@[j],
        decreases a.len() - i,
    {
        if a[i] != b[i] {
            return false;
        }
        i = i + 1;
    }
    assert(a@ =~= b@);
    true
}

impl ComputePipelineDescriptor {
    /// Structural equality of two descriptors.
    pub fn same_as(&self, other: &ComputePipelineDescriptor) -> (r: bool)
        ensures
            r == (self@ == other@),
    {
        same_layouts(&self.layout, &other.layout) && self.shader == other.shader
            && self.entry_point == other.entry_point && same_strings(
            &self.shader_defs,
            &other.shader_defs,
        ) && same_ranges(&self.push_constant_ranges, &other.push_constant_ranges)
    }
}

/// Identifier the cache returns for a queued descriptor.
#[derive(Clone, Copy, Debug, PartialEq, Eq, Structural)]
pub struct PipelineId {
    pub index: usize,
}

/// Identity of one built pipeline object; each build gets a new one.
#[derive(Clone, Copy, Debug, PartialEq, Eq, Structural)]
pub struct PipelineObject {
    pub id: u64,
}

#[derive(Clone, Copy, Debug, PartialEq, Eq, Structural)]
pub enum PipelineState {
    /// Queued, or sent back after its shader changed; not usable.
    Pending,
    Ready(PipelineObject),
}

struct CacheEntry {
    descriptor: ComputePipelineDescriptor,
    state: PipelineState,
}

pub struct CacheModel {
    pub descriptors: Seq<DescriptorModel>,
    pub states: Seq<PipelineState>,
    /// Identity the next build receives; every earlier one is below it.
    pub next_object: nat,
}

impl CacheModel {
    pub open spec fn len(&self) -> nat {
        self.descriptors.len()
    }

    pub open spec fn wf(&self) -> bool {
        &&& self.states.len() == self.descriptors.len()
        &&& forall|i: int, j: int|
            0 <= i < self.len() && 0 <= j < self.len() && i != j ==> self.descriptors[i]
                != self.descriptors[j]
        &&& forall|i: int|
            0 <= i < self.len() ==> match #[trigger] self.states[i] {
                PipelineState::Ready(o) => (o.id as nat) < self.next_object,
                PipelineState::Pending => true,
            }
    }

    /// The cache after the bytecode of `shader` was replaced: every
    /// pipeline built from it is pending again.
    pub open spec fn invalidated(&self, shader: ShaderHandle) -> CacheModel {
        CacheModel {
            descriptors: self.descriptors,
            states: Seq::new(
                self.states.len(),
                |i: int|
                    if self.descriptors[i].shader == shader {
                        PipelineState::Pending
                    } else {
                        self.states[i]
                    },
            ),
            next_object: self.next_object,
        }
    }

    /// `self` came from `earlier` by building some pending pipelines: ready
    /// ones are untouched and each new build has an identity not handed
    /// out before.
    pub open spec fn built_from(&self, earlier: CacheModel) -> bool {
        &&& self.descriptors == earlier.descriptors
        &&& self.states.len() == earlier.states.len()
        &&& self.next_object >= earlier.next_object
        &&& forall|i: int|
            0 <= i < earlier.states.len() ==> match #[trigger] earlier.states[i] {
                PipelineState::Ready(o) => self.states[i] == PipelineState::Ready(o),
                PipelineState::Pending => match self.states[i] {
                    PipelineState::Ready(o) => o.id as nat >= earlier.next_object,
                    PipelineState::Pending => true,
                },
            }
    }

    /// Pipelines queued in `earlier` are in the same state here.
    pub open spec fn keeps_states_of(&self, earlier: CacheModel) -> bool {
        &&& earlier.len() <= self.len()
        &&& forall|i: int| 0 <= i < earlier.len() ==> self.states[i] == earlier.states[i]
    }
}

/// A pipeline the host must now create on the GPU: `object` names it.
#[derive(Clone, Copy, Debug, PartialEq, Eq, Structural)]
pub struct BuildRequest {
    pub id: PipelineId,
    pub object: PipelineObject,
    pub shader: ShaderHandle,
}

/// Deferred store of compute pipelines.
pub struct PipelineCache {
    entries: Vec<CacheEntry>,
    next_object: u64,
}

impl View for PipelineCache {
    type V = CacheModel;

    closed spec fn view(&self) -> CacheModel {
        CacheModel {
            descriptors: self.entries@.map_values(|e: CacheEntry| e.descriptor@),
            states: self.entries@.map_values(|e: CacheEntry| e.state),
            next_object: self.next_object as nat,
        }
    }
}

impl PipelineCache {
    pub open spec fn wf(&self) -> bool {
        self@.wf()
    }

    pub fn new() -> (r: PipelineCache)
        ensures
            r.wf(),
            r@.len() == 0,
            r@.next_object == 0,
    {
        let r = PipelineCache { entries: Vec::new(), next_object: 0 };
        assert(r@.descriptors =~= Seq::<DescriptorModel>::empty());
        assert(r@.states =~= Seq::<PipelineState>::empty());
        r
    }

    pub fn len(&self) -> (r: usize)
        ensures
            r == self@.len(),
    {
        self.entries.len()
    }

    /// Identity the next build receives.
    pub fn next_object(&self) -> (r: u64)
        ensures
            r as nat == self@.next_object,
    {
        self.next_object
    }

    /// Queues `descriptor` and returns at once. A descriptor structurally
    /// equal to one already queued gets that one's id and no new pipeline.
    pub fn queue_compute(&mut self, descriptor: ComputePipelineDescriptor) -> (r: PipelineId)
        requires
            old(self).wf(),
        ensures
            final(self).wf(),
            r.index < final(self)@.len(),
            final(self)@.descriptors[r.index as int] == descriptor@,
            final(self)@.keeps_states_of(old(self)@),
            final(self)@.next_object == old(self)@.next_object,
            (exists|i: int| 0 <= i < old(self)@.len() && old(self)@.descriptors[i] == descriptor@)
                ==> final(self)@ == old(self)@,
            !(exists|i: int| 0 <= i < old(self)@.len() && old(self)@.descriptors[i] == descriptor@)
                ==> final(self)@.descriptors == old(self)@.descriptors.push(descriptor@)
                && final(self)@.states == old(self)@.states.push(PipelineState::Pending),
    {
        let mut i: usize = 0;
        while i < self.entries.len()
            invariant
                self == old(self),
                self.wf(),
                i <= self.entries.len(),
                forall|j: int| 0 <= j < i ==> self@.descriptors[j] != descriptor@,
            decreases self.entries.len() - i,
        {
            if self.entries[i].descriptor.same_as(&descriptor) {
                assert(self@.descriptors[i as int] == descriptor@);
                return PipelineId { index: i };
            }
            i = i + 1;
        }
        let ghost old_model = self@;
        let index = self.entries.len();
        self.entries.push(CacheEntry { descriptor, state: PipelineState::Pending });
        assert(self@.descriptors =~= old_model.descriptors.push(descriptor@));
        assert(self@.states =~= old_model.states.push(PipelineState::Pending));
        assert forall|a: int| 0 <= a < self@.len() implies match #[trigger] self@.states[a] {
            PipelineState::Ready(o) => (o.id as nat) < self@.next_object,
            PipelineState::Pending => true,
        } by {
            if a < index {
                assert(self@.states[a] == old_model.states[a]);
            }
        }
        PipelineId { index }
    }

    /// The pipeline of `id` when it is ready. It changes only through
    /// `tick` and `shader_replaced`, which run before a frame renders, so
    /// every call during a frame returns the same.
    pub fn get_compute(&self, id: PipelineId) -> (r: Option<PipelineObject>)
        requires
            id.index < self@.len(),
        ensures
            r == (match self@.states[id.index as int] {
                PipelineState::Ready(o) => Some(o),
                PipelineState::Pending => None,
            }),
    {
        match self.entries[id.index].state {
            PipelineState::Ready(o) => Some(o),
            PipelineState::Pending => None,
        }
    }

    fn set_state(&mut self, i: usize, state: PipelineState)
        requires
            i < old(self)@.len(),
            old(self)@.states.len() == old(self)@.descriptors.len(),
        ensures
            final(self)@.descriptors == old(self)@.descriptors,
            final(self)@.states == old(self)@.states.update(i as int, state),
            final(self)@.next_object == old(self)@.next_object,
    {
        let entry = self.entries.remove(i);
        self.entries.insert(i, CacheEntry { descriptor: entry.descriptor, state });
        assert(self@.descriptors =~= old(self)@.descriptors);
        assert(self@.states =~= old(self)@.states.update(i as int, state));
    }

    /// The bytecode of `shader` was replaced: every pipeline built from it
    /// goes back to pending, to be rebuilt on the next tick.
    pub fn shader_replaced(&mut self, shader: ShaderHandle)
        requires
            old(self).wf(),
        ensures
            final(self).wf(),
            final(self)@ == old(self)@.invalidated(shader),
    {
        let mut i: usize = 0;
        while i < self.entries.len()
            invariant
                self.wf(),
                i <= self.entries.len(),
                self@.descriptors == old(self)@.descriptors,
                self@.next_object == old(self)@.next_object,
                self@.states.len() == old(self)@.states.len(),
                forall|j: int|
                    0 <= j < i ==> self@.states[j] == old(self)@.invalidated(shader).states[j],
                forall|j: int|
                    i <= j < self@.len() ==> self@.states[j] == old(self)@.states[j],
            decreases self.entries.len() - i,
        {
            if self.entries[i].descriptor.shader == shader {
                self.set_state(i, PipelineState::Pending);
            }
            i = i + 1;
        }
        assert(self@.states =~= old(self)@.invalidated(shader).states);
    }

    /// Once per frame, before rendering: every pending pipeline whose
    /// shader is ready is built under a new identity, as long as 64-bit
    /// identities remain (a pipeline left without one stays pending). Returns what the host
    /// must create on the GPU, in queue order.
    pub fn tick(&mut self, registry: &ShaderRegistry) -> (r: Vec<BuildRequest>)
        requires
            old(self).wf(),
        ensures
            final(self).wf(),
            final(self)@.built_from(old(self)@),
            forall|i: int|
                0 <= i < old(self)@.len() && old(self)@.states[i] is Pending && (
                final(self)@.states[i] is Ready) ==> registry@.ready(
                    old(self)@.descriptors[i].shader,
                ),
            old(self)@.next_object + old(self)@.len() <= u64::MAX ==> forall|i: int|
                0 <= i < old(self)@.len() ==> (old(self)@.states[i] is Pending && (
                final(self)@.states[i] is Ready) <==> old(self)@.states[i] is Pending
                    && registry@.ready(old(self)@.descriptors[i].shader)),
            forall|k: int|
                0 <= k < r@.len() ==> r@[k].id.index < final(self)@.len() && final(self)@.states[r@[k].id.index as int]
                    == PipelineState::Ready(r@[k].object) && old(self)@.states[r@[k].id.index as int] is Pending
                    && r@[k].shader == final(self)@.descriptors[r@[k].id.index as int].shader,
            forall|i: int|
                0 <= i < old(self)@.len() && old(self)@.states[i] is Pending
                    && final(self)@.states[i] is Ready ==> exists|k: int|
                    0 <= k < r@.len() && r@[k].id.index == i,
    {
        let mut built: Vec<BuildRequest> = Vec::new();
        let mut i: usize = 0;
        while i < self.entries.len()
            invariant
                self.wf(),
                i <= self.entries.len(),
                self@.len() == old(self)@.len(),
                self@.built_from(old(self)@),
                self@.next_object <= old(self)@.next_object + i,
                forall|j: int|
                    i <= j < self@.len() ==> self@.states[j] == old(self)@.states[j],
                forall|j: int|
                    0 <= j < i && old(self)@.states[j] is Pending && (self@.states[j] is Ready)
                        ==> registry@.ready(old(self)@.descriptors[j].shader),
                old(self)@.next_object + old(self)@.len() <= u64::MAX ==> forall|j: int|
                    0 <= j < i ==> (old(self)@.states[j] is Pending && (self@.states[j] is Ready)
                        <==> old(self)@.states[j] is Pending && registry@.ready(
                        old(self)@.descriptors[j].shader,
                    )),
                forall|k: int|
                    0 <= k < built@.len() ==> built@[k].id.index < i && self@.states[built@[k].id.index as int]
                        == PipelineState::Ready(built@[k].object) && old(self)@.states[built@[k].id.index as int] is Pending
                        && built@[k].shader == self@.descriptors[built@[k].id.index as int].shader,
                forall|j: int|
                    0 <= j < i && old(self)@.states[j] is Pending && self@.states[j] is Ready
                        ==> exists|k: int| 0 <= k < built@.len() && built@[k].id.index == j,
            decreases self.entries.len() - i,
        {
            let pending = match self.entries[i].state {
                PipelineState::Pending => true,
                PipelineState::Ready(_) => false,
            };
            let shader = self.entries[i].descriptor.shader;
            let ready = shader.index < registry.len() && registry.bytecode(shader).is_some();
            if pending && ready && self.next_object < u64::MAX {
                let object = PipelineObject { id: self.next_object };
                let ghost before = self@;
                let ghost built_before = built@;
                self.set_state(i, PipelineState::Ready(object));
                self.next_object = self.next_object + 1;
                assert(self@.states == before.states.update(i as int, PipelineState::Ready(object)));
                assert(self@.descriptors == before.descriptors);
                built.push(BuildRequest { id: PipelineId { index: i }, object, shader });
                assert forall|j: int|
                    0 <= j < i + 1 && old(self)@.states[j] is Pending && self@.states[j] is Ready
                        implies exists|k: int|
                        0 <= k < built@.len() && built@[k].id.index == j by {
                    if j == i {
                        assert(built@[built@.len() - 1].id.index == j);
                    } else {
                        let k = choose|k: int|
                            0 <= k < built_before.len() && built_before[k].id.index == j;
                        assert(built@[k] == built_before[k]);
                    }
                }
                assert forall|a: int| 0 <= a < self@.len() implies match #[trigger] self@.states[a] {
                    PipelineState::Ready(o) => (o.id as nat) < self@.next_object,
                    PipelineState::Pending => true,
                } by {
                    if a != i {
                        assert(self@.states[a] == before.states[a]);
                    }
                }
            }
            i = i + 1;
        }
        built
    }
}

/// Brings shader `h` up to date (see `ShaderRegistry::refresh`) and, when
/// the compiler produced new bytecode, sends every pipeline built from it
/// back to pending so the next tick rebuilds it. It does not panic as long
/// as the loaded compiler library behaves as `dxc_compile_hlsl` describes.
pub fn reload_shader(
    registry: &mut ShaderRegistry,
    cache: &mut PipelineCache,
    h: ShaderHandle,
    source: &str,
    source_mtime: u64,
    spv: Option<SpvFile>,
    entry_point: &str,
) -> (r: RefreshOutcome)
    requires
        old(registry).wf(),
        old(cache).wf(),
        h.index < old(registry)@.entries.len(),
    ensures
        final(registry).wf(),
        final(cache).wf(),
        final(registry)@.extends(old(registry)@),
        refreshed(old(registry)@, final(registry)@, h, source_mtime, spv, entry_point@, r),
        r is Compiled ==> final(cache)@ == old(cache)@.invalidated(h),
        !(r is Compiled) ==> final(cache)@ == old(cache)@,
{
    let r = registry.refresh(h, source, source_mtime, spv, entry_point);
    match r {
        RefreshOutcome::Compiled(_) => {
            cache.shader_replaced(h);
        },
        _ => {},
    }
    r
}

/// Readiness does not change within a frame: queueing more pipelines
/// leaves the state of every pipeline already queued as it was, so
/// `get_compute` on such an id answers the same before and after.
pub proof fn lemma_readiness_fixed_within_frame(earlier: CacheModel, later: CacheModel, id: PipelineId)
    requires
        later.keeps_states_of(earlier),
        id.index < earlier.len(),
    ensures
        later.states[id.index as int] == earlier.states[id.index as int],
        (later.states[id.index as int] is Ready) == (earlier.states[id.index as int] is Ready),
{
}

/// A rebuilt pipeline is a new object: when the bytecode of its shader is
/// replaced and the cache ticks again, the pipeline it then holds differs
/// from the one it held before the change.
pub proof fn lemma_rebuilt_pipeline_is_new(
    before: CacheModel,
    rebuilt: CacheModel,
    shader: ShaderHandle,
    id: PipelineId,
    old_object: PipelineObject,
    new_object: PipelineObject,
)
    requires
        before.wf(),
        rebuilt.built_from(before.invalidated(shader)),
        id.index < before.len(),
        before.descriptors[id.index as int].shader == shader,
        before.states[id.index as int] == PipelineState::Ready(old_object),
        rebuilt.states[id.index as int] == PipelineState::Ready(new_object),
    ensures
        old_object != new_object,
{
    let i = id.index as int;
    assert(before.invalidated(shader).states[i] == PipelineState::Pending);
    assert(before.states[i] is Ready);
}

} // verus!
