//! Bind group layouts, the device features the compute pass requires, and
//! the layouts of the path tracer's passes.
use vstd::prelude::*;

verus! {

/// What a binding slot holds.
#[derive(Clone, Copy, Debug, PartialEq, Eq, Structural)]
pub enum BindingKind {
    ReadOnlyStorageImage,
    WriteOnlyStorageImage,
    ReadWriteStorageImage,
    UniformBuffer,
    Sampler,
}

/// Texel formats of the images the passes bind.
#[derive(Clone, Copy, Debug, PartialEq, Eq, Structural)]
pub enum TextureFormat {
    /// One 32-bit float channel.
    R32Float,
    /// Four 16-bit float channels.
    Rgba16Float,
}

/// Shader stages that see a binding.
#[derive(Clone, Copy, Debug, PartialEq, Eq, Structural)]
pub enum ShaderVisibility {
    Compute,
    All,
}

/// One slot of a bind group layout.
#[derive(Clone, Copy, Debug, PartialEq, Eq, Structural)]
pub struct BindingSlot {
    pub kind: BindingKind,
    pub format: Option<TextureFormat>,
    pub visibility: ShaderVisibility,
}

/// Ordered binding slots; slot `i` is binding `i`.
pub struct BindGroupLayout {
    pub slots: Vec<BindingSlot>,
}

impl View for BindGroupLayout {
    type V = Seq<BindingSlot>;

    open spec fn view(&self) -> Seq<BindingSlot> {
        self.slots@
    }
}

impl BindGroupLayout {
    /// Structural equality of two layouts.
    pub fn same_as(&self, other: &BindGroupLayout) -> (r: bool)
        ensures
            r == (self@ == other@),
    {
        if self.slots.len() != other.slots.len() {
            return false;
        }
        let mut i: usize = 0;
        while i < self.slots.len()
            invariant
                i <= self.slots.len(),
                self.slots@.len() == other.slots@.len(),
                forall|j: int| 0 <= j < i ==> self.slots@[j] == other.slots@[j],
            decreases self.slots.len() - i,
        {
            if self.slots[i] != other.slots[i] {
                return false;
            }
            i = i + 1;
        }
        assert(self@ =~= other@);
        true
    }
}

pub open spec fn storage_slot(kind: BindingKind, format: TextureFormat) -> BindingSlot {
    BindingSlot { kind, format: Some(format), visibility: ShaderVisibility::Compute }
}

/// Layout of the ping-pong pass: binding 0 is read from, binding 1 written.
pub open spec fn ping_pong_layout_spec() -> Seq<BindingSlot> {
    seq![
        storage_slot(BindingKind::ReadOnlyStorageImage, TextureFormat::R32Float),
        storage_slot(BindingKind::WriteOnlyStorageImage, TextureFormat::R32Float),
    ]
}

/// Layout of the single-target pass: one read-write color image.
pub open spec fn color_target_layout_spec() -> Seq<BindingSlot> {
    seq![storage_slot(BindingKind::ReadWriteStorageImage, TextureFormat::Rgba16Float)]
}

/// Layout of the direct-API pass: one read-write image seen by all stages.
pub open spec fn root_signature_layout_spec() -> Seq<BindingSlot> {
    seq![
        BindingSlot {
            kind: BindingKind::ReadWriteStorageImage,
            format: None,
            visibility: ShaderVisibility::All,
        },
    ]
}

/// The ping-pong pass's layout: a read-only and a write-only
/// single-channel float image, both visible to compute.
pub fn ping_pong_layout() -> (r: BindGroupLayout)
    ensures
        r@ == ping_pong_layout_spec(),
{
    let slots = vec![
        BindingSlot {
            kind: BindingKind::ReadOnlyStorageImage,
            format: Some(TextureFormat::R32Float),
            visibility: ShaderVisibility::Compute,
        },
        BindingSlot {
            kind: BindingKind::WriteOnlyStorageImage,
            format: Some(TextureFormat::R32Float),
            visibility: ShaderVisibility::Compute,
        },
    ];
    assert(slots@ =~= ping_pong_layout_spec());
    BindGroupLayout { slots }
}

/// The single-target pass's layout: one read-write four-channel half-float
/// image, visible to compute.
pub fn color_target_layout() -> (r: BindGroupLayout)
    ensures
        r@ == color_target_layout_spec(),
{
    let slots = vec![
        BindingSlot {
            kind: BindingKind::ReadWriteStorageImage,
            format: Some(TextureFormat::Rgba16Float),
            visibility: ShaderVisibility::Compute,
        },
    ];
    assert(slots@ =~= color_target_layout_spec());
    BindGroupLayout { slots }
}

/// A compute pipeline state of the direct-API pass: its root signature's
/// layout and the compute shader's bytecode.
pub struct ComputePipelineState {
    pub root_signature: BindGroupLayout,
    pub compute_shader: Vec<u8>,
}

/// Pairs a root signature with compute bytecode into the description the
/// device turns into a pipeline state object.
pub fn create_compute_pso(root_signature: BindGroupLayout, compute_shader: Vec<u8>) -> (r:
    ComputePipelineState)
    ensures
        r.root_signature@ == root_signature@,
        r.compute_shader@ == compute_shader@,
{
    ComputePipelineState { root_signature, compute_shader }
}

/// A device capability that startup checks for.
#[derive(Clone, Copy, Debug, PartialEq, Eq, Structural)]
pub enum DeviceFeature {
    /// Non-uniform indexing of sampled texture and storage buffer arrays.
    NonUniformIndexing,
    PushConstants,
    /// Version 1.1 of root signature serialization.
    RootSignature11,
}

impl DeviceFeature {
    pub open spec fn name_spec(self) -> Seq<char> {
        match self {
            DeviceFeature::NonUniformIndexing => "SAMPLED_TEXTURE_AND_STORAGE_BUFFER_ARRAY_NON_UNIFORM_INDEXING"@,
            DeviceFeature::PushConstants => "PUSH_CONSTANTS"@,
            DeviceFeature::RootSignature11 => "ROOT_SIGNATURE_1_1"@,
        }
    }

    /// The name a startup diagnostic gives the feature.
    pub fn name(self) -> (r: &'static str)
        ensures
            r@ == self.name_spec(),
    {
        match self {
            DeviceFeature::NonUniformIndexing => "SAMPLED_TEXTURE_AND_STORAGE_BUFFER_ARRAY_NON_UNIFORM_INDEXING",
            DeviceFeature::PushConstants => "PUSH_CONSTANTS",
            DeviceFeature::RootSignature11 => "ROOT_SIGNATURE_1_1",
        }
    }
}

/// What the device reports it supports.
#[derive(Clone, Copy, Debug, PartialEq, Eq, Structural)]
pub struct DeviceFeatures {
    pub non_uniform_indexing: bool,
    pub push_constants: bool,
}

/// Startup check of the features the passes need; the first missing one,
/// in the order non-uniform indexing then push constants, is reported.
pub fn check_device_features(features: DeviceFeatures) -> (r: Result<(), DeviceFeature>)
    ensures
        r == (if !features.non_uniform_indexing {
            Err(DeviceFeature::NonUniformIndexing)
        } else if !features.push_constants {
            Err(DeviceFeature::PushConstants)
        } else {
            Ok(())
        }),
{
    if !features.non_uniform_indexing {
        Err(DeviceFeature::NonUniformIndexing)
    } else if !features.push_constants {
        Err(DeviceFeature::PushConstants)
    } else {
        Ok(())
    }
}

/// The direct-API pass's root signature: one descriptor table holding one
/// read-write image, visible to all stages. It is serialized as version
/// 1.1, so a device without that version is refused.
pub fn setup_root_signature(version_1_1_supported: bool) -> (r: Result<
    BindGroupLayout,
    DeviceFeature,
>)
    ensures
        version_1_1_supported <==> r is Ok,
        match r {
            Ok(l) => l@ == root_signature_layout_spec(),
            Err(f) => f == DeviceFeature::RootSignature11,
        },
{
    if !version_1_1_supported {
        return Err(DeviceFeature::RootSignature11);
    }
    let slots = vec![
        BindingSlot {
            kind: BindingKind::ReadWriteStorageImage,
            format: None,
            visibility: ShaderVisibility::All,
        },
    ];
    assert(slots@ =~= root_signature_layout_spec());
    Ok(BindGroupLayout { slots })
}

} // verus!
