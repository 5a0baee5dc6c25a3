//! Startup of the direct-API renderer: the device checks, the root
//! signature, and the path tracing pipeline state built from its shader.
use vstd::prelude::*;
use crate::layout::{
    check_device_features, create_compute_pso, root_signature_layout_spec, setup_root_signature,
    ComputePipelineState, DeviceFeature, DeviceFeatures,
};
use crate::registry::{compile_shader, ShaderCompileError};

verus! {

/// Text of the path tracing compute shader: one read-write color target
/// at `u0`, written by `8 × 8 × 1` thread groups from entry point
/// `CSMain`.
pub open spec fn path_tracing_source_spec() -> Seq<char> {
    "
    RWTexture2D<float4> output : register(u0);

    [numthreads(8, 8, 1)]
    void CSMain(uint3 dispatchThreadId : SV_DispatchThreadID)
    {
        output[dispatchThreadId.xy] = float4(dispatchThreadId.x & 1, dispatchThreadId.y & 2, dispatchThreadId.x & 4, 1);
    }
    "@
}

/// The path tracing compute shader's text.
pub fn path_tracing_source() -> (r: &'static str)
    ensures
        r@ == path_tracing_source_spec(),
{
    "
    RWTexture2D<float4> output : register(u0);

    [numthreads(8, 8, 1)]
    void CSMain(uint3 dispatchThreadId : SV_DispatchThreadID)
    {
        output[dispatchThreadId.xy] = float4(dispatchThreadId.x & 1, dispatchThreadId.y & 2, dispatchThreadId.x & 4, 1);
    }
    "
}

/// The compiler inputs of the path tracing shader, besides its text.
pub struct ShaderTarget {
    pub name: &'static str,
    pub entry_point: &'static str,
    pub profile: &'static str,
}

/// `PathTracing`, compiled from entry point `CSMain` for profile `cs_6_0`.
pub fn path_tracing_target() -> (r: ShaderTarget)
    ensures
        r.name@ == "PathTracing"@,
        r.entry_point@ == "CSMain"@,
        r.profile@ == "cs_6_0"@,
{
    ShaderTarget { name: "PathTracing", entry_point: "CSMain", profile: "cs_6_0" }
}

/// Why startup stopped; each is fatal.
pub enum StartupError {
    MissingFeature(DeviceFeature),
    ShaderCompile(ShaderCompileError),
}

/// The first feature the device lacks, in the order startup checks them.
pub open spec fn first_missing_feature(
    features: DeviceFeatures,
    version_1_1_supported: bool,
) -> Option<DeviceFeature> {
    if !features.non_uniform_indexing {
        Some(DeviceFeature::NonUniformIndexing)
    } else if !features.push_constants {
        Some(DeviceFeature::PushConstants)
    } else if !version_1_1_supported {
        Some(DeviceFeature::RootSignature11)
    } else {
        None
    }
}

/// Checks the device, builds the root signature, compiles the path
/// tracing shader (`path_tracing_source`, with the name, entry point and
/// profile of `path_tracing_target` and the flags of
/// `debug_compile_args`) and pairs the two into the pipeline state. A
/// missing feature stops startup before anything is compiled. It does not
/// panic as long as the loaded compiler library behaves as
/// `dxc_compile_hlsl` describes.
pub fn startup_pipeline(features: DeviceFeatures, version_1_1_supported: bool) -> (r: Result<
    ComputePipelineState,
    StartupError,
>)
    ensures
        match first_missing_feature(features, version_1_1_supported) {
            Some(f) => (match r {
                Err(StartupError::MissingFeature(g)) => g == f,
                _ => false,
            }),
            None => match r {
                Ok(pso) => pso.root_signature@ == root_signature_layout_spec(),
                Err(StartupError::ShaderCompile(e)) => !e.is_nul_character(),
                Err(StartupError::MissingFeature(_)) => false,
            },
        },
{
    match check_device_features(features) {
        Ok(()) => {},
        Err(f) => {
            return Err(StartupError::MissingFeature(f));
        },
    }
    let root_signature = match setup_root_signature(version_1_1_supported) {
        Ok(l) => l,
        Err(f) => {
            return Err(StartupError::MissingFeature(f));
        },
    };
    let target = path_tracing_target();
    proof {
        reveal_strlit("PathTracing");
        reveal_strlit("CSMain");
        reveal_strlit("cs_6_0");
    }
    match compile_shader(target.name, path_tracing_source(), target.entry_point, target.profile) {
        Ok(bytecode) => Ok(create_compute_pso(root_signature, bytecode)),
        Err(e) => Err(StartupError::ShaderCompile(e)),
    }
}

} // verus!
