use modern_renderer::registry::{
    compile_hlsl, compile_shader, debug_compile_args, needs_compile, spirv_compile_args,
    spv_cache_path, spv_file_name, RefreshOutcome, ShaderCompileError, ShaderRegistry, SpvFile,
};
use modern_renderer::startup::{path_tracing_source, path_tracing_target, startup_pipeline, StartupError};
use modern_renderer::layout::{DeviceFeature, DeviceFeatures};
use modern_renderer::text::{contains_nul, same_path};

#[test]
fn same_key_returns_same_handle() {
    let mut reg = ShaderRegistry::new(false);
    let a = reg.load("shaders/path_tracer_entry.hlsl", "cs_6_5");
    let b = reg.load("shaders/other.hlsl", "cs_6_5");
    let c = reg.load("shaders/path_tracer_entry.hlsl", "cs_6_0");
    let a2 = reg.load("shaders/path_tracer_entry.hlsl", "cs_6_5");
    assert_eq!(a, a2);
    assert_ne!(a, b);
    assert_ne!(a, c);
    assert_eq!(reg.len(), 3);
    assert!(reg.bytecode(a).is_none());
    assert_eq!(reg.compile_count(), 0);
}

#[test]
fn skip_rule_examples() {
    // Cache newer than or as new as the source: no compile.
    assert!(!needs_compile(100, Some(100), false, false));
    assert!(!needs_compile(100, Some(200), false, false));
    // Source newer, or no cache: compile.
    assert!(needs_compile(201, Some(200), false, false));
    assert!(needs_compile(0, None, false, false));
    // The force flag compiles once per session.
    assert!(needs_compile(100, Some(200), true, false));
    assert!(!needs_compile(100, Some(200), true, true));
}

#[test]
fn fresh_cache_is_loaded_without_compiling() {
    let mut reg = ShaderRegistry::new(false);
    let h = reg.load("shaders/path_tracer_entry.hlsl", "cs_6_5");
    let spv = SpvFile { modified: 50, bytecode: vec![3, 2, 1] };
    let out = reg.refresh(h, "void main() {}", 40, Some(spv), "main");
    assert!(matches!(out, RefreshOutcome::Cached));
    assert_eq!(reg.compile_count(), 0);
    assert_eq!(reg.bytecode(h), Some(&vec![3u8, 2, 1]));
    // Running again against the unchanged source compiles nothing either.
    let spv = SpvFile { modified: 50, bytecode: vec![3, 2, 1] };
    reg.refresh(h, "void main() {}", 40, Some(spv), "main");
    assert_eq!(reg.compile_count(), 0);
}

#[test]
fn stale_cache_invokes_compiler_once() {
    let mut reg = ShaderRegistry::new(false);
    let h = reg.load("shaders/missing_entry.hlsl", "cs_6_0");
    let out = reg.refresh(h, "this is not hlsl", 10, None, "main");
    assert_eq!(reg.compile_count(), 1);
    match out {
        RefreshOutcome::Compiled(bytes) => assert_eq!(reg.bytecode(h), Some(&bytes)),
        RefreshOutcome::Failed(_) => assert!(reg.bytecode(h).is_none()),
        RefreshOutcome::Cached => panic!("a missing cache must compile"),
    }
}

#[test]
fn failed_compile_keeps_last_good_bytecode() {
    let mut reg = ShaderRegistry::new(false);
    let h = reg.load("shaders/a.hlsl", "cs_6_5");
    assert!(reg.publish(h, Ok(vec![1, 2, 3]), 5).is_none());
    assert_eq!(reg.bytecode(h), Some(&vec![1u8, 2, 3]));
    let err = reg.publish(h, Err(ShaderCompileError::Compiler("error X3000".to_string())), 6);
    assert!(matches!(err, Some(ShaderCompileError::Compiler(ref s)) if s == "error X3000"));
    assert_eq!(reg.bytecode(h), Some(&vec![1u8, 2, 3]));
    assert!(reg.publish(h, Ok(vec![9]), 7).is_none());
    assert_eq!(reg.bytecode(h), Some(&vec![9u8]));
}

#[test]
fn first_failure_leaves_handle_not_ready() {
    let mut reg = ShaderRegistry::new(false);
    let h = reg.load("shaders/a.hlsl", "cs_6_5");
    let err = reg.publish(h, Err(ShaderCompileError::Unavailable("no dxc".to_string())), 1);
    assert!(err.is_some());
    assert!(reg.bytecode(h).is_none());
}

#[test]
fn watcher_path_selects_all_profiles() {
    let mut reg = ShaderRegistry::new(false);
    let a = reg.load("shaders/a.hlsl", "cs_6_5");
    let _b = reg.load("shaders/b.hlsl", "cs_6_5");
    let c = reg.load("shaders/a.hlsl", "cs_6_0");
    assert_eq!(reg.handles_for_path("shaders/a.hlsl"), vec![a, c]);
    assert!(reg.handles_for_path("shaders/none.hlsl").is_empty());
}

#[test]
fn cache_file_names() {
    assert_eq!(spv_file_name("path_tracer_entry.hlsl", "cs_6_5"), "path_tracer_entry.hlsl_cs_6_5.spv");
    assert_eq!(spv_cache_path("a.hlsl", "vs_6_0"), "./spv/bin/a.hlsl_vs_6_0.spv");
    assert_eq!(spv_file_name("", ""), "_.spv");
}

#[test]
fn current_dir_prefix_names_the_same_file() {
    let mut reg = ShaderRegistry::new(false);
    let a = reg.load("shaders/a.hlsl", "cs_6_5");
    let b = reg.load("./shaders/a.hlsl", "cs_6_5");
    let c = reg.load("././shaders/a.hlsl", "cs_6_5");
    assert_eq!(a, b);
    assert_eq!(a, c);
    assert_eq!(reg.len(), 1);
    assert_eq!(reg.handles_for_path("./shaders/a.hlsl"), vec![a]);
    assert!(same_path("./x", "x"));
    assert!(!same_path("x/./y", "x/y"));
    assert!(!same_path("../x", "x"));
}

#[test]
fn nul_in_names_is_refused_before_compiling() {
    assert!(contains_nul("a\0b"));
    assert!(!contains_nul("ab"));
    assert!(matches!(compile_shader("bad\0name", "src", "main", "cs_6_0"), Err(ShaderCompileError::NulCharacter)));
    assert!(matches!(compile_shader("n", "src", "ma\0in", "cs_6_0"), Err(ShaderCompileError::NulCharacter)));
    assert!(matches!(compile_shader("n", "src", "main", "cs\0"), Err(ShaderCompileError::NulCharacter)));
    assert!(matches!(compile_hlsl("n", "src", "main", "cs_6_0", &["-D\0X"]), Err(ShaderCompileError::NulCharacter)));
    let mut reg = ShaderRegistry::new(false);
    let h = reg.load("shaders/\0.hlsl", "cs_6_5");
    let out = reg.refresh(h, "src", 10, None, "main");
    assert!(matches!(out, RefreshOutcome::Failed(ShaderCompileError::NulCharacter)));
    assert_eq!(reg.compile_count(), 0);
    let h2 = reg.load("shaders/ok.hlsl", "cs_6_5");
    let out = reg.refresh(h2, "src", 10, None, "ma\0in");
    assert!(matches!(out, RefreshOutcome::Failed(ShaderCompileError::NulCharacter)));
    assert_eq!(reg.compile_count(), 0);
}

#[test]
fn compiler_flags() {
    assert_eq!(debug_compile_args(), vec!["/Zi", "-Qembed_debug"]);
    let spirv = spirv_compile_args();
    assert_eq!(spirv[0], "-I");
    assert_eq!(spirv[1], "assets/shaders");
    assert!(spirv.contains(&"-spirv"));
    assert!(spirv.contains(&"-Zi"));
}

#[test]
fn compile_result_is_applied() {
    let mut reg = ShaderRegistry::new(false);
    let h = reg.load("shaders/a.hlsl", "cs_6_5");
    match reg.apply_compile_result(h, Ok(vec![4, 5]), 3) {
        RefreshOutcome::Compiled(b) => assert_eq!(b, vec![4, 5]),
        _ => panic!("a successful compile must be applied"),
    }
    assert_eq!(reg.bytecode(h), Some(&vec![4u8, 5]));
    let out = reg.apply_compile_result(h, Err(ShaderCompileError::Compiler("bad".to_string())), 4);
    assert!(matches!(out, RefreshOutcome::Failed(ShaderCompileError::Compiler(_))));
    assert_eq!(reg.bytecode(h), Some(&vec![4u8, 5]));
}

#[test]
fn startup_stops_on_missing_feature() {
    let all = DeviceFeatures { non_uniform_indexing: true, push_constants: true };
    let no_index = DeviceFeatures { non_uniform_indexing: false, push_constants: true };
    let no_push = DeviceFeatures { non_uniform_indexing: true, push_constants: false };
    assert!(matches!(startup_pipeline(no_index, true), Err(StartupError::MissingFeature(DeviceFeature::NonUniformIndexing))));
    assert!(matches!(startup_pipeline(no_push, true), Err(StartupError::MissingFeature(DeviceFeature::PushConstants))));
    assert!(matches!(startup_pipeline(all, false), Err(StartupError::MissingFeature(DeviceFeature::RootSignature11))));
    match startup_pipeline(all, true) {
        Ok(pso) => assert_eq!(pso.root_signature.slots.len(), 1),
        Err(StartupError::ShaderCompile(e)) => assert!(!matches!(e, ShaderCompileError::NulCharacter)),
        Err(StartupError::MissingFeature(_)) => panic!("every feature is present"),
    }
    assert!(path_tracing_source().contains("[numthreads(8, 8, 1)]"));
    assert!(path_tracing_source().contains("void CSMain("));
    let t = path_tracing_target();
    assert_eq!((t.name, t.entry_point, t.profile), ("PathTracing", "CSMain", "cs_6_0"));
}

#[test]
fn registry_reports_path_and_profile() {
    let mut reg = ShaderRegistry::new(false);
    let h = reg.load("./shaders/a.hlsl", "ps_6_0");
    assert_eq!(reg.path(h), "./shaders/a.hlsl");
    assert_eq!(reg.profile(h), "ps_6_0");
}
