use modern_renderer::bind::{prepare_bind_group, setup_ping_pong, MissingResource, PingPongPair};
use modern_renderer::graph::{GraphError, NodeLabel, RenderGraph};
use modern_renderer::image::{storage_image, Extent, ImageHandle, ImageStore};
use modern_renderer::layout::{
    check_device_features, color_target_layout, create_compute_pso, ping_pong_layout, setup_root_signature,
    BindingKind, DeviceFeature, DeviceFeatures, ShaderVisibility, TextureFormat,
};
use modern_renderer::pass::{
    add_path_tracer_pass, dispatch_compute, path_tracer_graph, render_primitives, DrawCommand,
    PassCommand, PathTracerNode, PathTracerPipeline,
};
use modern_renderer::pipeline::{
    reload_shader, ComputePipelineDescriptor, PipelineCache, PushConstantRange,
};
use modern_renderer::registry::{RefreshOutcome, ShaderHandle, ShaderRegistry, SpvFile};

fn descriptor(shader: ShaderHandle, entry: &str) -> ComputePipelineDescriptor {
    ComputePipelineDescriptor {
        layout: vec![ping_pong_layout()],
        shader,
        entry_point: entry.to_string(),
        shader_defs: vec![],
        push_constant_ranges: vec![],
    }
}

fn ready_pair() -> (ImageStore, PingPongPair) {
    let mut store = ImageStore::new();
    let pair = setup_ping_pong(&mut store);
    store.upload(pair.a());
    store.upload(pair.b());
    (store, pair)
}

#[test]
fn ping_pong_roles_alternate_with_frame_parity() {
    let (store, pair) = ready_pair();
    let extracted = store.extract(&vec![pair.a(), pair.b()]);
    let groups = prepare_bind_group(&extracted, &pair).unwrap();
    for f in 0..6u64 {
        let g = groups.select(f);
        assert_ne!(g.read.image, g.write.image);
        let next = groups.select(f + 1);
        assert_eq!(next.read, g.write);
        assert_eq!(next.write, g.read);
        if f % 2 == 0 {
            assert_eq!(g.read.image, pair.a());
            assert_eq!(g.write.image, pair.b());
        } else {
            assert_eq!(g.read.image, pair.b());
            assert_eq!(g.write.image, pair.a());
        }
    }
    assert_eq!(groups.select(u64::MAX).read.image, pair.b());
}

#[test]
fn missing_view_is_reported() {
    let mut store = ImageStore::new();
    let pair = setup_ping_pong(&mut store);
    store.upload(pair.a());
    let extracted = store.extract(&vec![pair.a(), pair.b()]);
    assert_eq!(extracted.entries.len(), 1);
    assert_eq!(prepare_bind_group(&extracted, &pair), Err(MissingResource::View(pair.b())));
    let empty = store.extract(&vec![]);
    assert_eq!(prepare_bind_group(&empty, &pair), Err(MissingResource::View(pair.a())));
}

#[test]
fn pair_refuses_one_image_twice() {
    let h = ImageHandle { index: 4 };
    assert!(PingPongPair::new(h, h).is_none());
    let p = PingPongPair::new(h, ImageHandle { index: 5 }).unwrap();
    assert_eq!(p.a(), h);
}

#[test]
fn ping_pong_images_are_window_sized_r32() {
    let mut store = ImageStore::new();
    let pair = setup_ping_pong(&mut store);
    let d = store.descriptor(pair.a());
    assert_eq!(d, store.descriptor(pair.b()));
    assert_eq!(d, storage_image(TextureFormat::R32Float));
    assert_eq!((d.extent.width, d.extent.height, d.extent.depth_or_array_layers), (1920, 1080, 1));
    assert!(d.usage.copy_dst && d.usage.storage_binding && d.usage.texture_binding);
}

#[test]
fn upload_is_lazy_and_resize_retires_view() {
    let mut store = ImageStore::new();
    let h = store.create(storage_image(TextureFormat::Rgba16Float), None);
    assert!(store.initial_bytes(h).is_none());
    assert_eq!(store.get_view(h), None);
    let (v, created) = store.upload(h);
    assert!(created);
    assert_eq!(store.upload(h), (v, false));
    store.resize(h, Extent { width: 640, height: 480, depth_or_array_layers: 1 }, 7);
    assert_eq!(store.get_view(h), None);
    assert_eq!(store.descriptor(h).extent.width, 640);
    assert!(store.collect_retired(6).is_empty());
    assert_eq!(store.collect_retired(7), vec![v]);
    assert!(store.collect_retired(100).is_empty());
    let (v2, created) = store.upload(h);
    assert!(created);
    assert_ne!(v2, v);
}

#[test]
fn queue_shares_structurally_equal_descriptors() {
    let mut cache = PipelineCache::new();
    let s = ShaderHandle { index: 0 };
    let a = cache.queue_compute(descriptor(s, "main"));
    let b = cache.queue_compute(descriptor(s, "main"));
    let c = cache.queue_compute(descriptor(s, "update"));
    let mut d = descriptor(s, "main");
    d.push_constant_ranges.push(PushConstantRange { start: 0, end: 16 });
    let d = cache.queue_compute(d);
    let mut e = descriptor(s, "main");
    e.shader_defs.push("FAST".to_string());
    let e = cache.queue_compute(e);
    assert_eq!(a, b);
    assert_ne!(a, c);
    assert_ne!(a, d);
    assert_ne!(a, e);
    assert_eq!(cache.len(), 4);
}

#[test]
fn readiness_is_fixed_until_next_tick() {
    let mut reg = ShaderRegistry::new(false);
    let mut cache = PipelineCache::new();
    let p = PathTracerPipeline::from_world(&mut reg, &mut cache);
    let id = p.update_pipeline;
    assert_eq!(cache.get_compute(id), None);
    // The shader is not ready: the tick builds nothing.
    assert!(cache.tick(&reg).is_empty());
    assert_eq!(cache.get_compute(id), None);
    reg.publish(p.shader, Ok(vec![1, 2, 3]), 1);
    // Still pending until the tick of the next frame.
    assert_eq!(cache.get_compute(id), None);
    let built = cache.tick(&reg);
    assert_eq!(built.len(), 1);
    assert_eq!(built[0].id, id);
    let first = cache.get_compute(id);
    assert_eq!(first, Some(built[0].object));
    // Later calls in the same frame, even after queueing more, agree.
    cache.queue_compute(descriptor(p.shader, "other"));
    assert_eq!(cache.get_compute(id), first);
    assert_eq!(cache.get_compute(id), first);
}

#[test]
fn shader_change_yields_new_pipeline_object() {
    let mut reg = ShaderRegistry::new(false);
    let mut cache = PipelineCache::new();
    let p = PathTracerPipeline::from_world(&mut reg, &mut cache);
    reg.publish(p.shader, Ok(vec![1]), 1);
    cache.tick(&reg);
    let before = cache.get_compute(p.update_pipeline).unwrap();
    reg.publish(p.shader, Ok(vec![2]), 2);
    cache.shader_replaced(p.shader);
    assert_eq!(cache.get_compute(p.update_pipeline), None);
    cache.tick(&reg);
    let after = cache.get_compute(p.update_pipeline).unwrap();
    assert_ne!(before, after);
    // A second tick with nothing pending changes nothing.
    assert!(cache.tick(&reg).is_empty());
    assert_eq!(cache.get_compute(p.update_pipeline), Some(after));
}

#[test]
fn replacing_other_shader_keeps_pipeline() {
    let mut reg = ShaderRegistry::new(false);
    let mut cache = PipelineCache::new();
    let p = PathTracerPipeline::from_world(&mut reg, &mut cache);
    let other = reg.load("shaders/other.hlsl", "cs_6_5");
    reg.publish(p.shader, Ok(vec![1]), 1);
    cache.tick(&reg);
    let before = cache.get_compute(p.update_pipeline);
    cache.shader_replaced(other);
    assert_eq!(cache.get_compute(p.update_pipeline), before);
    assert!(matches!(before, Some(_)));
}

#[test]
fn node_skips_work_until_ready() {
    let node = PathTracerNode;
    assert!(node.run(None, None, 0, 1920, 1080).is_empty());
    let (store, pair) = ready_pair();
    let groups = prepare_bind_group(&store.extract(&vec![pair.a(), pair.b()]), &pair).unwrap();
    assert!(node.run(None, Some(groups), 0, 1920, 1080).is_empty());
}

#[test]
fn node_records_one_dispatch_over_target() {
    let mut reg = ShaderRegistry::new(false);
    let mut cache = PipelineCache::new();
    let p = PathTracerPipeline::from_world(&mut reg, &mut cache);
    reg.publish(p.shader, Ok(vec![7]), 1);
    cache.tick(&reg);
    let pipeline = cache.get_compute(p.update_pipeline);
    let (store, pair) = ready_pair();
    let groups = prepare_bind_group(&store.extract(&vec![pair.a(), pair.b()]), &pair).unwrap();
    let cmds = PathTracerNode.run(pipeline, Some(groups), 1, 1920, 1080);
    assert_eq!(cmds.len(), 7);
    assert_eq!(cmds[0], PassCommand::BeginComputePass);
    assert_eq!(cmds[1], PassCommand::PushDebugGroup);
    assert_eq!(cmds[2], PassCommand::SetPipeline(pipeline.unwrap()));
    assert_eq!(cmds[3], PassCommand::SetBindGroup { index: 0, group: groups.select(1) });
    assert_eq!(cmds[4], PassCommand::Dispatch { x: 240, y: 135, z: 1 });
    assert_eq!(cmds[5], PassCommand::PopDebugGroup);
    assert_eq!(cmds[6], PassCommand::EndComputePass);
}

#[test]
fn compute_pass_runs_before_camera_driver() {
    let g = path_tracer_graph();
    let order = g.execution_order().unwrap();
    let pos = |l: NodeLabel| {
        let i = g.index_of(l).unwrap();
        order.iter().position(|&n| n == i).unwrap()
    };
    assert_eq!(order.len(), 4);
    assert!(pos(NodeLabel::PathTracer) < pos(NodeLabel::CameraDriver));
    assert!(pos(NodeLabel::CameraDriver) < pos(NodeLabel::Tonemap));
    assert!(pos(NodeLabel::Tonemap) < pos(NodeLabel::Present));
}

#[test]
fn graph_without_edges_orders_all_nodes() {
    let mut g = RenderGraph::new();
    assert_eq!(g.add_node(NodeLabel::Other(1)), Ok(0));
    assert_eq!(g.add_node(NodeLabel::Other(2)), Ok(1));
    assert_eq!(g.execution_order(), Ok(vec![0, 1]));
    assert_eq!(RenderGraph::new().execution_order(), Ok(vec![]));
}

#[test]
fn graph_errors() {
    let mut g = RenderGraph::new();
    g.add_node(NodeLabel::CameraDriver).unwrap();
    assert_eq!(g.add_node(NodeLabel::CameraDriver), Err(GraphError::DuplicateLabel(NodeLabel::CameraDriver)));
    assert_eq!(
        g.add_node_edge(NodeLabel::Tonemap, NodeLabel::CameraDriver),
        Err(GraphError::UnknownLabel(NodeLabel::Tonemap))
    );
    assert_eq!(
        g.add_node_edge(NodeLabel::CameraDriver, NodeLabel::Present),
        Err(GraphError::UnknownLabel(NodeLabel::Present))
    );
    g.add_node(NodeLabel::Tonemap).unwrap();
    g.add_node_edge(NodeLabel::CameraDriver, NodeLabel::Tonemap).unwrap();
    g.add_node_edge(NodeLabel::Tonemap, NodeLabel::CameraDriver).unwrap();
    assert_eq!(g.execution_order(), Err(GraphError::Cycle));
}

#[test]
fn pass_needs_camera_driver() {
    let mut g = RenderGraph::new();
    assert_eq!(add_path_tracer_pass(&mut g), Err(GraphError::UnknownLabel(NodeLabel::CameraDriver)));
    let mut g = path_tracer_graph();
    assert_eq!(add_path_tracer_pass(&mut g), Err(GraphError::DuplicateLabel(NodeLabel::PathTracer)));
}

#[test]
fn device_feature_check() {
    let all = DeviceFeatures { non_uniform_indexing: true, push_constants: true };
    assert_eq!(check_device_features(all), Ok(()));
    let no_indexing = DeviceFeatures { non_uniform_indexing: false, push_constants: true };
    assert_eq!(check_device_features(no_indexing), Err(DeviceFeature::NonUniformIndexing));
    assert!(DeviceFeature::NonUniformIndexing.name().contains("NON_UNIFORM_INDEXING"));
    let no_push = DeviceFeatures { non_uniform_indexing: true, push_constants: false };
    assert_eq!(check_device_features(no_push), Err(DeviceFeature::PushConstants));
    assert_eq!(DeviceFeature::PushConstants.name(), "PUSH_CONSTANTS");
}

#[test]
fn root_signature_layout() {
    assert_eq!(setup_root_signature(false).err(), Some(DeviceFeature::RootSignature11));
    let l = setup_root_signature(true).unwrap();
    assert_eq!(l.slots.len(), 1);
    assert_eq!(l.slots[0].kind, BindingKind::ReadWriteStorageImage);
    assert_eq!(l.slots[0].visibility, ShaderVisibility::All);
}

#[test]
fn pass_layouts() {
    let l = ping_pong_layout();
    assert_eq!(l.slots[0].kind, BindingKind::ReadOnlyStorageImage);
    assert_eq!(l.slots[1].kind, BindingKind::WriteOnlyStorageImage);
    assert_eq!(l.slots[1].format, Some(TextureFormat::R32Float));
    let c = color_target_layout();
    assert_eq!(c.slots.len(), 1);
    assert_eq!(c.slots[0].format, Some(TextureFormat::Rgba16Float));
    assert!(l.same_as(&ping_pong_layout()));
    assert!(!l.same_as(&c));
}

#[test]
fn helpers_skip_unready_shaders() {
    let mut reg = ShaderRegistry::new(false);
    let v = reg.load("shaders/mesh.hlsl", "vs_6_0");
    let f = reg.load("shaders/mesh.hlsl", "ps_6_0");
    let c = reg.load("shaders/blur.hlsl", "cs_6_0");
    assert_eq!(dispatch_compute(&reg, c, 4, 5), None);
    reg.publish(c, Ok(vec![1]), 1);
    assert_eq!(dispatch_compute(&reg, c, 4, 5), Some(PassCommand::Dispatch { x: 4, y: 5, z: 1 }));
    assert_eq!(dispatch_compute(&reg, ShaderHandle { index: 99 }, 4, 5), None);
    reg.publish(v, Ok(vec![1]), 1);
    assert!(render_primitives(&reg, v, f, 3, 1).is_empty());
    reg.publish(f, Ok(vec![1]), 1);
    assert_eq!(
        render_primitives(&reg, v, f, 3, 2),
        vec![
            DrawCommand::BindGraphicsPipeline,
            DrawCommand::BindDescriptorSet { index: 0 },
            DrawCommand::Draw { vertex_count: 3, instance_count: 2, first_vertex: 0, first_instance: 0 },
        ]
    );
}

#[test]
fn reload_keeps_pipeline_unless_bytecode_replaced() {
    let mut reg = ShaderRegistry::new(false);
    let mut cache = PipelineCache::new();
    let p = PathTracerPipeline::from_world(&mut reg, &mut cache);
    let spv = SpvFile { modified: 20, bytecode: vec![5, 5] };
    let out = reload_shader(&mut reg, &mut cache, p.shader, "src", 10, Some(spv), "main");
    assert!(matches!(out, RefreshOutcome::Cached));
    assert_eq!(cache.tick(&reg).len(), 1);
    let built = cache.get_compute(p.update_pipeline);
    assert!(built.is_some());
    assert_eq!(cache.next_object(), 1);
    // A newer source runs the compiler; whatever it answers, the
    // pipeline is rebuilt only if new bytecode came out.
    let out = reload_shader(&mut reg, &mut cache, p.shader, "not hlsl", 30, None, "main");
    assert_eq!(reg.compile_count(), 1);
    match out {
        RefreshOutcome::Compiled(_) => assert_eq!(cache.get_compute(p.update_pipeline), None),
        RefreshOutcome::Failed(_) => {
            assert_eq!(cache.get_compute(p.update_pipeline), built);
            assert_eq!(reg.bytecode(p.shader), Some(&vec![5u8, 5]));
        }
        RefreshOutcome::Cached => panic!("a newer source must compile"),
    }
}

#[test]
fn compute_pso_pairs_root_signature_and_bytecode() {
    let root = setup_root_signature(true).unwrap();
    let pso = create_compute_pso(root, vec![0x44, 0x58, 0x42, 0x43]);
    assert_eq!(pso.compute_shader, vec![0x44, 0x58, 0x42, 0x43]);
    assert_eq!(pso.root_signature.slots.len(), 1);
    assert_eq!(pso.root_signature.slots[0].visibility, ShaderVisibility::All);
}

#[test]
fn from_world_twice_reuses_the_shader_entry() {
    let mut reg = ShaderRegistry::new(false);
    let mut cache = PipelineCache::new();
    let first = PathTracerPipeline::from_world(&mut reg, &mut cache);
    let second = PathTracerPipeline::from_world(&mut reg, &mut cache);
    assert_eq!(first.shader, second.shader);
    assert_eq!(first.update_pipeline, second.update_pipeline);
    assert_eq!(reg.len(), 1);
    assert_eq!(cache.len(), 1);
}

#[test]
fn ping_pong_images_start_filled() {
    let mut store = ImageStore::new();
    let pair = setup_ping_pong(&mut store);
    for h in [pair.a(), pair.b()] {
        let bytes = store.initial_bytes(h).unwrap();
        assert_eq!(bytes.len(), 1920 * 1080 * 4);
        assert_eq!(&bytes[0..8], &[0, 0, 0, 255, 0, 0, 0, 255]);
        assert_eq!(&bytes[bytes.len() - 4..], &[0, 0, 0, 255]);
    }
    let h = store.create(storage_image(TextureFormat::R32Float), Some(vec![1, 2, 3, 4]));
    assert_eq!(store.initial_bytes(h), Some(&vec![1u8, 2, 3, 4]));
}

#[test]
fn fill_texels_repeats_pixel() {
    use_fill();
}

fn use_fill() {
    let b = modern_renderer::image::fill_texels([1, 2, 3, 4], 3);
    assert_eq!(b, vec![1, 2, 3, 4, 1, 2, 3, 4, 1, 2, 3, 4]);
    assert!(modern_renderer::image::fill_texels([9, 9, 9, 9], 0).is_empty());
}
