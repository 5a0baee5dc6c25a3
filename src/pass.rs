//! The path tracer's compute pass: its pipeline, its place in the render
//! graph, and the commands it records each frame.
use vstd::prelude::*;
use crate::bind::{BindGroup, BindGroups};
use crate::frame::{ceil_div, dispatch_grid, WORKGROUP_SIZE};
use crate::graph::{GraphError, GraphModel, NodeLabel, RenderGraph};
use crate::layout::{ping_pong_layout, ping_pong_layout_spec, BindGroupLayout};
use crate::pipeline::{ComputePipelineDescriptor, PipelineCache, PipelineId, PipelineObject};
use crate::registry::{ShaderHandle, ShaderRegistry};
use crate::text::normalized_path;

verus! {

/// One command of the compute pass, in recording order.
#[derive(Clone, Copy, Debug, PartialEq, Eq, Structural)]
pub enum PassCommand {
    BeginComputePass,
    PushDebugGroup,
    SetPipeline(PipelineObject),
    SetBindGroup { index: u32, group: BindGroup },
    Dispatch { x: u32, y: u32, z: u32 },
    PopDebugGroup,
    EndComputePass,
}

/// The commands of one dispatch of `pipeline` with `group` bound at set 0
/// over a `width × height` target.
pub open spec fn pass_commands(
    pipeline: PipelineObject,
    group: BindGroup,
    width: u32,
    height: u32,
) -> Seq<PassCommand> {
    seq![
        PassCommand::BeginComputePass,
        PassCommand::PushDebugGroup,
        PassCommand::SetPipeline(pipeline),
        PassCommand::SetBindGroup { index: 0, group },
        PassCommand::Dispatch {
            x: ceil_div(width as int, WORKGROUP_SIZE as int) as u32,
            y: ceil_div(height as int, WORKGROUP_SIZE as int) as u32,
            z: 1,
        },
        PassCommand::PopDebugGroup,
        PassCommand::EndComputePass,
    ]
}

/// Source of the path tracer's compute shader and its target profile.
pub open spec fn path_tracer_shader_path() -> Seq<char> {
    "shaders/path_tracer_entry.hlsl"@
}

pub open spec fn path_tracer_profile() -> Seq<char> {
    "cs_6_5"@
}

/// The pass's pipeline: its layout, its shader and the queued pipeline.
pub struct PathTracerPipeline {
    pub layout: BindGroupLayout,
    pub shader: ShaderHandle,
    pub update_pipeline: PipelineId,
}

impl PathTracerPipeline {
    /// Loads the path tracer shader into `registry` and queues its
    /// pipeline, entry point `main` over the ping-pong layout, in `cache`.
    pub fn from_world(registry: &mut ShaderRegistry, cache: &mut PipelineCache) -> (r:
        PathTracerPipeline)
        requires
            old(registry).wf(),
            old(cache).wf(),
        ensures
            final(registry).wf(),
            final(cache).wf(),
            final(registry)@.extends(old(registry)@),
            final(registry)@.compile_count == old(registry)@.compile_count,
            r.layout@ == ping_pong_layout_spec(),
            r.shader.index < final(registry)@.entries.len(),
            final(registry)@.key(r.shader.index as int) == (
                normalized_path(path_tracer_shader_path()),
                path_tracer_profile(),
            ),
            r.update_pipeline.index < final(cache)@.len(),
            final(cache)@.descriptors[r.update_pipeline.index as int].shader == r.shader,
            final(cache)@.descriptors[r.update_pipeline.index as int].entry_point == "main"@,
            final(cache)@.descriptors[r.update_pipeline.index as int].layout == seq![
                ping_pong_layout_spec(),
            ],
            final(cache)@.descriptors[r.update_pipeline.index as int].shader_defs.len() == 0,
            final(cache)@.descriptors[r.update_pipeline.index as int].push_constant_ranges.len()
                == 0,
            old(registry)@.contains_key(path_tracer_shader_path(), path_tracer_profile())
                ==> final(registry)@ == old(registry)@,
            final(cache)@.keeps_states_of(old(cache)@),
    {
        let layout = ping_pong_layout();
        let shader = registry.load("shaders/path_tracer_entry.hlsl", "cs_6_5");
        let layouts = vec![ping_pong_layout()];
        let descriptor = ComputePipelineDescriptor {
            layout: layouts,
            shader,
            entry_point: "main".to_owned(),
            shader_defs: Vec::new(),
            push_constant_ranges: Vec::new(),
        };
        assert(descriptor@.layout =~= seq![ping_pong_layout_spec()]);
        let update_pipeline = cache.queue_compute(descriptor);
        PathTracerPipeline { layout, shader, update_pipeline }
    }
}

/// The render graph node of the compute pass.
pub struct PathTracerNode;

impl PathTracerNode {
    /// Records the pass for frame `frame` over a `width × height` target:
    /// nothing while the pipeline is not ready or the bind groups are
    /// missing; otherwise one dispatch with the frame-parity group bound.
    pub fn run(
        &self,
        pipeline: Option<PipelineObject>,
        bind_groups: Option<BindGroups>,
        frame: u64,
        width: u32,
        height: u32,
    ) -> (r: Vec<PassCommand>)
        ensures
            match (pipeline, bind_groups) {
                (Some(p), Some(g)) => r@ == pass_commands(p, g.selected(frame as int), width, height),
                _ => r@.len() == 0,
            },
    {
        let p = match pipeline {
            Some(p) => p,
            None => {
                return Vec::new();
            },
        };
        let g = match bind_groups {
            Some(g) => g,
            None => {
                return Vec::new();
            },
        };
        let group = g.select(frame);
        let (x, y, z) = dispatch_grid(width, height);
        let r = vec![
            PassCommand::BeginComputePass,
            PassCommand::PushDebugGroup,
            PassCommand::SetPipeline(p),
            PassCommand::SetBindGroup { index: 0, group },
            PassCommand::Dispatch { x, y, z },
            PassCommand::PopDebugGroup,
            PassCommand::EndComputePass,
        ];
        assert(r@ =~= pass_commands(p, g.selected(frame as int), width, height));
        r
    }
}

/// Adds the compute pass to `graph` and orders it before the camera
/// driver, which must already be there.
pub fn add_path_tracer_pass(graph: &mut RenderGraph) -> (r: Result<usize, GraphError>)
    requires
        old(graph).wf(),
    ensures
        final(graph).wf(),
        old(graph)@.labels.contains(NodeLabel::PathTracer) ==> r == Err::<usize, GraphError>(
            GraphError::DuplicateLabel(NodeLabel::PathTracer),
        ) && final(graph)@ == old(graph)@,
        !old(graph)@.labels.contains(NodeLabel::PathTracer) && !old(graph)@.labels.contains(
            NodeLabel::CameraDriver,
        ) ==> r == Err::<usize, GraphError>(GraphError::UnknownLabel(NodeLabel::CameraDriver)),
        !old(graph)@.labels.contains(NodeLabel::PathTracer) && old(graph)@.labels.contains(
            NodeLabel::CameraDriver,
        ) ==> (match r {
            Ok(i) => i as nat == old(graph)@.labels.len(),
            Err(_) => false,
        }) && final(graph)@.labels == old(graph)@.labels.push(NodeLabel::PathTracer)
            && exists|c: usize|
            c < old(graph)@.labels.len() && old(graph)@.labels[c as int] == NodeLabel::CameraDriver
                && final(graph)@.edges == old(graph)@.edges.push((r.unwrap(), c)),
{
    let node = match graph.add_node(NodeLabel::PathTracer) {
        Ok(node) => node,
        Err(e) => {
            return Err(e);
        },
    };
    let ghost added = graph@;
    assert(!old(graph)@.labels.contains(NodeLabel::PathTracer));
    assert(node == old(graph)@.labels.len());
    assert(added.labels == old(graph)@.labels.push(NodeLabel::PathTracer));
    assert(added.labels[node as int] == NodeLabel::PathTracer);
    assert(added.labels.contains(NodeLabel::PathTracer));
    proof {
        if old(graph)@.labels.contains(NodeLabel::CameraDriver) {
            let c = choose|c: int|
                0 <= c < old(graph)@.labels.len() && old(graph)@.labels[c]
                    == NodeLabel::CameraDriver;
            assert(added.labels[c] == NodeLabel::CameraDriver);
        } else {
            assert forall|c: int| 0 <= c < added.labels.len() implies added.labels[c]
                != NodeLabel::CameraDriver by {
                if c < old(graph)@.labels.len() {
                    assert(old(graph)@.labels[c] != NodeLabel::CameraDriver);
                }
            }
        }
    }
    match graph.add_node_edge(NodeLabel::PathTracer, NodeLabel::CameraDriver) {
        Ok(()) => {
            proof {
                let ghost fin = graph@;
                let (i, c) = choose|i: usize, c: usize|
                    i < added.labels.len() && c < added.labels.len() && added.labels[i as int] == NodeLabel::PathTracer && added.labels[c as int]
                        == NodeLabel::CameraDriver && fin.edges == added.edges.push((i, c));
                assert(i == node) by {
                    if i != node {
                        assert(added.labels[i as int] != added.labels[node as int]);
                    }
                }
                assert(c < old(graph)@.labels.len()) by {
                    if c as int == node as int {
                        assert(added.labels[c as int] == NodeLabel::PathTracer);
                    }
                }
                assert(old(graph)@.labels[c as int] == NodeLabel::CameraDriver);
            }
            Ok(node)
        },
        Err(e) => Err(e),
    }
}

/// The graph of one frame: the compute pass, then the camera driver that
/// samples its target, then tonemapping, then presentation.
pub open spec fn path_tracer_graph_spec() -> GraphModel {
    GraphModel {
        labels: seq![
            NodeLabel::CameraDriver,
            NodeLabel::Tonemap,
            NodeLabel::Present,
            NodeLabel::PathTracer,
        ],
        edges: seq![(0usize, 1usize), (1usize, 2usize), (3usize, 0usize)],
    }
}

/// Builds the frame's render graph.
pub fn path_tracer_graph() -> (r: RenderGraph)
    ensures
        r.wf(),
        r@ == path_tracer_graph_spec(),
{
    let mut g = RenderGraph::new();
    let _ = g.add_node(NodeLabel::CameraDriver);
    let _ = g.add_node(NodeLabel::Tonemap);
    let _ = g.add_node(NodeLabel::Present);
    let ghost labels = seq![NodeLabel::CameraDriver, NodeLabel::Tonemap, NodeLabel::Present];
    assert(g@.labels =~= labels);
    assert(g@.edges.len() == 0);
    assert(labels[0] == NodeLabel::CameraDriver && labels[1] == NodeLabel::Tonemap && labels[2]
        == NodeLabel::Present);
    assert(labels.contains(NodeLabel::CameraDriver) && labels.contains(NodeLabel::Tonemap)
        && labels.contains(NodeLabel::Present));
    let _ = g.add_node_edge(NodeLabel::CameraDriver, NodeLabel::Tonemap);
    assert(g@.edges =~= seq![(0usize, 1usize)]);
    let _ = g.add_node_edge(NodeLabel::Tonemap, NodeLabel::Present);
    assert(g@.edges =~= seq![(0usize, 1usize), (1usize, 2usize)]);
    assert(!labels.contains(NodeLabel::PathTracer));
    let ghost before = g@;
    let added = add_path_tracer_pass(&mut g);
    proof {
        let c = choose|c: usize|
            c < before.labels.len() && before.labels[c as int] == NodeLabel::CameraDriver
                && g@.edges == before.edges.push((added.unwrap(), c));
        assert(c == 0);
    }
    assert(g@.labels =~= path_tracer_graph_spec().labels);
    assert(g@.edges =~= path_tracer_graph_spec().edges);
    g
}

/// A compute dispatch of `grid_x × grid_y` workgroups with the shader of
/// `shader`, or `None` while that shader has no bytecode: the dispatch is
/// skipped for the frame.
pub fn dispatch_compute(
    registry: &ShaderRegistry,
    shader: ShaderHandle,
    grid_x: u32,
    grid_y: u32,
) -> (r: Option<PassCommand>)
    ensures
        registry@.ready(shader) ==> r == Some(PassCommand::Dispatch { x: grid_x, y: grid_y, z: 1 }),
        !registry@.ready(shader) ==> r is None,
{
    if shader.index < registry.len() && registry.bytecode(shader).is_some() {
        Some(PassCommand::Dispatch { x: grid_x, y: grid_y, z: 1 })
    } else {
        None
    }
}

/// One command of a draw.
#[derive(Clone, Copy, Debug, PartialEq, Eq, Structural)]
pub enum DrawCommand {
    BindGraphicsPipeline,
    BindDescriptorSet { index: u32 },
    Draw { vertex_count: u32, instance_count: u32, first_vertex: u32, first_instance: u32 },
}

/// Draws `vertex_count` vertices `instance_count` times with the vertex and
/// fragment shaders given; nothing while either shader has no bytecode.
pub fn render_primitives(
    registry: &ShaderRegistry,
    vertex_shader: ShaderHandle,
    fragment_shader: ShaderHandle,
    vertex_count: u32,
    instance_count: u32,
) -> (r: Vec<DrawCommand>)
    ensures
        registry@.ready(vertex_shader) && registry@.ready(fragment_shader) ==> r@ == seq![
            DrawCommand::BindGraphicsPipeline,
            DrawCommand::BindDescriptorSet { index: 0 },
            DrawCommand::Draw { vertex_count, instance_count, first_vertex: 0, first_instance: 0 },
        ],
        !(registry@.ready(vertex_shader) && registry@.ready(fragment_shader)) ==> r@.len() == 0,
{
    let vertex_ready = vertex_shader.index < registry.len() && registry.bytecode(
        vertex_shader,
    ).is_some();
    let fragment_ready = fragment_shader.index < registry.len() && registry.bytecode(
        fragment_shader,
    ).is_some();
    if !vertex_ready || !fragment_ready {
        return Vec::new();
    }
    let r = vec![
        DrawCommand::BindGraphicsPipeline,
        DrawCommand::BindDescriptorSet { index: 0 },
        DrawCommand::Draw { vertex_count, instance_count, first_vertex: 0, first_instance: 0 },
    ];
    assert(r@ =~= seq![
        DrawCommand::BindGraphicsPipeline,
        DrawCommand::BindDescriptorSet { index: 0 },
        DrawCommand::Draw { vertex_count, instance_count, first_vertex: 0, first_instance: 0 },
    ]);
    r
}

} // verus!
