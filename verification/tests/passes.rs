use grid_shadow::bind_group::{
    prepare_grid_shadow_bind_groups, prepare_grid_shadow_view_bind_group, BindGroup,
    BindGroupLayoutKind, BindingResource, BufferBinding, BufferId, GridShadowMeta,
    GridShadowUniformOffset, ViewUniformOffset, SHADOW_BIND_GROUP_LABEL, VIEW_BIND_GROUP_LABEL,
};
use grid_shadow::entity::Entity;
use grid_shadow::pass::{
    DrawCommand, GridFrame, GridShadowPassNode, LoadOp, SetGridShadowBindGroup,
    SetGridShadowViewBindGroup, ShadowPass, StoreOp, SHADOW_PASS_LABEL,
};
use grid_shadow::pipeline::{GridShadowPipeline, World};
use grid_shadow::queue::{BatchRange, DrawFunctionId, GridShadow, RenderPhase};
use grid_shadow::register::{
    register_shadow, GraphEdge, GraphNode, RenderSet, ScheduledSystem, ShadowSystem,
};
use grid_shadow::resources::shadow_sampler;
use grid_shadow::settings::RenderSettings;
use grid_shadow::specializer::PipelineId;
use grid_shadow::texture::TextureId;
use grid_shadow::view::{ShadowView, Viewport};

fn world() -> World {
    World { view_uniform_size: 592, max_directional_lights: 10, max_cascades_per_light: 4 }
}

fn binding(buffer: u64) -> BufferBinding {
    BufferBinding { buffer: BufferId(buffer), offset: 0, size: Some(592) }
}

fn view(entity: u64, texture: usize) -> ShadowView {
    ShadowView {
        entity: Entity(entity),
        viewport: Viewport { x: 0, y: 0, width: 16384, height: 9216 },
        texture_view: TextureId(texture),
        camera_offset: 500,
        hdr: false,
    }
}

fn item(entity: u64, pipeline: usize) -> GridShadow {
    GridShadow {
        entity: Entity(entity),
        pipeline: PipelineId(pipeline),
        draw_function: DrawFunctionId(0),
        batch_range: BatchRange { start: 0, end: 1 },
        dynamic_offset: None,
    }
}

fn frame(entity: u64, texture: usize, items: Vec<GridShadow>, offset: u32) -> GridFrame {
    GridFrame {
        shadow_view: view(entity, texture),
        phase: RenderPhase { items },
        view_uniform_offset: ViewUniformOffset { offset },
    }
}

fn prepared_meta() -> GridShadowMeta {
    let mut meta = GridShadowMeta::default();
    prepare_grid_shadow_view_bind_group(&mut meta, Some(binding(1)));
    meta
}

fn draw(entity: u64, pipeline: usize, offset: u32) -> Vec<DrawCommand> {
    vec![
        DrawCommand::SetPipeline(PipelineId(pipeline)),
        DrawCommand::SetViewBindGroup { index: 0, offset },
        DrawCommand::SetMaterialBindGroup { index: 1, entity: Entity(entity) },
        DrawCommand::SetMeshBindGroup { index: 2, entity: Entity(entity), dynamic_offset: None },
        DrawCommand::DrawMesh { entity: Entity(entity), instances: BatchRange { start: 0, end: 1 } },
    ]
}

#[test]
fn view_bind_group_wraps_the_view_uniforms() {
    let mut meta = GridShadowMeta::default();
    assert_eq!(meta.view_bind_group, None);
    prepare_grid_shadow_view_bind_group(&mut meta, Some(binding(1)));
    assert_eq!(
        meta.view_bind_group,
        Some(BindGroup {
            label: "grid_shadow_view_bind_group",
            layout: BindGroupLayoutKind::ShadowView,
            entries: vec![BindingResource::Buffer(binding(1))],
        })
    );
    assert_eq!(VIEW_BIND_GROUP_LABEL, "grid_shadow_view_bind_group");
}

#[test]
fn view_bind_group_is_rebuilt_when_the_buffer_changes() {
    let mut meta = prepared_meta();
    prepare_grid_shadow_view_bind_group(&mut meta, Some(binding(2)));
    assert_eq!(
        meta.view_bind_group.as_ref().unwrap().entries,
        vec![BindingResource::Buffer(binding(2))]
    );
}

#[test]
fn missing_view_binding_skips_and_keeps_the_old_group() {
    let mut meta = GridShadowMeta::default();
    prepare_grid_shadow_view_bind_group(&mut meta, None);
    assert_eq!(meta.view_bind_group, None);
    let mut meta = prepared_meta();
    let before = meta.clone();
    prepare_grid_shadow_view_bind_group(&mut meta, None);
    assert_eq!(meta, before);
}

#[test]
fn shadow_bind_group_holds_uniforms_texture_and_sampler() {
    let pipeline = GridShadowPipeline::from_world(&world());
    let grids = vec![view(4, 0), view(9, 2)];
    let prepared = prepare_grid_shadow_bind_groups(&grids, Some(binding(7)), &pipeline);
    assert_eq!(prepared.len(), 2);
    assert_eq!(prepared[0].entity, Entity(4));
    assert_eq!(prepared[1].entity, Entity(9));
    assert_eq!(
        *prepared[0].bind_group.bind_group(),
        BindGroup {
            label: "grid-shadow-bind-group",
            layout: BindGroupLayoutKind::GridShadows,
            entries: vec![
                BindingResource::Buffer(binding(7)),
                BindingResource::TextureView(TextureId(0)),
                BindingResource::Sampler(shadow_sampler()),
            ],
        }
    );
    assert_eq!(
        prepared[1].bind_group.bind_group().entries[1],
        BindingResource::TextureView(TextureId(2))
    );
    assert_eq!(SHADOW_BIND_GROUP_LABEL, "grid-shadow-bind-group");
}

#[test]
fn missing_shadow_binding_makes_no_bind_group() {
    let pipeline = GridShadowPipeline::from_world(&world());
    let grids = vec![view(4, 0), view(9, 0)];
    assert!(prepare_grid_shadow_bind_groups(&grids, None, &pipeline).is_empty());
    assert!(prepare_grid_shadow_bind_groups(&Vec::new(), Some(binding(7)), &pipeline).is_empty());
}

#[test]
fn view_bind_group_command_binds_at_the_view_offset() {
    let meta = prepared_meta();
    let bound =
        SetGridShadowViewBindGroup::<0>::render(&meta, ViewUniformOffset { offset: 768 }).unwrap();
    assert_eq!(bound.index, 0);
    assert_eq!(bound.offset, 768);
    assert_eq!(Some(bound.bind_group), meta.view_bind_group.as_ref());
    let bound =
        SetGridShadowViewBindGroup::<3>::render(&meta, ViewUniformOffset { offset: 0 }).unwrap();
    assert_eq!((bound.index, bound.offset), (3, 0));
}

#[test]
fn view_bind_group_command_skips_without_a_bind_group() {
    let meta = GridShadowMeta::default();
    assert_eq!(
        SetGridShadowViewBindGroup::<0>::render(&meta, ViewUniformOffset { offset: 768 }),
        None
    );
    // a binding that went missing leaves the old group in place, and it is bound
    let mut meta = prepared_meta();
    prepare_grid_shadow_view_bind_group(&mut meta, None);
    assert!(SetGridShadowViewBindGroup::<0>::render(&meta, ViewUniformOffset { offset: 0 })
        .is_some());
}

#[test]
fn missing_view_bind_group_skips_the_draws_not_the_passes() {
    let mut node = GridShadowPassNode::new();
    let world = vec![
        frame(4, 0, vec![item(10, 0), item(11, 1)], 0),
        frame(2, 1, Vec::new(), 256),
    ];
    node.update(&world);
    let passes = node.run(&GridShadowMeta::default(), &world);
    assert_eq!(
        passes,
        vec![
            ShadowPass {
                label: "grid_shadow_pass",
                entity: Entity(4),
                view: TextureId(0),
                load: LoadOp::ClearBlack,
                store: StoreOp::Store,
                depth_stencil_attachment: false,
                commands: Vec::new(),
            },
            ShadowPass {
                label: "grid_shadow_pass",
                entity: Entity(2),
                view: TextureId(1),
                load: LoadOp::ClearBlack,
                store: StoreOp::Store,
                depth_stencil_attachment: false,
                commands: Vec::new(),
            },
        ]
    );
    // next frame the bind group is there and the draws are recorded
    let passes = node.run(&prepared_meta(), &world);
    assert_eq!(passes[0].commands.len(), 10);
    assert!(passes[1].commands.is_empty());
}

#[test]
fn shadow_bind_group_command_binds_only_what_is_there() {
    let pipeline = GridShadowPipeline::from_world(&world());
    let prepared = prepare_grid_shadow_bind_groups(&vec![view(4, 1)], Some(binding(7)), &pipeline);
    let group = &prepared[0].bind_group;
    let bound =
        SetGridShadowBindGroup::<2>::render(Some((group, GridShadowUniformOffset { offset: 256 })))
            .unwrap();
    assert_eq!(bound.index, 2);
    assert_eq!(bound.offset, 256);
    assert_eq!(bound.bind_group, group.bind_group());
    assert_eq!(SetGridShadowBindGroup::<2>::render(None), None);
}

#[test]
fn node_starts_without_grids() {
    let node = GridShadowPassNode::new();
    assert!(node.grids().is_empty());
}

#[test]
fn update_snapshots_the_grids_with_a_shadow_view() {
    let mut node = GridShadowPassNode::new();
    let world = vec![frame(4, 0, Vec::new(), 0), frame(2, 0, Vec::new(), 256)];
    node.update(&world);
    assert_eq!(*node.grids(), vec![Entity(4), Entity(2)]);
    node.update(&vec![frame(7, 0, Vec::new(), 0)]);
    assert_eq!(*node.grids(), vec![Entity(7)]);
    node.update(&Vec::new());
    assert!(node.grids().is_empty());
}

#[test]
fn zero_prepared_grids_record_zero_passes() {
    let mut node = GridShadowPassNode::new();
    let world: Vec<GridFrame> = Vec::new();
    node.update(&world);
    assert!(node.run(&GridShadowMeta::default(), &world).is_empty());
    assert!(node.run(&prepared_meta(), &world).is_empty());
    // a node that was never updated records nothing either
    assert!(GridShadowPassNode::new().run(&GridShadowMeta::default(), &world).is_empty());
}

#[test]
fn each_grid_gets_one_pass_in_snapshot_order() {
    let mut node = GridShadowPassNode::new();
    let world = vec![
        frame(4, 0, vec![item(10, 0), item(11, 1)], 0),
        frame(2, 1, Vec::new(), 256),
        frame(6, 0, vec![item(10, 0)], 512),
    ];
    node.update(&world);
    let passes = node.run(&prepared_meta(), &world);
    let mut first = draw(10, 0, 0);
    first.extend(draw(11, 1, 0));
    assert_eq!(
        passes,
        vec![
            ShadowPass {
                label: "grid_shadow_pass",
                entity: Entity(4),
                view: TextureId(0),
                load: LoadOp::ClearBlack,
                store: StoreOp::Store,
                depth_stencil_attachment: false,
                commands: first,
            },
            ShadowPass {
                label: "grid_shadow_pass",
                entity: Entity(2),
                view: TextureId(1),
                load: LoadOp::ClearBlack,
                store: StoreOp::Store,
                depth_stencil_attachment: false,
                commands: Vec::new(),
            },
            ShadowPass {
                label: "grid_shadow_pass",
                entity: Entity(6),
                view: TextureId(0),
                load: LoadOp::ClearBlack,
                store: StoreOp::Store,
                depth_stencil_attachment: false,
                commands: draw(10, 0, 512),
            },
        ]
    );
    assert_eq!(SHADOW_PASS_LABEL, "grid_shadow_pass");
}

#[test]
fn pass_without_draws_needs_no_view_bind_group() {
    let mut node = GridShadowPassNode::new();
    let world = vec![frame(4, 3, Vec::new(), 0)];
    node.update(&world);
    let passes = node.run(&GridShadowMeta::default(), &world);
    assert_eq!(passes.len(), 1);
    assert_eq!(passes[0].view, TextureId(3));
    assert!(passes[0].commands.is_empty());
}

#[test]
fn run_follows_the_snapshot_not_the_world_order() {
    let mut node = GridShadowPassNode::new();
    node.update(&vec![frame(1, 0, Vec::new(), 0), frame(2, 1, Vec::new(), 0)]);
    // the world now lists the grids the other way round, and one more
    let world = vec![
        frame(3, 2, vec![item(30, 0)], 0),
        frame(2, 1, vec![item(20, 0)], 64),
        frame(1, 0, vec![item(10, 0)], 128),
    ];
    let passes = node.run(&prepared_meta(), &world);
    assert_eq!(passes.len(), 2);
    assert_eq!(passes[0].entity, Entity(1));
    assert_eq!(passes[0].commands, draw(10, 0, 128));
    assert_eq!(passes[1].entity, Entity(2));
    assert_eq!(passes[1].commands, draw(20, 0, 64));
}

#[test]
fn draw_keeps_its_batch_range_and_dynamic_offset() {
    let mut node = GridShadowPassNode::new();
    let mut batched = item(10, 4);
    batched.batch_range = BatchRange { start: 2, end: 6 };
    batched.dynamic_offset = Some(1024);
    let world = vec![frame(1, 0, vec![batched], 32)];
    node.update(&world);
    let passes = node.run(&prepared_meta(), &world);
    assert_eq!(
        passes[0].commands,
        vec![
            DrawCommand::SetPipeline(PipelineId(4)),
            DrawCommand::SetViewBindGroup { index: 0, offset: 32 },
            DrawCommand::SetMaterialBindGroup { index: 1, entity: Entity(10) },
            DrawCommand::SetMeshBindGroup {
                index: 2,
                entity: Entity(10),
                dynamic_offset: Some(1024),
            },
            DrawCommand::DrawMesh { entity: Entity(10), instances: BatchRange { start: 2, end: 6 } },
        ]
    );
}

#[test]
fn registration_sets_up_an_idle_subsystem() {
    let settings = RenderSettings { max_texture_size: 4096 };
    let subsystem = register_shadow(&world(), &settings);
    assert_eq!(subsystem.meta.view_bind_group, None);
    assert_eq!(subsystem.pipeline, GridShadowPipeline::from_world(&world()));
    assert_eq!(subsystem.pipelines.len(), 0);
    assert_eq!(subsystem.settings, settings);
    assert_eq!(subsystem.texture_cache.len(), 0);
    assert!(subsystem.node.grids().is_empty());
    assert_eq!(
        subsystem.edge,
        GraphEdge { before: GraphNode::GridShadowPass, after: GraphNode::EndMainPass }
    );
}

#[test]
fn schedule_follows_the_stages_of_a_frame() {
    let subsystem = register_shadow(&world(), &RenderSettings::default());
    assert_eq!(
        subsystem.schedule,
        vec![
            ScheduledSystem { system: ShadowSystem::PrepareGridShadowViews, set: RenderSet::Prepare },
            ScheduledSystem {
                system: ShadowSystem::PrepareGridShadowBindGroups,
                set: RenderSet::PrepareBindGroups,
            },
            ScheduledSystem {
                system: ShadowSystem::PrepareGridShadowViewBindGroup,
                set: RenderSet::PrepareBindGroups,
            },
            ScheduledSystem { system: ShadowSystem::QueueGridShadows, set: RenderSet::Queue },
            ScheduledSystem { system: ShadowSystem::GridShadowPass, set: RenderSet::Render },
        ]
    );
}

#[test]
fn grid_that_lost_its_frame_is_passed_over() {
    let mut node = GridShadowPassNode::new();
    node.update(&vec![
        frame(1, 0, Vec::new(), 0),
        frame(2, 1, Vec::new(), 0),
        frame(3, 2, Vec::new(), 0),
    ]);
    // grid 2 is gone when the node runs
    let world = vec![frame(3, 2, vec![item(30, 0)], 64), frame(1, 0, vec![item(10, 0)], 0)];
    let passes = node.run(&prepared_meta(), &world);
    assert_eq!(passes.len(), 2);
    assert_eq!(passes[0].entity, Entity(1));
    assert_eq!(passes[0].view, TextureId(0));
    assert_eq!(passes[0].commands, draw(10, 0, 0));
    assert_eq!(passes[1].entity, Entity(3));
    assert_eq!(passes[1].view, TextureId(2));
    assert_eq!(passes[1].commands, draw(30, 0, 64));
    // with every frame gone nothing is recorded
    assert!(node.run(&prepared_meta(), &Vec::new()).is_empty());
}

#[test]
fn first_frame_of_a_grid_is_the_one_rendered() {
    let mut node = GridShadowPassNode::new();
    node.update(&vec![frame(1, 0, Vec::new(), 0)]);
    let world = vec![frame(1, 5, vec![item(10, 0)], 8), frame(1, 6, vec![item(11, 0)], 16)];
    let passes = node.run(&prepared_meta(), &world);
    assert_eq!(passes.len(), 1);
    assert_eq!(passes[0].view, TextureId(5));
    assert_eq!(passes[0].commands, draw(10, 0, 8));
}
