use grid_shadow::entity::Entity;
use grid_shadow::pipeline::{
    GridShadowPipeline, MeshAttribute, PrimitiveTopology, SpecializationError, VertexLayout, World,
};
use grid_shadow::queue::{
    queue_grid_shadow, queue_grid_shadows, BatchRange, DrawFunctionId, GridShadow, GridView,
    PreparedMaterial, PreparedMesh, RenderPhase, SkippedEntity, VisibleEntity,
};
use grid_shadow::specializer::{PipelineId, PipelineSpecializer};

fn pipeline() -> GridShadowPipeline {
    GridShadowPipeline::from_world(&World {
        view_uniform_size: 592,
        max_directional_lights: 10,
        max_cascades_per_light: 4,
    })
}

fn mesh(layout: u64, topology: PrimitiveTopology) -> PreparedMesh {
    PreparedMesh {
        primitive_topology: topology,
        layout: VertexLayout {
            id: layout,
            attributes: vec![MeshAttribute::Position, MeshAttribute::Other(1)],
            morph_targets: false,
        },
    }
}

fn broken_mesh(layout: u64) -> PreparedMesh {
    PreparedMesh {
        primitive_topology: PrimitiveTopology::TriangleList,
        layout: VertexLayout {
            id: layout,
            attributes: vec![MeshAttribute::Other(1)],
            morph_targets: false,
        },
    }
}

fn caster(entity: u64, layout: u64, material: u64) -> VisibleEntity {
    VisibleEntity {
        entity: Entity(entity),
        shadow_caster: true,
        mesh: Some(mesh(layout, PrimitiveTopology::TriangleList)),
        material: Some(PreparedMaterial { key: material, specialization: Ok(()) }),
    }
}

fn item(entity: u64, pipeline: usize, draw_function: u32) -> GridShadow {
    GridShadow {
        entity: Entity(entity),
        pipeline: PipelineId(pipeline),
        draw_function: DrawFunctionId(draw_function),
        batch_range: BatchRange { start: 0, end: 1 },
        dynamic_offset: None,
    }
}

fn queue_one(visible: &Vec<VisibleEntity>) -> (Vec<GridShadow>, Vec<SkippedEntity>, usize) {
    let mut phase = RenderPhase::new();
    let mut cache = PipelineSpecializer::new();
    let mut skipped = Vec::new();
    queue_grid_shadow(&mut phase, visible, &mut cache, &pipeline(), DrawFunctionId(3), &mut skipped);
    (phase.items, skipped, cache.len())
}

#[test]
fn casters_are_queued_in_visibility_order() {
    let visible = vec![caster(10, 1, 0), caster(4, 1, 1), caster(7, 1, 0)];
    let (items, skipped, pipelines) = queue_one(&visible);
    assert_eq!(items, vec![item(10, 0, 3), item(4, 1, 3), item(7, 0, 3)]);
    assert!(skipped.is_empty());
    assert_eq!(pipelines, 2);
}

#[test]
fn queued_draw_covers_one_instance_without_offset() {
    let (items, _, _) = queue_one(&vec![caster(1, 1, 0)]);
    assert_eq!(items.len(), 1);
    assert_eq!(*items[0].batch_range(), BatchRange { start: 0, end: 1 });
    assert_eq!(items[0].dynamic_offset(), None);
    assert_eq!(items[0].entity(), Entity(1));
    assert_eq!(items[0].draw_function(), DrawFunctionId(3));
    assert_eq!(items[0].cached_pipeline(), PipelineId(0));
}

#[test]
fn non_caster_is_never_queued() {
    for mesh_resolved in [false, true] {
        for material_resolved in [false, true] {
            let entity = VisibleEntity {
                entity: Entity(5),
                shadow_caster: false,
                mesh: if mesh_resolved { Some(mesh(1, PrimitiveTopology::TriangleList)) } else { None },
                material: if material_resolved { Some(PreparedMaterial { key: 0, specialization: Ok(()) }) } else { None },
            };
            let visible = vec![caster(1, 1, 0), entity, caster(2, 1, 0)];
            let (items, skipped, pipelines) = queue_one(&visible);
            assert_eq!(items, vec![item(1, 0, 3), item(2, 0, 3)]);
            assert!(items.iter().all(|i| i.entity != Entity(5)));
            assert!(skipped.is_empty());
            assert_eq!(pipelines, 1);
        }
    }
}

#[test]
fn unresolved_mesh_or_material_skips_the_entity() {
    let mut no_mesh = caster(1, 1, 0);
    no_mesh.mesh = None;
    let mut no_material = caster(2, 1, 0);
    no_material.material = None;
    let mut neither = caster(3, 1, 0);
    neither.mesh = None;
    neither.material = None;
    let visible = vec![no_mesh, no_material, neither, caster(4, 1, 0)];
    let (items, skipped, pipelines) = queue_one(&visible);
    assert_eq!(items, vec![item(4, 0, 3)]);
    assert!(skipped.is_empty());
    assert_eq!(pipelines, 1);
}

#[test]
fn failed_specialization_skips_only_the_offending_entity() {
    let mut bad = caster(2, 9, 0);
    bad.mesh = Some(broken_mesh(9));
    let visible = vec![caster(1, 1, 0), bad, caster(3, 1, 1)];
    let (items, skipped, pipelines) = queue_one(&visible);
    assert_eq!(items, vec![item(1, 0, 3), item(3, 1, 3)]);
    assert_eq!(
        skipped,
        vec![SkippedEntity {
            entity: Entity(2),
            error: SpecializationError::MissingVertexAttribute(MeshAttribute::Position),
        }]
    );
    assert_eq!(pipelines, 2);
}

#[test]
fn pipeline_key_joins_layout_material_and_topology() {
    let mut lines = caster(3, 1, 0);
    lines.mesh = Some(mesh(1, PrimitiveTopology::LineList));
    let visible = vec![
        caster(1, 1, 0),
        caster(2, 2, 0),
        lines,
        caster(4, 1, 7),
        caster(5, 1, 0),
        caster(6, 2, 0),
    ];
    let (items, _, pipelines) = queue_one(&visible);
    let handles: Vec<usize> = items.iter().map(|i| i.pipeline.0).collect();
    assert_eq!(handles, vec![0, 1, 2, 3, 0, 1]);
    assert_eq!(pipelines, 4);
}

#[test]
fn queueing_appends_to_what_the_phase_holds() {
    let mut phase = RenderPhase::new();
    phase.add(item(99, 0, 1));
    let mut cache = PipelineSpecializer::new();
    let mut skipped = vec![SkippedEntity {
        entity: Entity(50),
        error: SpecializationError::MissingVertexAttribute(MeshAttribute::Position),
    }];
    let mut bad = caster(2, 9, 0);
    bad.mesh = Some(broken_mesh(9));
    queue_grid_shadow(
        &mut phase,
        &vec![caster(1, 1, 0), bad],
        &mut cache,
        &pipeline(),
        DrawFunctionId(3),
        &mut skipped,
    );
    assert_eq!(phase.items, vec![item(99, 0, 1), item(1, 0, 3)]);
    assert_eq!(skipped.len(), 2);
    assert_eq!(skipped[0].entity, Entity(50));
    assert_eq!(skipped[1].entity, Entity(2));
}

#[test]
fn empty_visibility_queues_nothing() {
    let (items, skipped, pipelines) = queue_one(&Vec::new());
    assert!(items.is_empty());
    assert!(skipped.is_empty());
    assert_eq!(pipelines, 0);
}

#[test]
fn grid_views_share_the_pipeline_cache() {
    let mut bad = caster(8, 9, 0);
    bad.mesh = Some(broken_mesh(9));
    let mut hidden = caster(9, 1, 0);
    hidden.shadow_caster = false;
    let mut grids = vec![
        GridView { phase: RenderPhase::new(), visible_entities: vec![caster(1, 1, 0), caster(2, 1, 1)] },
        GridView { phase: RenderPhase::new(), visible_entities: Vec::new() },
        GridView {
            phase: RenderPhase::new(),
            visible_entities: vec![hidden.clone(), caster(2, 1, 1), bad, caster(3, 1, 2), caster(1, 1, 0)],
        },
    ];
    let mut cache = PipelineSpecializer::new();
    let skipped = queue_grid_shadows(&mut grids, &mut cache, &pipeline(), DrawFunctionId(0));
    assert_eq!(grids[0].phase.items, vec![item(1, 0, 0), item(2, 1, 0)]);
    assert!(grids[1].phase.items.is_empty());
    assert_eq!(grids[2].phase.items, vec![item(2, 1, 0), item(3, 2, 0), item(1, 0, 0)]);
    assert_eq!(
        skipped,
        vec![SkippedEntity {
            entity: Entity(8),
            error: SpecializationError::MissingVertexAttribute(MeshAttribute::Position),
        }]
    );
    assert_eq!(cache.len(), 3);
    // the visible entities are left as they were
    assert_eq!(grids[2].visible_entities.len(), 5);
    assert_eq!(grids[2].visible_entities[0], hidden);
    for grid in &grids {
        assert!(grid.phase.items.iter().all(|i| i.entity != Entity(9)));
    }
}

#[test]
fn no_grid_view_queues_nothing() {
    let mut grids: Vec<GridView> = Vec::new();
    let mut cache = PipelineSpecializer::new();
    let skipped = queue_grid_shadows(&mut grids, &mut cache, &pipeline(), DrawFunctionId(0));
    assert!(skipped.is_empty());
    assert!(grids.is_empty());
    assert_eq!(cache.len(), 0);
}

#[test]
fn draw_fields_can_be_changed_in_place() {
    let mut draw = item(1, 2, 3);
    *draw.batch_range_mut() = BatchRange { start: 4, end: 9 };
    assert_eq!(draw.batch_range, BatchRange { start: 4, end: 9 });
    *draw.dynamic_offset_mut() = Some(256);
    assert_eq!(draw.dynamic_offset(), Some(256));
    assert_eq!(draw.entity(), Entity(1));
    assert_eq!(draw.cached_pipeline(), PipelineId(2));
    assert_eq!(draw.draw_function(), DrawFunctionId(3));
}

#[test]
fn material_failure_skips_only_the_offending_entity() {
    let mut rejected = caster(2, 1, 8);
    rejected.material = Some(PreparedMaterial { key: 8, specialization: Err(77) });
    let visible = vec![caster(1, 1, 0), rejected, caster(3, 1, 1)];
    let (items, skipped, pipelines) = queue_one(&visible);
    assert_eq!(items, vec![item(1, 0, 3), item(3, 1, 3)]);
    assert_eq!(
        skipped,
        vec![SkippedEntity { entity: Entity(2), error: SpecializationError::Material(77) }]
    );
    assert_eq!(pipelines, 2);
}

#[test]
fn missing_position_is_reported_before_the_material() {
    let mut bad = caster(2, 9, 0);
    bad.mesh = Some(broken_mesh(9));
    bad.material = Some(PreparedMaterial { key: 0, specialization: Err(77) });
    let (items, skipped, pipelines) = queue_one(&vec![bad]);
    assert!(items.is_empty());
    assert_eq!(
        skipped,
        vec![SkippedEntity {
            entity: Entity(2),
            error: SpecializationError::MissingVertexAttribute(MeshAttribute::Position),
        }]
    );
    assert_eq!(pipelines, 0);
}

#[test]
fn material_is_not_asked_again_for_a_cached_pipeline() {
    let mut later = caster(2, 1, 0);
    later.material = Some(PreparedMaterial { key: 0, specialization: Err(77) });
    let (items, skipped, pipelines) = queue_one(&vec![caster(1, 1, 0), later]);
    assert_eq!(items, vec![item(1, 0, 3), item(2, 0, 3)]);
    assert!(skipped.is_empty());
    assert_eq!(pipelines, 1);
}
