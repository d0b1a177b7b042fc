//! Queueing of the shadow draws of the entities visible from each grid view.

use vstd::prelude::*;
use crate::entity::Entity;
use crate::pipeline::{
    GridShadowPipeline, GridShadowPipelineView, PipelineKey, PrimitiveTopology,
    SpecializationError, VertexLayout, VertexLayoutView,
};
use crate::specializer::{
    lemma_specialize_grows, PipelineCacheView, PipelineId, PipelineSpecializer,
};
use crate::unique::lemma_push_distinct;

verus! {

/// Handle of the draw function that renders a phase item.
#[derive(Clone, Copy, Debug, PartialEq, Eq, Hash, Structural)]
pub struct DrawFunctionId(pub u32);

/// The instances that one draw covers, from `start` up to but without `end`.
#[derive(Clone, Copy, Debug, PartialEq, Eq, Hash, Structural)]
pub struct BatchRange {
    pub start: u32,
    pub end: u32,
}

/// One queued draw of a shadow-casting mesh.
///
/// The draws of a phase are not sorted: they have no sort key.
#[derive(Clone, Copy, Debug, PartialEq, Eq, Hash, Structural)]
pub struct GridShadow {
    pub entity: Entity,
    pub pipeline: PipelineId,
    pub draw_function: DrawFunctionId,
    pub batch_range: BatchRange,
    pub dynamic_offset: Option<u32>,
}

impl GridShadow {
    /// The entity that the draw renders.
    pub fn entity(&self) -> (entity: Entity)
        ensures
            entity == self.entity,
    {
        self.entity
    }

    /// The draw function that renders the draw.
    pub fn draw_function(&self) -> (draw_function: DrawFunctionId)
        ensures
            draw_function == self.draw_function,
    {
        self.draw_function
    }

    /// The instances that the draw covers.
    pub fn batch_range(&self) -> (range: &BatchRange)
        ensures
            *range == self.batch_range,
    {
        &self.batch_range
    }

    /// The instances that the draw covers, to be changed in place.
    pub fn batch_range_mut(&mut self) -> (range: &mut BatchRange)
        ensures
            *range == old(self).batch_range,
            *final(self) == (GridShadow { batch_range: *final(range), ..*old(self) }),
    {
        &mut self.batch_range
    }

    /// The draw's offset into the buffer of its batch, if it has one.
    pub fn dynamic_offset(&self) -> (offset: Option<u32>)
        ensures
            offset == self.dynamic_offset,
    {
        self.dynamic_offset
    }

    /// The draw's offset into the buffer of its batch, to be changed in place.
    pub fn dynamic_offset_mut(&mut self) -> (offset: &mut Option<u32>)
        ensures
            *offset == old(self).dynamic_offset,
            *final(self) == (GridShadow { dynamic_offset: *final(offset), ..*old(self) }),
    {
        &mut self.dynamic_offset
    }

    /// The specialised pipeline that the draw is rendered with.
    pub fn cached_pipeline(&self) -> (pipeline: PipelineId)
        ensures
            pipeline == self.pipeline,
    {
        self.pipeline
    }
}

/// A mesh whose data is ready for rendering.
#[derive(Clone, Debug, PartialEq, Eq)]
pub struct PreparedMesh {
    pub primitive_topology: PrimitiveTopology,
    pub layout: VertexLayout,
}

/// Mathematical value of a [`PreparedMesh`].
pub ghost struct PreparedMeshView {
    pub primitive_topology: PrimitiveTopology,
    pub layout: VertexLayoutView,
}

impl View for PreparedMesh {
    type V = PreparedMeshView;

    open spec fn view(&self) -> PreparedMeshView {
        PreparedMeshView { primitive_topology: self.primitive_topology, layout: self.layout@ }
    }
}

/// A material whose data is ready for rendering.
#[derive(Clone, Copy, Debug, PartialEq, Eq, Hash)]
pub struct PreparedMaterial {
    /// The material's bind-group key.
    pub key: u64,
    /// How the material's own specialisation of the entity's shadow pipeline
    /// went: `Err` holds the number under which the material reported its
    /// error.
    pub specialization: Result<(), u64>,
}

/// An entity that the host's culling found visible from a grid's view, with
/// what the host's registries resolved for it this frame.
#[derive(Clone, Debug, PartialEq, Eq)]
pub struct VisibleEntity {
    pub entity: Entity,
    /// Whether the entity is flagged as casting shadows.
    pub shadow_caster: bool,
    /// The entity's mesh, if it resolved.
    pub mesh: Option<PreparedMesh>,
    /// The entity's material, if it resolved.
    pub material: Option<PreparedMaterial>,
}

/// Mathematical value of a [`VisibleEntity`].
pub ghost struct VisibleEntityView {
    pub entity: Entity,
    pub shadow_caster: bool,
    pub mesh: Option<PreparedMeshView>,
    pub material: Option<PreparedMaterial>,
}

impl View for VisibleEntity {
    type V = VisibleEntityView;

    open spec fn view(&self) -> VisibleEntityView {
        VisibleEntityView {
            entity: self.entity,
            shadow_caster: self.shadow_caster,
            mesh: match self.mesh {
                Some(mesh) => Some(mesh@),
                None => None,
            },
            material: self.material,
        }
    }
}

/// The values of a list of visible entities.
pub open spec fn entity_views(entities: Seq<VisibleEntity>) -> Seq<VisibleEntityView> {
    Seq::new(entities.len(), |i: int| entities[i]@)
}

/// An entity that was not queued because no pipeline could be built for it.
#[derive(Clone, Copy, Debug, PartialEq, Eq, Structural)]
pub struct SkippedEntity {
    pub entity: Entity,
    pub error: SpecializationError,
}

/// The draws queued for one grid view.
#[derive(Clone, Debug, PartialEq, Eq)]
pub struct RenderPhase {
    pub items: Vec<GridShadow>,
}

/// An entity is drawn into the shadow texture if it casts shadows and both
/// its mesh and its material resolved.
pub open spec fn casts_shadow(entity: VisibleEntityView) -> bool {
    entity.shadow_caster && entity.mesh is Some && entity.material is Some
}

/// The pipeline key of an entity that casts a shadow.
pub open spec fn pipeline_key(entity: VisibleEntityView) -> PipelineKey {
    PipelineKey {
        vertex_layout_id: entity.mesh->0.layout.id,
        material_bind_data: entity.material->0.key,
        primitive_topology: entity.mesh->0.primitive_topology,
    }
}

/// The draw queued for an entity: one instance, without a dynamic offset.
pub open spec fn shadow_item(
    entity: Entity,
    pipeline: PipelineId,
    draw_function: DrawFunctionId,
) -> GridShadow {
    GridShadow {
        entity,
        pipeline,
        draw_function,
        batch_range: BatchRange { start: 0, end: 1 },
        dynamic_offset: None,
    }
}

/// State of queueing: the draws queued so far, the pipeline cache, and the
/// entities skipped for want of a pipeline.
pub ghost struct Queued {
    pub items: Seq<GridShadow>,
    pub cache: PipelineCacheView,
    pub skipped: Seq<SkippedEntity>,
}

/// Queueing one visible entity.  An entity that casts no shadow changes
/// nothing.  One that does is specialised: with a pipeline its draw is
/// appended; without one, because it could not be built or because the
/// material rejected it, the entity is recorded as skipped with that error.
pub open spec fn queue_entity(
    queued: Queued,
    pipeline: GridShadowPipelineView,
    entity: VisibleEntityView,
    draw_function: DrawFunctionId,
) -> Queued {
    if !casts_shadow(entity) {
        queued
    } else {
        let key = pipeline_key(entity);
        let layout = entity.mesh->0.layout;
        let material = entity.material->0.specialization;
        let cache = queued.cache.after(pipeline, key, layout, material);
        match queued.cache.answer(pipeline, key, layout, material) {
            Ok(id) => Queued {
                items: queued.items.push(shadow_item(entity.entity, id, draw_function)),
                cache,
                skipped: queued.skipped,
            },
            Err(error) => Queued {
                items: queued.items,
                cache,
                skipped: queued.skipped.push(SkippedEntity { entity: entity.entity, error }),
            },
        }
    }
}

/// Queueing the visible entities of one grid view, in their order.
pub open spec fn queue_entities(
    queued: Queued,
    pipeline: GridShadowPipelineView,
    visible: Seq<VisibleEntityView>,
    draw_function: DrawFunctionId,
) -> Queued
    decreases visible.len(),
{
    if visible.len() == 0 {
        queued
    } else {
        queue_entity(
            queue_entities(queued, pipeline, visible.drop_last(), draw_function),
            pipeline,
            visible.last(),
            draw_function,
        )
    }
}

impl RenderPhase {
    /// An empty phase.
    pub fn new() -> (phase: Self)
        ensures
            phase.items@.len() == 0,
    {
        RenderPhase { items: Vec::new() }
    }

    /// Appends a draw to the phase.
    pub fn add(&mut self, item: GridShadow)
        ensures
            final(self).items@ == old(self).items@.push(item),
    {
        self.items.push(item);
    }
}

/// Queues the shadow draws of one grid view.
///
/// Every visible entity that casts a shadow and whose mesh and material
/// resolved is specialised and, if a pipeline could be had, appended to the
/// phase; the others leave no trace in the phase.  The entities for which no
/// pipeline could be built are returned, for the caller to report.
pub fn queue_grid_shadow(
    phase: &mut RenderPhase,
    visible: &Vec<VisibleEntity>,
    pipelines: &mut PipelineSpecializer,
    shadow_pipeline: &GridShadowPipeline,
    draw_shadow_mesh: DrawFunctionId,
    skipped: &mut Vec<SkippedEntity>,
)
    requires
        old(pipelines).wf(),
    ensures
        final(pipelines).wf(),
        (Queued {
            items: final(phase).items@,
            cache: final(pipelines)@,
            skipped: final(skipped)@,
        }) == queue_entities(
            (Queued { items: old(phase).items@, cache: old(pipelines)@, skipped: old(skipped)@ }),
            shadow_pipeline@,
            entity_views(visible@),
            draw_shadow_mesh,
        ),
{
    let ghost start = Queued {
        items: phase.items@,
        cache: pipelines@,
        skipped: skipped@,
    };
    let ghost views = entity_views(visible@);
    let mut i: usize = 0;
    assert(views.take(0) =~= Seq::<VisibleEntityView>::empty());
    while i < visible.len()
        invariant
            i <= visible.len(),
            pipelines.wf(),
            views == entity_views(visible@),
            (Queued { items: phase.items@, cache: pipelines@, skipped: skipped@ })
                == queue_entities(start, shadow_pipeline@, views.take(i as int), draw_shadow_mesh),
        decreases visible.len() - i,
    {
        proof {
            assert(views.take(i + 1).drop_last() =~= views.take(i as int));
            assert(views.take(i + 1).last() == visible@[i as int]@);
        }
        let entity = &visible[i];
        if entity.shadow_caster {
            if let (Some(mesh), Some(material)) = (&entity.mesh, &entity.material) {
                let key = PipelineKey {
                    vertex_layout_id: mesh.layout.id,
                    material_bind_data: material.key,
                    primitive_topology: mesh.primitive_topology,
                };
                match pipelines.specialize(
                    shadow_pipeline,
                    key,
                    &mesh.layout,
                    material.specialization,
                ) {
                    Ok(pipeline) => {
                        phase.add(
                            GridShadow {
                                entity: entity.entity,
                                pipeline,
                                draw_function: draw_shadow_mesh,
                                batch_range: BatchRange { start: 0, end: 1 },
                                dynamic_offset: None,
                            },
                        );
                    },
                    Err(error) => {
                        skipped.push(SkippedEntity { entity: entity.entity, error });
                    },
                }
            }
        }
        i += 1;
    }
    assert(views.take(i as int) =~= views);
}

/// One grid view: the entities visible from it and the draws queued for it.
#[derive(Clone, Debug, PartialEq, Eq)]
pub struct GridView {
    pub phase: RenderPhase,
    pub visible_entities: Vec<VisibleEntity>,
}

/// Mathematical value of a [`GridView`].
pub ghost struct GridViewView {
    pub items: Seq<GridShadow>,
    pub visible: Seq<VisibleEntityView>,
}

impl View for GridView {
    type V = GridViewView;

    open spec fn view(&self) -> GridViewView {
        GridViewView { items: self.phase.items@, visible: entity_views(self.visible_entities@) }
    }
}

/// The values of a list of grid views.
pub open spec fn grid_views(grids: Seq<GridView>) -> Seq<GridViewView> {
    Seq::new(grids.len(), |i: int| grids[i]@)
}

/// State of queueing over several grid views: the phase of every view done,
/// the pipeline cache, and the entities skipped for want of a pipeline.
pub ghost struct QueuedGrids {
    pub phases: Seq<Seq<GridShadow>>,
    pub cache: PipelineCacheView,
    pub skipped: Seq<SkippedEntity>,
}

/// Queueing the grid views one after the other, on one pipeline cache.
pub open spec fn queue_grids(
    cache: PipelineCacheView,
    pipeline: GridShadowPipelineView,
    grids: Seq<GridViewView>,
    draw_function: DrawFunctionId,
) -> QueuedGrids
    decreases grids.len(),
{
    if grids.len() == 0 {
        QueuedGrids { phases: Seq::empty(), cache, skipped: Seq::empty() }
    } else {
        let before = queue_grids(cache, pipeline, grids.drop_last(), draw_function);
        let queued = queue_entities(
            Queued { items: grids.last().items, cache: before.cache, skipped: before.skipped },
            pipeline,
            grids.last().visible,
            draw_function,
        );
        QueuedGrids {
            phases: before.phases.push(queued.items),
            cache: queued.cache,
            skipped: queued.skipped,
        }
    }
}

/// Queues the shadow draws of every grid view.
///
/// The views are taken in order and share the pipeline cache.  Each view's
/// phase receives one draw for every entity visible from it that casts a
/// shadow, whose mesh and material resolved and for which a pipeline could be
/// had, in the order of its visible entities.  The entities for which no
/// pipeline could be built are returned, for the caller to report; they do
/// not keep the others from being queued.
pub fn queue_grid_shadows(
    grids: &mut Vec<GridView>,
    pipelines: &mut PipelineSpecializer,
    shadow_pipeline: &GridShadowPipeline,
    draw_shadow_mesh: DrawFunctionId,
) -> (skipped: Vec<SkippedEntity>)
    requires
        old(pipelines).wf(),
    ensures
        final(pipelines).wf(),
        final(grids)@.len() == old(grids)@.len(),
        forall|i: int|
            0 <= i < old(grids)@.len() ==> (#[trigger] final(grids)@[i]).visible_entities
                == old(grids)@[i].visible_entities,
        ({
            let queued = queue_grids(
                old(pipelines)@,
                shadow_pipeline@,
                grid_views(old(grids)@),
                draw_shadow_mesh,
            );
            &&& queued.phases.len() == old(grids)@.len()
            &&& forall|i: int|
                0 <= i < old(grids)@.len() ==> (#[trigger] final(grids)@[i]).phase.items@
                    == queued.phases[i]
            &&& final(pipelines)@ == queued.cache
            &&& skipped@ == queued.skipped
        }),
{
    let mut skipped: Vec<SkippedEntity> = Vec::new();
    let ghost views = grid_views(grids@);
    let ghost start = pipelines@;
    let mut i: usize = 0;
    assert(views.take(0) =~= Seq::<GridViewView>::empty());
    while i < grids.len()
        invariant
            i <= grids.len(),
            grids@.len() == old(grids)@.len(),
            pipelines.wf(),
            views == grid_views(old(grids)@),
            forall|k: int|
                0 <= k < grids@.len() ==> (#[trigger] grids@[k]).visible_entities == old(
                    grids,
                )@[k].visible_entities,
            forall|k: int| i <= k < grids@.len() ==> (#[trigger] grids@[k]) == old(grids)@[k],
            ({
                let queued = queue_grids(
                    start,
                    shadow_pipeline@,
                    views.take(i as int),
                    draw_shadow_mesh,
                );
                &&& queued.phases.len() == i
                &&& forall|k: int|
                    0 <= k < i ==> (#[trigger] grids@[k]).phase.items@ == queued.phases[k]
                &&& pipelines@ == queued.cache
                &&& skipped@ == queued.skipped
            }),
        decreases grids.len() - i,
    {
        proof {
            assert(views.take(i + 1).drop_last() =~= views.take(i as int));
            assert(views.take(i + 1).last() == old(grids)@[i as int]@);
        }
        let grid = &mut grids[i];
        queue_grid_shadow(
            &mut grid.phase,
            &grid.visible_entities,
            pipelines,
            shadow_pipeline,
            draw_shadow_mesh,
            &mut skipped,
        );
        i += 1;
    }
    assert(views.take(i as int) =~= views);
    skipped
}

/// A draw comes from a list of visible entities if one of them is the
/// draw's entity, casts a shadow, and has its mesh and material resolved.
pub open spec fn drawn_from(item: GridShadow, visible: Seq<VisibleEntityView>) -> bool {
    exists|j: int|
        0 <= j < visible.len() && casts_shadow(#[trigger] visible[j]) && visible[j].entity
            == item.entity
}

/// Queueing keeps what the phase held and appends only draws of visible
/// entities that cast a shadow and whose mesh and material resolved.
pub proof fn lemma_queued_cast_shadows(
    queued: Queued,
    pipeline: GridShadowPipelineView,
    visible: Seq<VisibleEntityView>,
    draw_function: DrawFunctionId,
)
    ensures
        queued.items.is_prefix_of(queue_entities(queued, pipeline, visible, draw_function).items),
        forall|k: int|
            queued.items.len() <= k < queue_entities(
                queued,
                pipeline,
                visible,
                draw_function,
            ).items.len() ==> drawn_from(
                #[trigger] queue_entities(queued, pipeline, visible, draw_function).items[k],
                visible,
            ),
    decreases visible.len(),
{
    if visible.len() > 0 {
        let rest = visible.drop_last();
        let before = queue_entities(queued, pipeline, rest, draw_function);
        let after = queue_entities(queued, pipeline, visible, draw_function);
        lemma_queued_cast_shadows(queued, pipeline, rest, draw_function);
        assert forall|k: int| queued.items.len() <= k < after.items.len() implies drawn_from(
            #[trigger] after.items[k],
            visible,
        ) by {
            if k < before.items.len() {
                assert(after.items[k] == before.items[k]);
                assert(drawn_from(before.items[k], rest));
                let j = choose|j: int|
                    0 <= j < rest.len() && casts_shadow(#[trigger] rest[j]) && rest[j].entity
                        == before.items[k].entity;
                assert(visible[j] == rest[j]);
            } else {
                let j = visible.len() - 1;
                assert(casts_shadow(visible[j]));
                assert(visible[j].entity == after.items[k].entity);
            }
        }
    }
}

/// An entity that is not flagged as a shadow caster is never queued, whether
/// or not its mesh and its material resolved.
pub proof fn lemma_non_caster_never_queued(
    queued: Queued,
    pipeline: GridShadowPipelineView,
    visible: Seq<VisibleEntityView>,
    draw_function: DrawFunctionId,
    entity: Entity,
)
    requires
        forall|j: int|
            0 <= j < visible.len() && (#[trigger] visible[j]).entity == entity
                ==> !visible[j].shadow_caster,
    ensures
        forall|k: int|
            queued.items.len() <= k < queue_entities(
                queued,
                pipeline,
                visible,
                draw_function,
            ).items.len() ==> (#[trigger] queue_entities(
                queued,
                pipeline,
                visible,
                draw_function,
            ).items[k]).entity != entity,
{
    lemma_queued_cast_shadows(queued, pipeline, visible, draw_function);
    let after = queue_entities(queued, pipeline, visible, draw_function);
    assert forall|k: int| queued.items.len() <= k < after.items.len() implies (
    #[trigger] after.items[k]).entity != entity by {
        assert(drawn_from(after.items[k], visible));
    }
}

/// Over several grid views, too, the phase of each view keeps what it held
/// and gains only draws of entities that are visible from that view, cast a
/// shadow and have their mesh and material resolved.
pub proof fn lemma_queued_grids_cast_shadows(
    cache: PipelineCacheView,
    pipeline: GridShadowPipelineView,
    grids: Seq<GridViewView>,
    draw_function: DrawFunctionId,
)
    ensures
        queue_grids(cache, pipeline, grids, draw_function).phases.len() == grids.len(),
        forall|g: int|
            0 <= g < grids.len() ==> (#[trigger] grids[g]).items.is_prefix_of(
                queue_grids(cache, pipeline, grids, draw_function).phases[g],
            ),
        forall|g: int, k: int|
            0 <= g < grids.len() && grids[g].items.len() <= k < queue_grids(
                cache,
                pipeline,
                grids,
                draw_function,
            ).phases[g].len() ==> drawn_from(
                #[trigger] queue_grids(cache, pipeline, grids, draw_function).phases[g][k],
                grids[g].visible,
            ),
    decreases grids.len(),
{
    if grids.len() > 0 {
        let rest = grids.drop_last();
        let last = grids.last();
        let before = queue_grids(cache, pipeline, rest, draw_function);
        let after = queue_grids(cache, pipeline, grids, draw_function);
        let start = Queued { items: last.items, cache: before.cache, skipped: before.skipped };
        lemma_queued_grids_cast_shadows(cache, pipeline, rest, draw_function);
        lemma_queued_cast_shadows(start, pipeline, last.visible, draw_function);
        assert forall|g: int| 0 <= g < grids.len() implies (#[trigger] grids[g]).items.is_prefix_of(
            after.phases[g],
        ) by {
            if g < rest.len() {
                assert(grids[g] == rest[g]);
                assert(after.phases[g] == before.phases[g]);
            }
        }
        assert forall|g: int, k: int|
            0 <= g < grids.len() && grids[g].items.len() <= k < after.phases[g].len() implies drawn_from(
            #[trigger] after.phases[g][k],
            grids[g].visible,
        ) by {
            if g < rest.len() {
                assert(grids[g] == rest[g]);
                assert(after.phases[g] == before.phases[g]);
                assert(drawn_from(before.phases[g][k], rest[g].visible));
            }
        }
    }
}

/// An entity that is not flagged as a shadow caster in any grid view is
/// queued into no phase, whether or not its mesh and its material resolved.
pub proof fn lemma_non_caster_in_no_phase(
    cache: PipelineCacheView,
    pipeline: GridShadowPipelineView,
    grids: Seq<GridViewView>,
    draw_function: DrawFunctionId,
    entity: Entity,
)
    requires
        forall|g: int, j: int|
            0 <= g < grids.len() && 0 <= j < grids[g].visible.len() && (
            #[trigger] grids[g].visible[j]).entity == entity ==> !grids[g].visible[j].shadow_caster,
    ensures
        forall|g: int, k: int|
            0 <= g < grids.len() && grids[g].items.len() <= k < queue_grids(
                cache,
                pipeline,
                grids,
                draw_function,
            ).phases[g].len() ==> (#[trigger] queue_grids(
                cache,
                pipeline,
                grids,
                draw_function,
            ).phases[g][k]).entity != entity,
{
    lemma_queued_grids_cast_shadows(cache, pipeline, grids, draw_function);
    let after = queue_grids(cache, pipeline, grids, draw_function);
    assert forall|g: int, k: int|
        0 <= g < grids.len() && grids[g].items.len() <= k < after.phases[g].len() implies (
    #[trigger] after.phases[g][k]).entity != entity by {
        assert(drawn_from(after.phases[g][k], grids[g].visible));
    }
}

/// A draw is rendered with the cached pipeline of its entity if one of the
/// visible entities is the draw's entity, casts a shadow, and has the key
/// under which the cache holds the draw's pipeline.
pub open spec fn drawn_with_cached_pipeline(
    item: GridShadow,
    visible: Seq<VisibleEntityView>,
    cache: PipelineCacheView,
) -> bool {
    exists|j: int|
        0 <= j < visible.len() && casts_shadow(#[trigger] visible[j]) && visible[j].entity
            == item.entity && cache.lookup(pipeline_key(visible[j])) == Some(item.pipeline)
}

/// Queueing only adds to the cache, and every draw it appends is rendered
/// with the pipeline that the cache then holds for the key of its entity.
/// Draws of entities with equal keys are therefore rendered with the same
/// pipeline, within one grid view and, since the cache keeps its handles,
/// from one call to the next.
pub proof fn lemma_queued_pipelines_are_cached(
    queued: Queued,
    pipeline: GridShadowPipelineView,
    visible: Seq<VisibleEntityView>,
    draw_function: DrawFunctionId,
)
    requires
        queued.cache.wf(),
    ensures
        queue_entities(queued, pipeline, visible, draw_function).cache.wf(),
        forall|key: PipelineKey|
            queued.cache.lookup(key) is Some ==> #[trigger] queue_entities(
                queued,
                pipeline,
                visible,
                draw_function,
            ).cache.lookup(key) == queued.cache.lookup(key),
        forall|k: int|
            queued.items.len() <= k < queue_entities(
                queued,
                pipeline,
                visible,
                draw_function,
            ).items.len() ==> drawn_with_cached_pipeline(
                #[trigger] queue_entities(queued, pipeline, visible, draw_function).items[k],
                visible,
                queue_entities(queued, pipeline, visible, draw_function).cache,
            ),
    decreases visible.len(),
{
    if visible.len() > 0 {
        let rest = visible.drop_last();
        let last = visible.last();
        let before = queue_entities(queued, pipeline, rest, draw_function);
        let after = queue_entities(queued, pipeline, visible, draw_function);
        lemma_queued_pipelines_are_cached(queued, pipeline, rest, draw_function);
        lemma_queued_cast_shadows(queued, pipeline, rest, draw_function);
        if casts_shadow(last) {
            let key = pipeline_key(last);
            let layout = last.mesh->0.layout;
            let material = last.material->0.specialization;
            assert forall|other: PipelineKey| before.cache.lookup(other) is Some implies (
            #[trigger] after.cache.lookup(other)) == before.cache.lookup(other) by {
                lemma_specialize_grows(before.cache, pipeline, key, layout, material, other);
            }
            lemma_specialize_grows(before.cache, pipeline, key, layout, material, key);
            if before.cache.lookup(key) is None && before.cache.answer(
                pipeline,
                key,
                layout,
                material,
            ) is Ok {
                lemma_push_distinct(before.cache.keys, key);
            }
        }
        assert forall|k: int|
            queued.items.len() <= k < after.items.len() implies drawn_with_cached_pipeline(
            #[trigger] after.items[k],
            visible,
            after.cache,
        ) by {
            if k < before.items.len() {
                assert(after.items[k] == before.items[k]);
                assert(drawn_with_cached_pipeline(before.items[k], rest, before.cache));
                let j = choose|j: int|
                    0 <= j < rest.len() && casts_shadow(#[trigger] rest[j]) && rest[j].entity
                        == before.items[k].entity && before.cache.lookup(pipeline_key(rest[j]))
                        == Some(before.items[k].pipeline);
                assert(visible[j] == rest[j]);
                assert(after.cache.lookup(pipeline_key(visible[j])) == before.cache.lookup(
                    pipeline_key(visible[j]),
                ));
            } else {
                let j = visible.len() - 1;
                assert(casts_shadow(visible[j]));
                assert(visible[j].entity == after.items[k].entity);
                assert(after.cache.lookup(pipeline_key(visible[j])) == Some(
                    after.items[k].pipeline,
                ));
            }
        }
    }
}

/// Over several grid views the same holds against the cache as it stands at
/// the end: every draw appended to any phase is rendered with the pipeline
/// that the cache holds for the key of its entity, so that draws of equal keys
/// share a pipeline across grid views.
pub proof fn lemma_queued_grids_pipelines_are_cached(
    cache: PipelineCacheView,
    pipeline: GridShadowPipelineView,
    grids: Seq<GridViewView>,
    draw_function: DrawFunctionId,
)
    requires
        cache.wf(),
    ensures
        queue_grids(cache, pipeline, grids, draw_function).cache.wf(),
        queue_grids(cache, pipeline, grids, draw_function).phases.len() == grids.len(),
        forall|key: PipelineKey|
            cache.lookup(key) is Some ==> #[trigger] queue_grids(
                cache,
                pipeline,
                grids,
                draw_function,
            ).cache.lookup(key) == cache.lookup(key),
        forall|g: int, k: int|
            0 <= g < grids.len() && grids[g].items.len() <= k < queue_grids(
                cache,
                pipeline,
                grids,
                draw_function,
            ).phases[g].len() ==> drawn_with_cached_pipeline(
                #[trigger] queue_grids(cache, pipeline, grids, draw_function).phases[g][k],
                grids[g].visible,
                queue_grids(cache, pipeline, grids, draw_function).cache,
            ),
    decreases grids.len(),
{
    if grids.len() > 0 {
        let rest = grids.drop_last();
        let last = grids.last();
        let before = queue_grids(cache, pipeline, rest, draw_function);
        let after = queue_grids(cache, pipeline, grids, draw_function);
        let start = Queued { items: last.items, cache: before.cache, skipped: before.skipped };
        lemma_queued_grids_pipelines_are_cached(cache, pipeline, rest, draw_function);
        lemma_queued_pipelines_are_cached(start, pipeline, last.visible, draw_function);
        assert forall|key: PipelineKey| cache.lookup(key) is Some implies (
        #[trigger] after.cache.lookup(key)) == cache.lookup(key) by {
            assert(before.cache.lookup(key) == cache.lookup(key));
        }
        assert forall|g: int, k: int|
            0 <= g < grids.len() && grids[g].items.len() <= k
                < after.phases[g].len() implies drawn_with_cached_pipeline(
            #[trigger] after.phases[g][k],
            grids[g].visible,
            after.cache,
        ) by {
            if g < rest.len() {
                assert(grids[g] == rest[g]);
                assert(after.phases[g] == before.phases[g]);
                let item = before.phases[g][k];
                assert(drawn_with_cached_pipeline(item, rest[g].visible, before.cache));
                let j = choose|j: int|
                    0 <= j < rest[g].visible.len() && casts_shadow(#[trigger] rest[g].visible[j])
                        && rest[g].visible[j].entity == item.entity && before.cache.lookup(
                        pipeline_key(rest[g].visible[j]),
                    ) == Some(item.pipeline);
                assert(after.cache.lookup(pipeline_key(rest[g].visible[j]))
                    == before.cache.lookup(pipeline_key(rest[g].visible[j])));
            }
        }
    }
}

} // verus!
