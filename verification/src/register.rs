//! Setting up the shadow subsystem and its place in the frame.

use vstd::prelude::*;
use crate::bind_group::GridShadowMeta;
use crate::pass::GridShadowPassNode;
use crate::pipeline::{pipeline_of_world, GridShadowPipeline, World};
use crate::settings::RenderSettings;
use crate::specializer::PipelineSpecializer;
use crate::texture::TexturePool;

verus! {

/// The stages of a frame, in the order in which the host runs them.  Each
/// stage is complete before the next begins.
#[derive(Clone, Copy, Debug, PartialEq, Eq, Hash, Structural)]
pub enum RenderSet {
    /// Views and textures are prepared.
    Prepare,
    /// Bind groups are made.
    PrepareBindGroups,
    /// Draws are culled, specialised and queued.
    Queue,
    /// The render graph runs its nodes.
    Render,
}

/// The steps of the shadow subsystem.
#[derive(Clone, Copy, Debug, PartialEq, Eq, Hash, Structural)]
pub enum ShadowSystem {
    PrepareGridShadowViews,
    PrepareGridShadowBindGroups,
    PrepareGridShadowViewBindGroup,
    QueueGridShadows,
    GridShadowPass,
}

/// A step with the stage that it runs in.
#[derive(Clone, Copy, Debug, PartialEq, Eq, Hash, Structural)]
pub struct ScheduledSystem {
    pub system: ShadowSystem,
    pub set: RenderSet,
}

/// A node of the host's render graph.
#[derive(Clone, Copy, Debug, PartialEq, Eq, Hash, Structural)]
pub enum GraphNode {
    /// The node of the shadow pass.
    GridShadowPass,
    /// The node that ends the host's main pass.
    EndMainPass,
}

/// An ordering of two nodes of the render graph: `before` runs first.
#[derive(Clone, Copy, Debug, PartialEq, Eq, Hash, Structural)]
pub struct GraphEdge {
    pub before: GraphNode,
    pub after: GraphNode,
}

/// Position of a stage in the frame.
pub open spec fn stage_rank(set: RenderSet) -> int {
    match set {
        RenderSet::Prepare => 0,
        RenderSet::PrepareBindGroups => 1,
        RenderSet::Queue => 2,
        RenderSet::Render => 3,
    }
}

/// The steps of the shadow subsystem in the order of a frame: the views are
/// prepared, then the bind groups, then the draws are queued, then the pass
/// runs.
pub open spec fn shadow_schedule() -> Seq<ScheduledSystem> {
    seq![
        ScheduledSystem { system: ShadowSystem::PrepareGridShadowViews, set: RenderSet::Prepare },
        ScheduledSystem {
            system: ShadowSystem::PrepareGridShadowBindGroups,
            set: RenderSet::PrepareBindGroups,
        },
        ScheduledSystem {
            system: ShadowSystem::PrepareGridShadowViewBindGroup,
            set: RenderSet::PrepareBindGroups,
        },
        ScheduledSystem { system: ShadowSystem::QueueGridShadows, set: RenderSet::Queue },
        ScheduledSystem { system: ShadowSystem::GridShadowPass, set: RenderSet::Render },
    ]
}

/// The one ordering that the shadow pass asks of the render graph: it runs
/// before the main pass ends.
pub open spec fn shadow_pass_edge() -> GraphEdge {
    GraphEdge { before: GraphNode::GridShadowPass, after: GraphNode::EndMainPass }
}

/// Everything the shadow subsystem owns, as it is registered with the host.
pub struct ShadowSubsystem {
    pub meta: GridShadowMeta,
    pub pipeline: GridShadowPipeline,
    pub pipelines: PipelineSpecializer,
    pub settings: RenderSettings,
    pub texture_cache: TexturePool,
    pub node: GridShadowPassNode,
    pub schedule: Vec<ScheduledSystem>,
    pub edge: GraphEdge,
}

/// Sets up the shadow subsystem for a world.
///
/// The subsystem starts without a view bind group, with the pipeline
/// resources of the world, with an empty pipeline cache and an empty texture
/// pool, with the given settings and with a pass node that knows no grid.  Its
/// steps are scheduled in the order of a frame, and its pass is ordered before
/// the end of the main pass.
pub fn register_shadow(world: &World, render_settings: &RenderSettings) -> (subsystem:
    ShadowSubsystem)
    ensures
        subsystem.meta.view_bind_group is None,
        subsystem.pipeline@ == pipeline_of_world(*world),
        subsystem.pipelines.wf(),
        subsystem.pipelines@.keys.len() == 0,
        subsystem.pipelines@.pipelines.len() == 0,
        subsystem.settings == *render_settings,
        subsystem.texture_cache.wf(),
        subsystem.texture_cache@.len() == 0,
        subsystem.node@.len() == 0,
        subsystem.schedule@ == shadow_schedule(),
        subsystem.edge == shadow_pass_edge(),
{
    let mut schedule: Vec<ScheduledSystem> = Vec::new();
    schedule.push(
        ScheduledSystem { system: ShadowSystem::PrepareGridShadowViews, set: RenderSet::Prepare },
    );
    schedule.push(
        ScheduledSystem {
            system: ShadowSystem::PrepareGridShadowBindGroups,
            set: RenderSet::PrepareBindGroups,
        },
    );
    schedule.push(
        ScheduledSystem {
            system: ShadowSystem::PrepareGridShadowViewBindGroup,
            set: RenderSet::PrepareBindGroups,
        },
    );
    schedule.push(
        ScheduledSystem { system: ShadowSystem::QueueGridShadows, set: RenderSet::Queue },
    );
    schedule.push(ScheduledSystem { system: ShadowSystem::GridShadowPass, set: RenderSet::Render });
    assert(schedule@ =~= shadow_schedule());
    ShadowSubsystem {
        meta: GridShadowMeta::default(),
        pipeline: GridShadowPipeline::from_world(world),
        pipelines: PipelineSpecializer::new(),
        settings: *render_settings,
        texture_cache: TexturePool::new(),
        node: GridShadowPassNode::new(),
        schedule,
        edge: GraphEdge { before: GraphNode::GridShadowPass, after: GraphNode::EndMainPass },
    }
}

/// No step of the schedule runs in an earlier stage than the step before it.
pub proof fn lemma_schedule_follows_the_frame(i: int, j: int)
    requires
        0 <= i <= j < shadow_schedule().len(),
    ensures
        stage_rank(shadow_schedule()[i].set) <= stage_rank(shadow_schedule()[j].set),
{
}

} // verus!
