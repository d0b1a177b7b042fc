//! The render-graph node of the shadow pass and the passes that it records.

use vstd::prelude::*;
use crate::bind_group::{
    BindGroup, BindGroupView, GridShadowBindGroup, GridShadowMeta, GridShadowUniformOffset,
    ViewUniformOffset,
};
use crate::entity::Entity;
use crate::queue::{BatchRange, GridShadow, RenderPhase};
use crate::specializer::PipelineId;
use crate::texture::TextureId;
use crate::view::ShadowView;

verus! {

/// What a render pass does to its target before the first draw.
#[derive(Clone, Copy, Debug, PartialEq, Eq, Hash, Structural)]
pub enum LoadOp {
    /// The target is cleared to black.
    ClearBlack,
    /// The target keeps what it held.
    Load,
}

/// What a render pass does with its target after the last draw.
#[derive(Clone, Copy, Debug, PartialEq, Eq, Hash, Structural)]
pub enum StoreOp {
    Store,
    Discard,
}

/// One step of a draw, recorded into a render pass.
#[derive(Clone, Copy, Debug, PartialEq, Eq, Hash, Structural)]
pub enum DrawCommand {
    /// Binds the specialised pipeline of the draw.
    SetPipeline(PipelineId),
    /// Binds the view bind group at slot `index`, at the offset of the view's
    /// uniform.
    SetViewBindGroup { index: usize, offset: u32 },
    /// Binds the bind group of the entity's material at slot `index`.
    SetMaterialBindGroup { index: usize, entity: Entity },
    /// Binds the bind group of the entity's mesh at slot `index`.
    SetMeshBindGroup { index: usize, entity: Entity, dynamic_offset: Option<u32> },
    /// Draws the entity's mesh, once per instance of the range.
    DrawMesh { entity: Entity, instances: BatchRange },
}

/// A render pass into a shadow texture, with the draws recorded into it.
#[derive(Clone, Debug, PartialEq, Eq)]
pub struct ShadowPass {
    pub label: &'static str,
    /// The grid whose shadows the pass renders.
    pub entity: Entity,
    /// The only colour attachment: the grid's shadow texture.
    pub view: TextureId,
    pub load: LoadOp,
    pub store: StoreOp,
    /// Whether the pass has a depth and stencil attachment.
    pub depth_stencil_attachment: bool,
    pub commands: Vec<DrawCommand>,
}

/// Mathematical value of a [`ShadowPass`].
pub ghost struct ShadowPassView {
    pub label: Seq<char>,
    pub entity: Entity,
    pub view: TextureId,
    pub load: LoadOp,
    pub store: StoreOp,
    pub depth_stencil_attachment: bool,
    pub commands: Seq<DrawCommand>,
}

impl View for ShadowPass {
    type V = ShadowPassView;

    open spec fn view(&self) -> ShadowPassView {
        ShadowPassView {
            label: self.label@,
            entity: self.entity,
            view: self.view,
            load: self.load,
            store: self.store,
            depth_stencil_attachment: self.depth_stencil_attachment,
            commands: self.commands@,
        }
    }
}

/// Label of every shadow pass.
pub const SHADOW_PASS_LABEL: &'static str = "grid_shadow_pass";

/// Slot of the view bind group in a shadow pipeline.
pub const VIEW_BIND_GROUP_SLOT: usize = 0;

/// Slot of the material's bind group in a shadow pipeline.
pub const MATERIAL_BIND_GROUP_SLOT: usize = 1;

/// Slot of the mesh's bind group in a shadow pipeline.
pub const MESH_BIND_GROUP_SLOT: usize = 2;

/// What a grid holds when the shadow pass runs: its shadow view, its queued
/// draws and the offset of its view uniform.
#[derive(Clone, Debug, PartialEq, Eq)]
pub struct GridFrame {
    pub shadow_view: ShadowView,
    pub phase: RenderPhase,
    pub view_uniform_offset: ViewUniformOffset,
}

/// Mathematical value of a [`GridFrame`].
pub ghost struct GridFrameView {
    pub shadow_view: ShadowView,
    pub items: Seq<GridShadow>,
    pub view_uniform_offset: ViewUniformOffset,
}

impl View for GridFrame {
    type V = GridFrameView;

    open spec fn view(&self) -> GridFrameView {
        GridFrameView {
            shadow_view: self.shadow_view,
            items: self.phase.items@,
            view_uniform_offset: self.view_uniform_offset,
        }
    }
}

/// The values of a list of grid frames.
pub open spec fn frame_views(frames: Seq<GridFrame>) -> Seq<GridFrameView> {
    Seq::new(frames.len(), |i: int| frames[i]@)
}

/// The steps of one draw: bind the pipeline, the view bind group at the
/// view's offset, the material's bind group and the mesh's bind group, then
/// draw the mesh.
pub open spec fn draw_commands(item: GridShadow, view_uniform_offset: ViewUniformOffset) -> Seq<
    DrawCommand,
> {
    seq![
        DrawCommand::SetPipeline(item.pipeline),
        DrawCommand::SetViewBindGroup {
            index: VIEW_BIND_GROUP_SLOT,
            offset: view_uniform_offset.offset,
        },
        DrawCommand::SetMaterialBindGroup { index: MATERIAL_BIND_GROUP_SLOT, entity: item.entity },
        DrawCommand::SetMeshBindGroup {
            index: MESH_BIND_GROUP_SLOT,
            entity: item.entity,
            dynamic_offset: item.dynamic_offset,
        },
        DrawCommand::DrawMesh { entity: item.entity, instances: item.batch_range },
    ]
}

/// The steps of the draws of a phase, one draw after the other.
pub open spec fn phase_commands(
    items: Seq<GridShadow>,
    view_uniform_offset: ViewUniformOffset,
) -> Seq<DrawCommand>
    decreases items.len(),
{
    if items.len() == 0 {
        Seq::empty()
    } else {
        phase_commands(items.drop_last(), view_uniform_offset) + draw_commands(
            items.last(),
            view_uniform_offset,
        )
    }
}

/// What a pass records of a phase: the steps of all its draws if the view
/// bind group is there, and nothing if it is not, since no draw can then bind
/// it and every draw is skipped.
pub open spec fn recorded_commands(
    items: Seq<GridShadow>,
    view_uniform_offset: ViewUniformOffset,
    view_bind_group: bool,
) -> Seq<DrawCommand> {
    if view_bind_group {
        phase_commands(items, view_uniform_offset)
    } else {
        Seq::empty()
    }
}

/// The shadow pass of a grid: it clears the grid's shadow texture to black,
/// records the grid's draws and stores the result; it has no depth or stencil
/// attachment.  Without the view bind group the pass is recorded all the
/// same, with all draws skipped: the texture is cleared and holds no shadow.
pub open spec fn shadow_pass(frame: GridFrameView, view_bind_group: bool) -> ShadowPassView {
    ShadowPassView {
        label: SHADOW_PASS_LABEL@,
        entity: frame.shadow_view.entity,
        view: frame.shadow_view.texture_view,
        load: LoadOp::ClearBlack,
        store: StoreOp::Store,
        depth_stencil_attachment: false,
        commands: recorded_commands(frame.items, frame.view_uniform_offset, view_bind_group),
    }
}

/// Position of the first frame of `entity`, or the number of frames if it has
/// none.
pub open spec fn frame_index(frames: Seq<GridFrameView>, entity: Entity) -> int
    decreases frames.len(),
{
    if frames.len() == 0 {
        0
    } else if frames[0].shadow_view.entity == entity {
        0
    } else {
        1 + frame_index(frames.subrange(1, frames.len() as int), entity)
    }
}

/// Whether `entity` has a frame.
pub open spec fn has_frame(frames: Seq<GridFrameView>, entity: Entity) -> bool {
    exists|j: int| 0 <= j < frames.len() && (#[trigger] frames[j]).shadow_view.entity == entity
}

/// Whether the shadow passes of the grids can be recorded: every grid has a
/// frame.
pub open spec fn can_record(grids: Seq<Entity>, frames: Seq<GridFrameView>) -> bool {
    forall|i: int| 0 <= i < grids.len() ==> has_frame(frames, #[trigger] grids[i])
}

/// The frame index is in range exactly for an entity that has a frame, and
/// then it is the first frame of that entity.
pub proof fn lemma_frame_index(frames: Seq<GridFrameView>, entity: Entity)
    ensures
        0 <= frame_index(frames, entity) <= frames.len(),
        has_frame(frames, entity) <==> frame_index(frames, entity) < frames.len(),
        frame_index(frames, entity) < frames.len() ==> frames[frame_index(
            frames,
            entity,
        )].shadow_view.entity == entity,
        forall|k: int|
            0 <= k < frame_index(frames, entity) ==> (#[trigger] frames[k]).shadow_view.entity
                != entity,
    decreases frames.len(),
{
    if frames.len() > 0 && frames[0].shadow_view.entity != entity {
        let rest = frames.subrange(1, frames.len() as int);
        lemma_frame_index(rest, entity);
        let r = frame_index(rest, entity);
        if has_frame(frames, entity) {
            let j = choose|j: int|
                0 <= j < frames.len() && (#[trigger] frames[j]).shadow_view.entity == entity;
            assert(rest[j - 1] == frames[j]);
            assert(has_frame(rest, entity));
        }
        if r < rest.len() {
            assert(rest[r] == frames[r + 1]);
            assert(has_frame(frames, entity));
        }
        assert forall|k: int| 0 <= k < 1 + r implies (#[trigger] frames[k]).shadow_view.entity
            != entity by {
            if k > 0 {
                assert(rest[k - 1] == frames[k]);
            }
        }
    }
}

/// A bind group to be bound at a slot, at an offset into its uniform buffer.
#[derive(Clone, Debug, PartialEq, Eq)]
pub struct BoundBindGroup<'a> {
    pub index: usize,
    pub bind_group: &'a BindGroup,
    pub offset: u32,
}

/// Binds the view bind group of the shadow pipelines at slot `I`.
pub struct SetGridShadowViewBindGroup<const I: usize>;

impl<const I: usize> SetGridShadowViewBindGroup<I> {
    /// What is to be bound for a draw: the view bind group at the offset of
    /// the view's uniform.  While the bind group has not been prepared there
    /// is nothing to bind, and the draw is to be skipped.
    pub fn render<'a>(meta: &'a GridShadowMeta, view_uniform_offset: ViewUniformOffset) -> (bound:
        Option<BoundBindGroup<'a>>)
        ensures
            meta.view_bind_group is None ==> bound is None,
            meta.view_bind_group is Some ==> bound is Some && bound->0.index == I && Some(
                bound->0.bind_group@,
            ) == meta@ && bound->0.offset == view_uniform_offset.offset,
    {
        match &meta.view_bind_group {
            Some(bind_group) => Some(
                BoundBindGroup { index: I, bind_group, offset: view_uniform_offset.offset },
            ),
            None => None,
        }
    }
}

/// Binds the shadow bind group of a grid at slot `I`, for the pass that
/// shades the grid.
pub struct SetGridShadowBindGroup<const I: usize>;

impl<const I: usize> SetGridShadowBindGroup<I> {
    /// What is to be bound for a grid: its shadow bind group at the offset of
    /// its shadow uniform, or nothing for a grid that has none of the two.
    pub fn render<'a>(
        bg_offset: Option<(&'a GridShadowBindGroup, GridShadowUniformOffset)>,
    ) -> (bound: Option<BoundBindGroup<'a>>)
        ensures
            match bg_offset {
                Some((bind_group, offset)) => bound is Some && bound->0.index == I
                    && bound->0.bind_group@ == bind_group@ && bound->0.offset == offset.offset,
                None => bound is None,
            },
    {
        match bg_offset {
            Some((bind_group, offset)) => Some(
                BoundBindGroup {
                    index: I,
                    bind_group: bind_group.bind_group(),
                    offset: offset.offset,
                },
            ),
            None => None,
        }
    }
}

/// The grids that have a frame, in the order of the frames.
pub open spec fn snapshot(frames: Seq<GridFrameView>) -> Seq<Entity> {
    Seq::new(frames.len(), |i: int| frames[i].shadow_view.entity)
}

/// The shadow passes of the given grids, in their order: each grid's pass is
/// built from the first frame of that grid, and a grid that has no frame is
/// passed over.
pub open spec fn shadow_passes(
    grids: Seq<Entity>,
    frames: Seq<GridFrameView>,
    view_bind_group: bool,
) -> Seq<ShadowPassView>
    decreases grids.len(),
{
    if grids.len() == 0 {
        Seq::empty()
    } else {
        let before = shadow_passes(grids.drop_last(), frames, view_bind_group);
        if has_frame(frames, grids.last()) {
            before.push(shadow_pass(frames[frame_index(frames, grids.last())], view_bind_group))
        } else {
            before
        }
    }
}

/// The values of a list of passes.
pub open spec fn pass_views(passes: Seq<ShadowPass>) -> Seq<ShadowPassView> {
    Seq::new(passes.len(), |i: int| passes[i]@)
}

/// The render-graph node of the shadow pass.  It holds the grids that had a
/// shadow view when it was last updated.
#[derive(Clone, Debug, PartialEq, Eq)]
pub struct GridShadowPassNode {
    grids: Vec<Entity>,
}

impl View for GridShadowPassNode {
    type V = Seq<Entity>;

    closed spec fn view(&self) -> Seq<Entity> {
        self.grids@
    }
}

impl GridShadowPassNode {
    /// A node that knows no grid yet.
    pub fn new() -> (node: Self)
        ensures
            node@.len() == 0,
    {
        GridShadowPassNode { grids: Vec::new() }
    }

    /// The grids that the node will render, in order.
    pub fn grids(&self) -> (grids: &Vec<Entity>)
        ensures
            grids@ == self@,
    {
        &self.grids
    }

    /// Takes a snapshot of the grids that have a shadow view in `world`.
    pub fn update(&mut self, world: &Vec<GridFrame>)
        ensures
            final(self)@ == snapshot(frame_views(world@)),
    {
        self.grids.clear();
        let mut i: usize = 0;
        while i < world.len()
            invariant
                i <= world.len(),
                self.grids@.len() == i,
                forall|k: int| 0 <= k < i ==> self.grids@[k] == world@[k].shadow_view.entity,
            decreases world.len() - i,
        {
            self.grids.push(world[i].shadow_view.entity);
            i += 1;
        }
        assert(self.grids@ =~= snapshot(frame_views(world@)));
    }

    /// Records the shadow pass of every grid of the snapshot, in snapshot
    /// order.
    ///
    /// Each pass targets the grid's shadow texture, clears it to black,
    /// executes the grid's queued draws one after the other and stores the
    /// result.  With no grid in the snapshot no pass is recorded.
    ///
    /// Nothing keeps the node from running.  While the view bind group has
    /// not been prepared the passes are recorded without any draw: the frame
    /// goes on, with empty shadow textures.  A grid of the snapshot that has
    /// lost its frame is passed over for the frame.
    pub fn run(&self, meta: &GridShadowMeta, world: &Vec<GridFrame>) -> (passes: Vec<ShadowPass>)
        ensures
            pass_views(passes@) == shadow_passes(
                self@,
                frame_views(world@),
                meta.view_bind_group is Some,
            ),
            passes@.len() <= self@.len(),
            can_record(self@, frame_views(world@)) ==> passes@.len() == self@.len() && forall|
                i: int,
            |
                0 <= i < self@.len() ==> (#[trigger] passes@[i])@ == shadow_pass(
                    frame_views(world@)[frame_index(frame_views(world@), self@[i])],
                    meta.view_bind_group is Some,
                ),
            forall|k: int|
                0 <= k < passes@.len() ==> {
                    let pass = #[trigger] passes@[k];
                    &&& self@.contains(pass.entity)
                    &&& pass.load == LoadOp::ClearBlack
                    &&& pass.store == StoreOp::Store
                    &&& !pass.depth_stencil_attachment
                    &&& meta.view_bind_group is None ==> pass.commands@.len() == 0
                },
    {
        let ghost frames = frame_views(world@);
        let ghost bound = meta.view_bind_group is Some;
        let mut passes: Vec<ShadowPass> = Vec::new();
        let mut i: usize = 0;
        assert(self@.take(0) =~= Seq::<Entity>::empty());
        assert(pass_views(passes@) =~= Seq::<ShadowPassView>::empty());
        while i < self.grids.len()
            invariant
                i <= self.grids.len(),
                frames == frame_views(world@),
                bound == (meta.view_bind_group is Some),
                pass_views(passes@) == shadow_passes(self@.take(i as int), frames, bound),
            decreases self.grids.len() - i,
        {
            let entity = self.grids[i];
            proof {
                assert(self@.take(i + 1).drop_last() =~= self@.take(i as int));
                assert(self@.take(i + 1).last() == entity);
            }
            if let Some(j) = find_frame(world, entity) {
                let frame = &world[j];
                let commands = record_phase(meta, &frame.phase, frame.view_uniform_offset);
                let ghost before = pass_views(passes@);
                passes.push(
                    ShadowPass {
                        label: SHADOW_PASS_LABEL,
                        entity: frame.shadow_view.entity,
                        view: frame.shadow_view.texture_view,
                        load: LoadOp::ClearBlack,
                        store: StoreOp::Store,
                        depth_stencil_attachment: false,
                        commands,
                    },
                );
                assert(pass_views(passes@) =~= before.push(shadow_pass(frames[j as int], bound)));
            }
            i += 1;
        }
        proof {
            assert(self@.take(i as int) =~= self@);
            let recorded = shadow_passes(self@, frames, bound);
            lemma_every_pass_clears_and_stores(self@, frames, bound);
            assert forall|k: int| 0 <= k < passes@.len() implies {
                let pass = #[trigger] passes@[k];
                &&& self@.contains(pass.entity)
                &&& pass.load == LoadOp::ClearBlack
                &&& pass.store == StoreOp::Store
                &&& !pass.depth_stencil_attachment
                &&& meta.view_bind_group is None ==> pass.commands@.len() == 0
            } by {
                assert(passes@[k]@ == pass_views(passes@)[k]);
                assert(passes@[k]@ == recorded[k]);
            }
            if can_record(self@, frames) {
                lemma_one_pass_per_grid(self@, frames, bound);
                assert forall|g: int| 0 <= g < self@.len() implies (#[trigger] passes@[g])@
                    == shadow_pass(frames[frame_index(frames, self@[g])], bound) by {
                    assert(passes@[g]@ == pass_views(passes@)[g]);
                    assert(recorded[g] == shadow_pass(
                        frames[frame_index(frames, self@[g])],
                        bound,
                    ));
                }
            }
        }
        passes
    }
}

/// Finds the first frame of a grid, if it has one.
fn find_frame(world: &Vec<GridFrame>, entity: Entity) -> (found: Option<usize>)
    ensures
        found is Some <==> has_frame(frame_views(world@), entity),
        found is Some ==> found->0 == frame_index(frame_views(world@), entity) && found->0
            < world@.len(),
{
    let ghost frames = frame_views(world@);
    proof {
        lemma_frame_index(frames, entity);
    }
    let mut j: usize = 0;
    while j < world.len()
        invariant
            j <= world.len(),
            frames == frame_views(world@),
            forall|k: int| 0 <= k < j ==> (#[trigger] frames[k]).shadow_view.entity != entity,
            0 <= frame_index(frames, entity) <= frames.len(),
            has_frame(frames, entity) <==> frame_index(frames, entity) < frames.len(),
            frame_index(frames, entity) < frames.len() ==> frames[frame_index(
                frames,
                entity,
            )].shadow_view.entity == entity,
            forall|k: int|
                0 <= k < frame_index(frames, entity) ==> (#[trigger] frames[k]).shadow_view.entity
                    != entity,
        decreases world.len() - j,
    {
        if world[j].shadow_view.entity == entity {
            assert(frames[j as int].shadow_view.entity == entity);
            assert(has_frame(frames, entity));
            return Some(j);
        }
        j += 1;
    }
    None
}

/// Records the draws of a phase, one after the other.  A draw for which
/// there is no view bind group to bind is skipped.
fn record_phase(
    meta: &GridShadowMeta,
    phase: &RenderPhase,
    view_uniform_offset: ViewUniformOffset,
) -> (commands: Vec<DrawCommand>)
    ensures
        commands@ == recorded_commands(
            phase.items@,
            view_uniform_offset,
            meta.view_bind_group is Some,
        ),
{
    let mut commands: Vec<DrawCommand> = Vec::new();
    let mut k: usize = 0;
    assert(phase.items@.take(0) =~= Seq::<GridShadow>::empty());
    while k < phase.items.len()
        invariant
            k <= phase.items.len(),
            commands@ == recorded_commands(
                phase.items@.take(k as int),
                view_uniform_offset,
                meta.view_bind_group is Some,
            ),
        decreases phase.items.len() - k,
    {
        let item = phase.items[k];
        proof {
            assert(phase.items@.take(k + 1).drop_last() =~= phase.items@.take(k as int));
            assert(phase.items@.take(k + 1).last() == item);
        }
        let ghost before = commands@;
        if let Some(view) = SetGridShadowViewBindGroup::<0>::render(meta, view_uniform_offset) {
            commands.push(DrawCommand::SetPipeline(item.pipeline));
            commands.push(DrawCommand::SetViewBindGroup { index: view.index, offset: view.offset });
            commands.push(
                DrawCommand::SetMaterialBindGroup {
                    index: MATERIAL_BIND_GROUP_SLOT,
                    entity: item.entity,
                },
            );
            commands.push(
                DrawCommand::SetMeshBindGroup {
                    index: MESH_BIND_GROUP_SLOT,
                    entity: item.entity,
                    dynamic_offset: item.dynamic_offset,
                },
            );
            commands.push(
                DrawCommand::DrawMesh { entity: item.entity, instances: item.batch_range },
            );
            assert(commands@ =~= before + draw_commands(item, view_uniform_offset));
        }
        k += 1;
    }
    assert(phase.items@.take(k as int) =~= phase.items@);
    commands
}

/// The passes of a snapshot can be recorded from the world that the snapshot
/// was taken of: every grid of the snapshot has a frame there.
pub proof fn lemma_snapshot_can_be_recorded(frames: Seq<GridFrameView>)
    ensures
        can_record(snapshot(frames), frames),
{
    assert forall|i: int| 0 <= i < snapshot(frames).len() implies has_frame(
        frames,
        #[trigger] snapshot(frames)[i],
    ) by {
        assert(frames[i].shadow_view.entity == snapshot(frames)[i]);
    }
}

/// With no grid that has a shadow view, the node records no pass.
pub proof fn lemma_no_grid_no_pass(frames: Seq<GridFrameView>, view_bind_group: bool)
    requires
        frames.len() == 0,
    ensures
        snapshot(frames).len() == 0,
        shadow_passes(snapshot(frames), frames, view_bind_group).len() == 0,
{
}

/// When every grid has its frame, the node records exactly one pass per
/// grid, in the order of the grids, each built from the grid's first frame.
pub proof fn lemma_one_pass_per_grid(
    grids: Seq<Entity>,
    frames: Seq<GridFrameView>,
    view_bind_group: bool,
)
    requires
        can_record(grids, frames),
    ensures
        shadow_passes(grids, frames, view_bind_group).len() == grids.len(),
        forall|i: int|
            0 <= i < grids.len() ==> #[trigger] shadow_passes(grids, frames, view_bind_group)[i]
                == shadow_pass(frames[frame_index(frames, grids[i])], view_bind_group),
    decreases grids.len(),
{
    if grids.len() > 0 {
        let rest = grids.drop_last();
        assert forall|i: int| 0 <= i < rest.len() implies has_frame(frames, #[trigger] rest[i]) by {
            assert(rest[i] == grids[i]);
        }
        lemma_one_pass_per_grid(rest, frames, view_bind_group);
        assert(has_frame(frames, grids[grids.len() - 1]));
        assert forall|i: int| 0 <= i < grids.len() implies #[trigger] shadow_passes(
            grids,
            frames,
            view_bind_group,
        )[i] == shadow_pass(frames[frame_index(frames, grids[i])], view_bind_group) by {
            if i < rest.len() {
                assert(rest[i] == grids[i]);
                assert(shadow_passes(grids, frames, view_bind_group)[i] == shadow_passes(
                    rest,
                    frames,
                    view_bind_group,
                )[i]);
            }
        }
    }
}

/// Every pass that the node records is the pass of a grid of the snapshot,
/// into that grid's shadow texture; it clears to black, stores, and has no
/// depth or stencil attachment, whether or not the view bind group is there.
/// Without the view bind group it holds no command.
pub proof fn lemma_every_pass_clears_and_stores(
    grids: Seq<Entity>,
    frames: Seq<GridFrameView>,
    view_bind_group: bool,
)
    ensures
        shadow_passes(grids, frames, view_bind_group).len() <= grids.len(),
        forall|k: int|
            0 <= k < shadow_passes(grids, frames, view_bind_group).len() ==> {
                let pass = #[trigger] shadow_passes(grids, frames, view_bind_group)[k];
                &&& grids.contains(pass.entity)
                &&& has_frame(frames, pass.entity)
                &&& pass.view == frames[frame_index(frames, pass.entity)].shadow_view.texture_view
                &&& pass.load == LoadOp::ClearBlack
                &&& pass.store == StoreOp::Store
                &&& !pass.depth_stencil_attachment
                &&& !view_bind_group ==> pass.commands.len() == 0
            },
    decreases grids.len(),
{
    if grids.len() > 0 {
        let rest = grids.drop_last();
        let last = grids.last();
        let before = shadow_passes(rest, frames, view_bind_group);
        let all = shadow_passes(grids, frames, view_bind_group);
        lemma_every_pass_clears_and_stores(rest, frames, view_bind_group);
        lemma_frame_index(frames, last);
        assert forall|k: int| 0 <= k < all.len() implies {
            let pass = #[trigger] all[k];
            &&& grids.contains(pass.entity)
            &&& has_frame(frames, pass.entity)
            &&& pass.view == frames[frame_index(frames, pass.entity)].shadow_view.texture_view
            &&& pass.load == LoadOp::ClearBlack
            &&& pass.store == StoreOp::Store
            &&& !pass.depth_stencil_attachment
            &&& !view_bind_group ==> pass.commands.len() == 0
        } by {
            if k < before.len() {
                assert(all[k] == before[k]);
                assert(rest.contains(before[k].entity));
                let g = choose|g: int| 0 <= g < rest.len() && rest[g] == before[k].entity;
                assert(grids[g] == rest[g]);
            } else {
                assert(grids[grids.len() - 1] == last);
            }
        }
    }
}

} // verus!
