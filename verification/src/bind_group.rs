//! The bind groups of the shadow pass: the one over the view uniforms that all
//! shadow draws share, and the one per grid through which the shading pass
//! reads the grid's shadows.

use vstd::prelude::*;
use crate::entity::Entity;
use crate::pipeline::{GridShadowPipeline, GridShadowPipelineView};
use crate::resources::SamplerDescriptor;
use crate::texture::TextureId;
use crate::view::ShadowView;

verus! {

/// Handle of a buffer of the host.
#[derive(Clone, Copy, Debug, PartialEq, Eq, Hash, Structural)]
pub struct BufferId(pub u64);

/// A range of a buffer that can be bound.
#[derive(Clone, Copy, Debug, PartialEq, Eq, Hash, Structural)]
pub struct BufferBinding {
    pub buffer: BufferId,
    pub offset: u64,
    /// `None`: the binding reaches to the end of the buffer.
    pub size: Option<u64>,
}

/// A resource bound by an entry of a bind group.
#[derive(Clone, Copy, Debug, PartialEq, Eq, Hash, Structural)]
pub enum BindingResource {
    Buffer(BufferBinding),
    TextureView(TextureId),
    Sampler(SamplerDescriptor),
}

/// The layout that a bind group is made for.
#[derive(Clone, Copy, Debug, PartialEq, Eq, Hash, Structural)]
pub enum BindGroupLayoutKind {
    /// The layout of the view bind group of the shadow pipelines.
    ShadowView,
    /// The layout through which the grid's shading pass reads its shadows.
    GridShadows,
}

/// A bundle of resources bound together; the entries are bound to bindings
/// 0, 1, 2 and so on.
#[derive(Clone, Debug, PartialEq, Eq)]
pub struct BindGroup {
    pub label: &'static str,
    pub layout: BindGroupLayoutKind,
    pub entries: Vec<BindingResource>,
}

/// Mathematical value of a [`BindGroup`].
pub ghost struct BindGroupView {
    pub label: Seq<char>,
    pub layout: BindGroupLayoutKind,
    pub entries: Seq<BindingResource>,
}

impl View for BindGroup {
    type V = BindGroupView;

    open spec fn view(&self) -> BindGroupView {
        BindGroupView { label: self.label@, layout: self.layout, entries: self.entries@ }
    }
}

/// Label of the view bind group.
pub const VIEW_BIND_GROUP_LABEL: &'static str = "grid_shadow_view_bind_group";

/// Label of the shadow bind group of a grid.
pub const SHADOW_BIND_GROUP_LABEL: &'static str = "grid-shadow-bind-group";

/// The view bind group over a binding of the view uniforms: its only entry.
pub open spec fn view_bind_group(binding: BufferBinding) -> BindGroupView {
    BindGroupView {
        label: VIEW_BIND_GROUP_LABEL@,
        layout: BindGroupLayoutKind::ShadowView,
        entries: seq![BindingResource::Buffer(binding)],
    }
}

/// The shadow bind group of a grid: the shadow uniforms, the view of the
/// grid's shadow texture and the shadow sampler, in this order.
pub open spec fn shadow_bind_group(
    binding: BufferBinding,
    texture_view: TextureId,
    sampler: SamplerDescriptor,
) -> BindGroupView {
    BindGroupView {
        label: SHADOW_BIND_GROUP_LABEL@,
        layout: BindGroupLayoutKind::GridShadows,
        entries: seq![
            BindingResource::Buffer(binding),
            BindingResource::TextureView(texture_view),
            BindingResource::Sampler(sampler),
        ],
    }
}

/// What all shadow draws share: the bind group of the view uniforms.
#[derive(Clone, Debug, PartialEq, Eq)]
pub struct GridShadowMeta {
    pub view_bind_group: Option<BindGroup>,
}

impl GridShadowMeta {
    /// The value of the view bind group, if there is one.
    pub open spec fn view(&self) -> Option<BindGroupView> {
        match self.view_bind_group {
            Some(group) => Some(group@),
            None => None,
        }
    }
}

impl Default for GridShadowMeta {
    fn default() -> (meta: Self)
        ensures
            meta.view_bind_group is None,
    {
        GridShadowMeta { view_bind_group: None }
    }
}

/// Offset of a view's uniform in the buffer of view uniforms.
#[derive(Clone, Copy, Debug, PartialEq, Eq, Hash, Structural)]
pub struct ViewUniformOffset {
    pub offset: u32,
}

/// Offset of a grid's shadow uniform in the buffer of shadow uniforms.
#[derive(Clone, Copy, Debug, PartialEq, Eq, Hash, Structural)]
pub struct GridShadowUniformOffset {
    pub offset: u32,
}

/// The shadow bind group of one grid, read by the grid's shading pass.
#[derive(Clone, Debug, PartialEq, Eq)]
pub struct GridShadowBindGroup {
    bind_group: BindGroup,
}

impl View for GridShadowBindGroup {
    type V = BindGroupView;

    closed spec fn view(&self) -> BindGroupView {
        self.bind_group@
    }
}

impl GridShadowBindGroup {
    /// The bind group.
    pub fn bind_group(&self) -> (group: &BindGroup)
        ensures
            group@ == self@,
    {
        &self.bind_group
    }
}

/// The shadow bind group of a grid, with the grid it was made for.
#[derive(Clone, Debug, PartialEq, Eq)]
pub struct PreparedBindGroup {
    pub entity: Entity,
    pub bind_group: GridShadowBindGroup,
}

/// Renews the view bind group.
///
/// With a binding of the view uniforms the bind group is made anew over it.
/// While the uniforms have no binding, nothing is made and what was there
/// stays.
pub fn prepare_grid_shadow_view_bind_group(
    meta: &mut GridShadowMeta,
    view_binding: Option<BufferBinding>,
)
    ensures
        match view_binding {
            Some(binding) => final(meta)@ == Some(view_bind_group(binding)),
            None => *final(meta) == *old(meta),
        },
{
    if let Some(binding) = view_binding {
        let mut entries: Vec<BindingResource> = Vec::new();
        entries.push(BindingResource::Buffer(binding));
        assert(entries@ =~= seq![BindingResource::Buffer(binding)]);
        meta.view_bind_group = Some(
            BindGroup {
                label: VIEW_BIND_GROUP_LABEL,
                layout: BindGroupLayoutKind::ShadowView,
                entries,
            },
        );
    }
}

/// Makes the shadow bind group of every grid that has a shadow view.
///
/// With a binding of the shadow uniforms every view gets its bind group, in
/// the order of `grids`.  While the uniforms have no binding, no bind group
/// is made.
pub fn prepare_grid_shadow_bind_groups(
    grids: &Vec<ShadowView>,
    uniform_binding: Option<BufferBinding>,
    grid_shadow_pipeline: &GridShadowPipeline,
) -> (prepared: Vec<PreparedBindGroup>)
    ensures
        uniform_binding is None ==> prepared@.len() == 0,
        uniform_binding is Some ==> prepared@.len() == grids@.len(),
        uniform_binding is Some ==> forall|i: int|
            0 <= i < grids@.len() ==> (#[trigger] prepared@[i]).entity == grids@[i].entity
                && prepared@[i].bind_group@ == shadow_bind_group(
                uniform_binding->0,
                grids@[i].texture_view,
                grid_shadow_pipeline@.sampler,
            ),
{
    let mut prepared: Vec<PreparedBindGroup> = Vec::new();
    if let Some(binding) = uniform_binding {
        let mut i: usize = 0;
        while i < grids.len()
            invariant
                i <= grids.len(),
                prepared@.len() == i,
                forall|k: int|
                    0 <= k < i ==> (#[trigger] prepared@[k]).entity == grids@[k].entity
                        && prepared@[k].bind_group@ == shadow_bind_group(
                        binding,
                        grids@[k].texture_view,
                        grid_shadow_pipeline@.sampler,
                    ),
            decreases grids.len() - i,
        {
            let mut entries: Vec<BindingResource> = Vec::new();
            entries.push(BindingResource::Buffer(binding));
            entries.push(BindingResource::TextureView(grids[i].texture_view));
            entries.push(BindingResource::Sampler(grid_shadow_pipeline.sampler));
            assert(entries@ =~= shadow_bind_group(
                binding,
                grids@[i as int].texture_view,
                grid_shadow_pipeline@.sampler,
            ).entries);
            prepared.push(
                PreparedBindGroup {
                    entity: grids[i].entity,
                    bind_group: GridShadowBindGroup {
                        bind_group: BindGroup {
                            label: SHADOW_BIND_GROUP_LABEL,
                            layout: BindGroupLayoutKind::GridShadows,
                            entries,
                        },
                    },
                },
            );
            i += 1;
        }
    }
    prepared
}

} // verus!
