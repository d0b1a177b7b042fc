//! Description of the pipelines that draw meshes into the shadow texture.

use vstd::prelude::*;
use crate::resources::{
    shadow_sampler, shadow_sampler_spec, view_layout_entry, view_layout_entry_spec,
    BindGroupLayoutEntry, SamplerDescriptor, VIEW_LAYOUT_LABEL,
};
use crate::texture::TextureFormat;

verus! {

/// How the vertices of a mesh are assembled into primitives.
#[derive(Clone, Copy, Debug, PartialEq, Eq, Hash, Structural)]
pub enum PrimitiveTopology {
    PointList,
    LineList,
    LineStrip,
    TriangleList,
    TriangleStrip,
}

/// Winding order of a front face.
#[derive(Clone, Copy, Debug, PartialEq, Eq, Hash, Structural)]
pub enum FrontFace {
    Ccw,
    Cw,
}

/// Side of a primitive.
#[derive(Clone, Copy, Debug, PartialEq, Eq, Hash, Structural)]
pub enum Face {
    Front,
    Back,
}

/// How polygons are rasterised.
#[derive(Clone, Copy, Debug, PartialEq, Eq, Hash, Structural)]
pub enum PolygonMode {
    Fill,
    Line,
    Point,
}

/// Width of the indices of a strip.
#[derive(Clone, Copy, Debug, PartialEq, Eq, Hash, Structural)]
pub enum IndexFormat {
    Uint16,
    Uint32,
}

/// How a fragment is combined with what the target already holds.
#[derive(Clone, Copy, Debug, PartialEq, Eq, Hash, Structural)]
pub enum BlendState {
    Replace,
    AlphaBlending,
    PremultipliedAlphaBlending,
}

/// Channels of a colour target that a pipeline writes.
#[derive(Clone, Copy, Debug, PartialEq, Eq, Hash, Structural)]
pub struct ColorWrites {
    pub red: bool,
    pub green: bool,
    pub blue: bool,
    pub alpha: bool,
}

/// The colour target of a pipeline.
#[derive(Clone, Copy, Debug, PartialEq, Eq, Hash, Structural)]
pub struct ColorTargetState {
    pub format: TextureFormat,
    /// `None`: every write replaces what the target held.
    pub blend: Option<BlendState>,
    pub write_mask: ColorWrites,
}

/// Assembly and rasterisation of primitives.
#[derive(Clone, Copy, Debug, PartialEq, Eq, Hash, Structural)]
pub struct PrimitiveState {
    pub topology: PrimitiveTopology,
    pub strip_index_format: Option<IndexFormat>,
    pub front_face: FrontFace,
    /// `None`: no face is culled.
    pub cull_mode: Option<Face>,
    pub unclipped_depth: bool,
    pub polygon_mode: PolygonMode,
    pub conservative: bool,
}

/// Depth and stencil attachment of a pipeline.
#[derive(Clone, Copy, Debug, PartialEq, Eq, Hash, Structural)]
pub struct DepthStencilState {
    pub depth_write_enabled: bool,
    pub depth_compare: crate::resources::CompareFunction,
}

/// Multisampling of a pipeline.
#[derive(Clone, Copy, Debug, PartialEq, Eq, Hash, Structural)]
pub struct MultisampleState {
    pub count: u32,
    pub mask: u64,
    pub alpha_to_coverage_enabled: bool,
}

/// A vertex attribute of a mesh, as far as the shadow pipeline tells them
/// apart.
#[derive(Clone, Copy, Debug, PartialEq, Eq, Hash, Structural)]
pub enum MeshAttribute {
    Position,
    JointIndex,
    JointWeight,
    /// Any other attribute, by the number the host gives it.
    Other(u64),
}

/// A vertex attribute as a pipeline consumes it.
#[derive(Clone, Copy, Debug, PartialEq, Eq, Hash, Structural)]
pub struct VertexAttributeDescriptor {
    pub id: MeshAttribute,
    pub shader_location: u32,
}

/// A definition handed to the shader's preprocessor.
#[derive(Clone, Copy, Debug, PartialEq, Eq, Hash, Structural)]
pub enum ShaderDef {
    MaxDirectionalLights(u32),
    MaxCascadesPerLight(u32),
    Skinned,
    MorphTargets,
}

/// Which of the host's mesh bind-group layouts a pipeline takes.
#[derive(Clone, Copy, Debug, PartialEq, Eq, Hash, Structural)]
pub enum MeshLayoutKind {
    ModelOnly,
    Skinned,
    Morphed,
    MorphedSkinned,
}

/// A bind-group layout of the shadow pipeline.
#[derive(Clone, Copy, Debug, PartialEq, Eq, Hash, Structural)]
pub enum BindGroupLayoutRef {
    /// The view uniform, addressed with a dynamic offset.
    View,
    /// The bind group of the mesh's material.
    Material,
    /// The mesh's own bind group, with skinning and morphing data if any.
    Mesh(MeshLayoutKind),
}

/// What a mesh's vertex buffer offers.
#[derive(Clone, Debug, PartialEq, Eq, Hash)]
pub struct VertexLayout {
    /// Identity of the layout: equal for meshes that share it.
    pub id: u64,
    /// The attributes that the vertex buffer holds.
    pub attributes: Vec<MeshAttribute>,
    /// Whether the mesh comes with morph targets.
    pub morph_targets: bool,
}

/// Mathematical value of a [`VertexLayout`].
pub ghost struct VertexLayoutView {
    pub id: u64,
    pub attributes: Seq<MeshAttribute>,
    pub morph_targets: bool,
}

impl View for VertexLayout {
    type V = VertexLayoutView;

    open spec fn view(&self) -> VertexLayoutView {
        VertexLayoutView {
            id: self.id,
            attributes: self.attributes@,
            morph_targets: self.morph_targets,
        }
    }
}

/// The vertex stage of a pipeline.
#[derive(Clone, Debug, PartialEq, Eq)]
pub struct VertexState {
    pub entry_point: &'static str,
    pub shader_defs: Vec<ShaderDef>,
    /// The attributes that the stage consumes from the mesh's vertex buffer.
    pub attributes: Vec<VertexAttributeDescriptor>,
}

/// Mathematical value of a [`VertexState`].
pub ghost struct VertexStateView {
    pub entry_point: Seq<char>,
    pub shader_defs: Seq<ShaderDef>,
    pub attributes: Seq<VertexAttributeDescriptor>,
}

impl View for VertexState {
    type V = VertexStateView;

    open spec fn view(&self) -> VertexStateView {
        VertexStateView {
            entry_point: self.entry_point@,
            shader_defs: self.shader_defs@,
            attributes: self.attributes@,
        }
    }
}

/// The fragment stage of a pipeline, which writes one colour target.
#[derive(Clone, Debug, PartialEq, Eq)]
pub struct FragmentState {
    pub entry_point: &'static str,
    pub shader_defs: Vec<ShaderDef>,
    pub target: ColorTargetState,
}

/// Mathematical value of a [`FragmentState`].
pub ghost struct FragmentStateView {
    pub entry_point: Seq<char>,
    pub shader_defs: Seq<ShaderDef>,
    pub target: ColorTargetState,
}

impl View for FragmentState {
    type V = FragmentStateView;

    open spec fn view(&self) -> FragmentStateView {
        FragmentStateView {
            entry_point: self.entry_point@,
            shader_defs: self.shader_defs@,
            target: self.target,
        }
    }
}

/// Description of a graphics pipeline.
#[derive(Clone, Debug, PartialEq, Eq)]
pub struct RenderPipelineDescriptor {
    pub label: &'static str,
    /// The bind-group layouts, by slot.
    pub layout: Vec<BindGroupLayoutRef>,
    pub vertex: VertexState,
    pub fragment: FragmentState,
    pub primitive: PrimitiveState,
    pub depth_stencil: Option<DepthStencilState>,
    pub multisample: MultisampleState,
}

/// Mathematical value of a [`RenderPipelineDescriptor`].
pub ghost struct RenderPipelineDescriptorView {
    pub label: Seq<char>,
    pub layout: Seq<BindGroupLayoutRef>,
    pub vertex: VertexStateView,
    pub fragment: FragmentStateView,
    pub primitive: PrimitiveState,
    pub depth_stencil: Option<DepthStencilState>,
    pub multisample: MultisampleState,
}

impl View for RenderPipelineDescriptor {
    type V = RenderPipelineDescriptorView;

    open spec fn view(&self) -> RenderPipelineDescriptorView {
        RenderPipelineDescriptorView {
            label: self.label@,
            layout: self.layout@,
            vertex: self.vertex@,
            fragment: self.fragment@,
            primitive: self.primitive,
            depth_stencil: self.depth_stencil,
            multisample: self.multisample,
        }
    }
}

/// What tells one specialised pipeline from another.
#[derive(Clone, Copy, Debug, PartialEq, Eq, Hash, Structural)]
pub struct PipelineKey {
    /// Identity of the mesh's vertex layout.
    pub vertex_layout_id: u64,
    /// The material's bind-group key.
    pub material_bind_data: u64,
    /// Topology of the mesh.
    pub primitive_topology: PrimitiveTopology,
}

/// Why a pipeline could not be specialised.
#[derive(Clone, Copy, Debug, PartialEq, Eq, Hash, Structural)]
pub enum SpecializationError {
    /// The mesh's vertex buffer lacks an attribute that the pipeline consumes.
    MissingVertexAttribute(MeshAttribute),
    /// The material's own specialisation of the pipeline failed; the number is
    /// the one under which the material reported its error.
    Material(u64),
}

/// What the host's world offers to the shadow pipeline.
#[derive(Clone, Copy, Debug, PartialEq, Eq, Structural)]
pub struct World {
    /// Size in bytes of one view uniform.
    pub view_uniform_size: u64,
    /// Number of directional lights that the host's shaders are built for.
    pub max_directional_lights: u32,
    /// Number of shadow cascades per light that the host's shaders are built
    /// for.
    pub max_cascades_per_light: u32,
}

/// The resources shared by all specialised shadow pipelines.
#[derive(Clone, Debug, PartialEq, Eq)]
pub struct GridShadowPipeline {
    /// Label of the view bind group's layout.
    pub view_layout_label: &'static str,
    /// The bindings of the view bind group's layout.
    pub view_layout: Vec<BindGroupLayoutEntry>,
    /// The sampler through which the shading pass reads the shadow texture.
    pub sampler: SamplerDescriptor,
    pub max_directional_lights: u32,
    pub max_cascades_per_light: u32,
}

/// Mathematical value of a [`GridShadowPipeline`].
pub ghost struct GridShadowPipelineView {
    pub view_layout_label: Seq<char>,
    pub view_layout: Seq<BindGroupLayoutEntry>,
    pub sampler: SamplerDescriptor,
    pub max_directional_lights: u32,
    pub max_cascades_per_light: u32,
}

impl View for GridShadowPipeline {
    type V = GridShadowPipelineView;

    open spec fn view(&self) -> GridShadowPipelineView {
        GridShadowPipelineView {
            view_layout_label: self.view_layout_label@,
            view_layout: self.view_layout@,
            sampler: self.sampler,
            max_directional_lights: self.max_directional_lights,
            max_cascades_per_light: self.max_cascades_per_light,
        }
    }
}

/// Label of every specialised shadow pipeline.
pub const PIPELINE_LABEL: &'static str = "grid_shadow_pipeline";

/// Entry point of the vertex stage.
pub const VERTEX_ENTRY_POINT: &'static str = "vertex";

/// Entry point of the fragment stage.
pub const FRAGMENT_ENTRY_POINT: &'static str = "fragment";

/// Shader location of the first of the two skinning attributes; the second
/// follows it.
pub const SKIN_SHADER_LOCATION: u32 = 4;

/// The resources of the shadow pipeline in a world.
pub open spec fn pipeline_of_world(world: World) -> GridShadowPipelineView {
    GridShadowPipelineView {
        view_layout_label: VIEW_LAYOUT_LABEL@,
        view_layout: seq![view_layout_entry_spec(world.view_uniform_size)],
        sampler: shadow_sampler_spec(),
        max_directional_lights: world.max_directional_lights,
        max_cascades_per_light: world.max_cascades_per_light,
    }
}

/// A mesh is skinned when its vertex buffer holds both skinning attributes.
pub open spec fn is_skinned(attributes: Seq<MeshAttribute>) -> bool {
    attributes.contains(MeshAttribute::JointIndex) && attributes.contains(
        MeshAttribute::JointWeight,
    )
}

/// The mesh bind-group layout for a mesh that is or is not skinned and does or
/// does not come with morph targets.
pub open spec fn mesh_layout_kind(skinned: bool, morphed: bool) -> MeshLayoutKind {
    if skinned && morphed {
        MeshLayoutKind::MorphedSkinned
    } else if skinned {
        MeshLayoutKind::Skinned
    } else if morphed {
        MeshLayoutKind::Morphed
    } else {
        MeshLayoutKind::ModelOnly
    }
}

/// The attributes that the vertex stage consumes: the position alone, or the
/// position and the two skinning attributes of a skinned mesh.
pub open spec fn shadow_vertex_attributes(skinned: bool) -> Seq<VertexAttributeDescriptor> {
    let position = VertexAttributeDescriptor { id: MeshAttribute::Position, shader_location: 0 };
    if skinned {
        seq![
            position,
            VertexAttributeDescriptor {
                id: MeshAttribute::JointIndex,
                shader_location: SKIN_SHADER_LOCATION,
            },
            VertexAttributeDescriptor {
                id: MeshAttribute::JointWeight,
                shader_location: (SKIN_SHADER_LOCATION + 1) as u32,
            },
        ]
    } else {
        seq![position]
    }
}

/// The definitions handed to both shader stages.
pub open spec fn shadow_shader_defs(
    max_directional_lights: u32,
    max_cascades_per_light: u32,
    skinned: bool,
    morphed: bool,
) -> Seq<ShaderDef> {
    let base = seq![
        ShaderDef::MaxDirectionalLights(max_directional_lights),
        ShaderDef::MaxCascadesPerLight(max_cascades_per_light),
    ];
    let with_skin = if skinned {
        base.push(ShaderDef::Skinned)
    } else {
        base
    };
    if morphed {
        with_skin.push(ShaderDef::MorphTargets)
    } else {
        with_skin
    }
}

/// The bind-group layouts of a shadow pipeline, by slot: the view uniform,
/// the material, the mesh.
pub open spec fn shadow_bind_group_layouts(mesh: MeshLayoutKind) -> Seq<BindGroupLayoutRef> {
    seq![BindGroupLayoutRef::View, BindGroupLayoutRef::Material, BindGroupLayoutRef::Mesh(mesh)]
}

/// The one colour target of a shadow pipeline: the red channel of a
/// single-channel texture, written without blending.
pub open spec fn shadow_color_target() -> ColorTargetState {
    ColorTargetState {
        format: TextureFormat::R8Unorm,
        blend: None,
        write_mask: ColorWrites { red: true, green: false, blue: false, alpha: false },
    }
}

/// Primitives of a shadow pipeline: filled, never culled, of the key's
/// topology.
pub open spec fn shadow_primitive(topology: PrimitiveTopology) -> PrimitiveState {
    PrimitiveState {
        topology,
        strip_index_format: None,
        front_face: FrontFace::Ccw,
        cull_mode: None,
        unclipped_depth: false,
        polygon_mode: PolygonMode::Fill,
        conservative: false,
    }
}

/// A shadow pipeline takes one sample per texel.
pub open spec fn shadow_multisample() -> MultisampleState {
    MultisampleState { count: 1, mask: u64::MAX, alpha_to_coverage_enabled: false }
}

/// The pipeline that draws a mesh of the given layout into the shadow
/// texture.
pub open spec fn shadow_pipeline_descriptor(
    pipeline: GridShadowPipelineView,
    key: PipelineKey,
    layout: VertexLayoutView,
) -> RenderPipelineDescriptorView {
    let skinned = is_skinned(layout.attributes);
    let morphed = layout.morph_targets;
    let shader_defs = shadow_shader_defs(
        pipeline.max_directional_lights,
        pipeline.max_cascades_per_light,
        skinned,
        morphed,
    );
    RenderPipelineDescriptorView {
        label: PIPELINE_LABEL@,
        layout: shadow_bind_group_layouts(mesh_layout_kind(skinned, morphed)),
        vertex: VertexStateView {
            entry_point: VERTEX_ENTRY_POINT@,
            shader_defs,
            attributes: shadow_vertex_attributes(skinned),
        },
        fragment: FragmentStateView {
            entry_point: FRAGMENT_ENTRY_POINT@,
            shader_defs,
            target: shadow_color_target(),
        },
        primitive: shadow_primitive(key.primitive_topology),
        depth_stencil: None,
        multisample: shadow_multisample(),
    }
}

/// What specialising for `key` and `layout` gives: the shadow pipeline of the
/// mesh, unless its vertex buffer holds no position.
pub open spec fn specialize_spec(
    pipeline: GridShadowPipelineView,
    key: PipelineKey,
    layout: VertexLayoutView,
) -> Result<RenderPipelineDescriptorView, SpecializationError> {
    if layout.attributes.contains(MeshAttribute::Position) {
        Ok(shadow_pipeline_descriptor(pipeline, key, layout))
    } else {
        Err(SpecializationError::MissingVertexAttribute(MeshAttribute::Position))
    }
}

/// What specialising gives once the material has had its say: an error of
/// building the pipeline stands, an error of the material is passed on as it
/// is, and without either the pipeline stands.
pub open spec fn finish_specialize_spec(
    built: Result<RenderPipelineDescriptorView, SpecializationError>,
    material: Result<(), u64>,
) -> Result<RenderPipelineDescriptorView, SpecializationError> {
    match built {
        Err(error) => Err(error),
        Ok(descriptor) => match material {
            Err(error) => Err(SpecializationError::Material(error)),
            Ok(_) => Ok(descriptor),
        },
    }
}

/// Joins the pipeline built for a mesh with the outcome of the material's own
/// specialisation of it.
///
/// A pipeline that could not be built keeps its error.  A pipeline that the
/// material rejected gives the material's error, unchanged.  Otherwise the
/// pipeline is returned as it was built.
pub fn finish_specialize(
    built: Result<RenderPipelineDescriptor, SpecializationError>,
    material: Result<(), u64>,
) -> (finished: Result<RenderPipelineDescriptor, SpecializationError>)
    ensures
        built is Err ==> finished is Err && finished->Err_0 == built->Err_0,
        built is Ok && material is Err ==> finished == Err::<
            RenderPipelineDescriptor,
            SpecializationError,
        >(SpecializationError::Material(material->Err_0)),
        built is Ok && material is Ok ==> finished == built,
{
    match built {
        Err(error) => Err(error),
        Ok(descriptor) => match material {
            Err(error) => Err(SpecializationError::Material(error)),
            Ok(_) => Ok(descriptor),
        },
    }
}

impl VertexLayout {
    /// Whether the vertex buffer holds `attribute`.
    pub fn contains(&self, attribute: MeshAttribute) -> (found: bool)
        ensures
            found == self@.attributes.contains(attribute),
    {
        let mut i: usize = 0;
        while i < self.attributes.len()
            invariant
                i <= self.attributes.len(),
                forall|k: int| 0 <= k < i ==> self.attributes@[k] != attribute,
            decreases self.attributes.len() - i,
        {
            if self.attributes[i] == attribute {
                return true;
            }
            i += 1;
        }
        false
    }

    /// Checks that the vertex buffer holds every requested attribute; if not,
    /// names the first requested attribute that it lacks.
    pub fn require_attributes(&self, requested: &Vec<VertexAttributeDescriptor>) -> (checked: Result<
        (),
        SpecializationError,
    >)
        ensures
            checked is Ok <==> forall|i: int|
                0 <= i < requested@.len() ==> self@.attributes.contains(
                    (#[trigger] requested@[i]).id,
                ),
            checked is Err ==> exists|i: int|
                0 <= i < requested@.len() && checked
                    == Err::<(), SpecializationError>(
                    SpecializationError::MissingVertexAttribute((#[trigger] requested@[i]).id),
                ) && !self@.attributes.contains(requested@[i].id) && forall|k: int|
                    0 <= k < i ==> self@.attributes.contains((#[trigger] requested@[k]).id),
    {
        let mut i: usize = 0;
        while i < requested.len()
            invariant
                i <= requested.len(),
                forall|k: int|
                    0 <= k < i ==> self@.attributes.contains((#[trigger] requested@[k]).id),
            decreases requested.len() - i,
        {
            let id = requested[i].id;
            if !self.contains(id) {
                return Err(SpecializationError::MissingVertexAttribute(id));
            }
            i += 1;
        }
        Ok(())
    }
}

impl GridShadowPipeline {
    /// Describes the resources shared by all shadow pipelines of a world: the
    /// layout of the view bind group and the shadow texture's sampler.
    pub fn from_world(world: &World) -> (pipeline: Self)
        ensures
            pipeline@ == pipeline_of_world(*world),
    {
        let mut view_layout: Vec<BindGroupLayoutEntry> = Vec::new();
        view_layout.push(view_layout_entry(world.view_uniform_size));
        let pipeline = GridShadowPipeline {
            view_layout_label: VIEW_LAYOUT_LABEL,
            view_layout,
            sampler: shadow_sampler(),
            max_directional_lights: world.max_directional_lights,
            max_cascades_per_light: world.max_cascades_per_light,
        };
        assert(pipeline@.view_layout =~= pipeline_of_world(*world).view_layout);
        pipeline
    }

    /// The definitions handed to both stages of a pipeline.
    fn shader_defs(&self, skinned: bool, morphed: bool) -> (defs: Vec<ShaderDef>)
        ensures
            defs@ == shadow_shader_defs(
                self.max_directional_lights,
                self.max_cascades_per_light,
                skinned,
                morphed,
            ),
    {
        let mut defs: Vec<ShaderDef> = Vec::new();
        defs.push(ShaderDef::MaxDirectionalLights(self.max_directional_lights));
        defs.push(ShaderDef::MaxCascadesPerLight(self.max_cascades_per_light));
        assert(defs@ =~= seq![
            ShaderDef::MaxDirectionalLights(self.max_directional_lights),
            ShaderDef::MaxCascadesPerLight(self.max_cascades_per_light),
        ]);
        if skinned {
            defs.push(ShaderDef::Skinned);
        }
        if morphed {
            defs.push(ShaderDef::MorphTargets);
        }
        defs
    }

    /// Describes the pipeline that draws a mesh with vertex layout `layout`
    /// into the shadow texture.
    ///
    /// The vertex stage consumes the position, and the skinning attributes of
    /// a skinned mesh; the fragment stage writes the red channel of one
    /// single-channel target without blending; there is no depth or stencil
    /// attachment; nothing is culled; polygons are filled; the topology is the
    /// key's.  Slot 0 takes the view uniform, slot 1 the material, slot 2 the
    /// mesh.  A mesh without positions cannot be drawn.
    pub fn specialize(&self, key: PipelineKey, layout: &VertexLayout) -> (specialized: Result<
        RenderPipelineDescriptor,
        SpecializationError,
    >)
        ensures
            match specialized {
                Ok(descriptor) => specialize_spec(self@, key, layout@) == Ok::<
                    RenderPipelineDescriptorView,
                    SpecializationError,
                >(descriptor@),
                Err(error) => specialize_spec(self@, key, layout@) == Err::<
                    RenderPipelineDescriptorView,
                    SpecializationError,
                >(error),
            },
    {
        let mut vertex_attributes: Vec<VertexAttributeDescriptor> = Vec::new();
        vertex_attributes.push(
            VertexAttributeDescriptor { id: MeshAttribute::Position, shader_location: 0 },
        );
        let mut bind_group_layouts: Vec<BindGroupLayoutRef> = Vec::new();
        bind_group_layouts.push(BindGroupLayoutRef::View);
        bind_group_layouts.push(BindGroupLayoutRef::Material);

        let skinned = layout.contains(MeshAttribute::JointIndex) && layout.contains(
            MeshAttribute::JointWeight,
        );
        let morphed = layout.morph_targets;
        if skinned {
            vertex_attributes.push(
                VertexAttributeDescriptor {
                    id: MeshAttribute::JointIndex,
                    shader_location: SKIN_SHADER_LOCATION,
                },
            );
            vertex_attributes.push(
                VertexAttributeDescriptor {
                    id: MeshAttribute::JointWeight,
                    shader_location: SKIN_SHADER_LOCATION + 1,
                },
            );
        }
        let mesh_layout = if skinned && morphed {
            MeshLayoutKind::MorphedSkinned
        } else if skinned {
            MeshLayoutKind::Skinned
        } else if morphed {
            MeshLayoutKind::Morphed
        } else {
            MeshLayoutKind::ModelOnly
        };
        bind_group_layouts.push(BindGroupLayoutRef::Mesh(mesh_layout));
        assert(vertex_attributes@ =~= shadow_vertex_attributes(skinned));
        assert(bind_group_layouts@ =~= shadow_bind_group_layouts(mesh_layout));

        match layout.require_attributes(&vertex_attributes) {
            Ok(()) => {
                assert(layout@.attributes.contains(vertex_attributes@[0].id));
            },
            Err(error) => {
                return Err(error);
            },
        }

        let descriptor = RenderPipelineDescriptor {
            label: PIPELINE_LABEL,
            layout: bind_group_layouts,
            vertex: VertexState {
                entry_point: VERTEX_ENTRY_POINT,
                shader_defs: self.shader_defs(skinned, morphed),
                attributes: vertex_attributes,
            },
            fragment: FragmentState {
                entry_point: FRAGMENT_ENTRY_POINT,
                shader_defs: self.shader_defs(skinned, morphed),
                target: ColorTargetState {
                    format: TextureFormat::R8Unorm,
                    blend: None,
                    write_mask: ColorWrites { red: true, green: false, blue: false, alpha: false },
                },
            },
            primitive: PrimitiveState {
                topology: key.primitive_topology,
                strip_index_format: None,
                front_face: FrontFace::Ccw,
                cull_mode: None,
                unclipped_depth: false,
                polygon_mode: PolygonMode::Fill,
                conservative: false,
            },
            depth_stencil: None,
            multisample: MultisampleState {
                count: 1,
                mask: u64::MAX,
                alpha_to_coverage_enabled: false,
            },
        };
        Ok(descriptor)
    }
}

} // verus!
