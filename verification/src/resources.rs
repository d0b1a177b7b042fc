//! Descriptions of the sampler and of the bind-group layout that the shadow
//! pipelines share.

use vstd::prelude::*;

verus! {

/// How a sampler treats coordinates outside a texture.
#[derive(Clone, Copy, Debug, PartialEq, Eq, Hash, Structural)]
pub enum AddressMode {
    ClampToEdge,
    Repeat,
    MirrorRepeat,
    ClampToBorder,
}

/// How a sampler blends neighbouring texels.
#[derive(Clone, Copy, Debug, PartialEq, Eq, Hash, Structural)]
pub enum FilterMode {
    Nearest,
    Linear,
}

/// Comparison made by a comparison sampler.
#[derive(Clone, Copy, Debug, PartialEq, Eq, Hash, Structural)]
pub enum CompareFunction {
    Never,
    Less,
    Equal,
    LessEqual,
    Greater,
    NotEqual,
    GreaterEqual,
    Always,
}

/// Description of a texture sampler.
#[derive(Clone, Copy, Debug, PartialEq, Eq, Hash, Structural)]
pub struct SamplerDescriptor {
    pub address_mode_u: AddressMode,
    pub address_mode_v: AddressMode,
    pub address_mode_w: AddressMode,
    pub mag_filter: FilterMode,
    pub min_filter: FilterMode,
    pub mipmap_filter: FilterMode,
    pub compare: Option<CompareFunction>,
}

/// The sampler through which the shading pass reads the shadow texture: it
/// clamps to the edge on every axis, filters linearly when magnifying and
/// minifying, picks the nearest mipmap and compares nothing.
pub open spec fn shadow_sampler_spec() -> SamplerDescriptor {
    SamplerDescriptor {
        address_mode_u: AddressMode::ClampToEdge,
        address_mode_v: AddressMode::ClampToEdge,
        address_mode_w: AddressMode::ClampToEdge,
        mag_filter: FilterMode::Linear,
        min_filter: FilterMode::Linear,
        mipmap_filter: FilterMode::Nearest,
        compare: None,
    }
}

/// Builds the description of the shadow texture's sampler.
pub fn shadow_sampler() -> (sampler: SamplerDescriptor)
    ensures
        sampler == shadow_sampler_spec(),
{
    SamplerDescriptor {
        address_mode_u: AddressMode::ClampToEdge,
        address_mode_v: AddressMode::ClampToEdge,
        address_mode_w: AddressMode::ClampToEdge,
        mag_filter: FilterMode::Linear,
        min_filter: FilterMode::Linear,
        mipmap_filter: FilterMode::Nearest,
        compare: None,
    }
}

/// Shader stages that can see a binding.
#[derive(Clone, Copy, Debug, PartialEq, Eq, Hash, Structural)]
pub struct ShaderStages {
    pub vertex: bool,
    pub fragment: bool,
    pub compute: bool,
}

/// Kind of buffer behind a buffer binding.
#[derive(Clone, Copy, Debug, PartialEq, Eq, Hash, Structural)]
pub enum BufferBindingType {
    Uniform,
    Storage,
}

/// Kind of resource that a binding of a bind-group layout takes.
#[derive(Clone, Copy, Debug, PartialEq, Eq, Hash, Structural)]
pub enum BindingType {
    Buffer { ty: BufferBindingType, has_dynamic_offset: bool, min_binding_size: Option<u64> },
    Texture,
    Sampler,
}

/// One binding of a bind-group layout.
#[derive(Clone, Copy, Debug, PartialEq, Eq, Hash, Structural)]
pub struct BindGroupLayoutEntry {
    pub binding: u32,
    pub visibility: ShaderStages,
    pub ty: BindingType,
    pub count: Option<u32>,
}

/// Label of the layout of the view bind group.
pub const VIEW_LAYOUT_LABEL: &'static str = "grid_shadow_view_layout";

/// The least size of a binding of `size` bytes: none when the size is zero.
pub open spec fn min_binding_size(size: u64) -> Option<u64> {
    if size == 0 {
        None
    } else {
        Some(size)
    }
}

/// The only binding of the view bind group's layout: the view uniform, a
/// uniform buffer at binding 0 that the vertex and the fragment stage see and
/// that every draw addresses with a dynamic offset.
pub open spec fn view_layout_entry_spec(view_uniform_size: u64) -> BindGroupLayoutEntry {
    BindGroupLayoutEntry {
        binding: 0,
        visibility: ShaderStages { vertex: true, fragment: true, compute: false },
        ty: BindingType::Buffer {
            ty: BufferBindingType::Uniform,
            has_dynamic_offset: true,
            min_binding_size: min_binding_size(view_uniform_size),
        },
        count: None,
    }
}

/// Builds the only binding of the view bind group's layout for a view uniform
/// of `view_uniform_size` bytes.
pub fn view_layout_entry(view_uniform_size: u64) -> (entry: BindGroupLayoutEntry)
    ensures
        entry == view_layout_entry_spec(view_uniform_size),
{
    BindGroupLayoutEntry {
        binding: 0,
        visibility: ShaderStages { vertex: true, fragment: true, compute: false },
        ty: BindingType::Buffer {
            ty: BufferBindingType::Uniform,
            has_dynamic_offset: true,
            min_binding_size: if view_uniform_size == 0 {
                None
            } else {
                Some(view_uniform_size)
            },
        },
        count: None,
    }
}

} // verus!
