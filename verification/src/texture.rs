//! Descriptors of textures and the pool that hands textures out by descriptor.

use vstd::prelude::*;
use crate::sizing::Extent;
use crate::unique::{distinct, lemma_index_of_distinct, lemma_push_distinct};

verus! {

/// Number of dimensions of a texture.
#[derive(Clone, Copy, Debug, PartialEq, Eq, Hash, Structural)]
pub enum TextureDimension {
    D1,
    D2,
    D3,
}

/// Texel formats the shadow subsystem hands to the pool.
#[derive(Clone, Copy, Debug, PartialEq, Eq, Hash, Structural)]
pub enum TextureFormat {
    /// One red channel of eight bits, read as a number between zero and one.
    R8Unorm,
    /// Four channels of eight bits each.
    Rgba8Unorm,
}

/// What a texture may be used for.
#[derive(Clone, Copy, Debug, PartialEq, Eq, Hash, Structural)]
pub struct TextureUsages {
    pub copy_src: bool,
    pub copy_dst: bool,
    pub texture_binding: bool,
    pub storage_binding: bool,
    pub render_attachment: bool,
}

/// Everything that tells one pooled texture from another.
#[derive(Clone, Copy, Debug, PartialEq, Eq, Hash, Structural)]
pub struct TextureDescriptor {
    pub width: u32,
    pub height: u32,
    pub depth_or_array_layers: u32,
    pub mip_level_count: u32,
    pub sample_count: u32,
    pub dimension: TextureDimension,
    pub format: TextureFormat,
    pub usage: TextureUsages,
}

/// Handle of a texture owned by a [`TexturePool`].
#[derive(Clone, Copy, Debug, PartialEq, Eq, Hash, Structural)]
pub struct TextureId(pub usize);

/// Label given to every shadow texture.
pub const SHADOW_TEXTURE_LABEL: &'static str = "grid_shadow_texture";

/// The descriptor of a shadow texture of the given size: a single-channel
/// two-dimensional render target that can be sampled, without mipmaps and
/// without multisampling.
pub open spec fn shadow_texture_descriptor_spec(size: Extent) -> TextureDescriptor {
    TextureDescriptor {
        width: size.width,
        height: size.height,
        depth_or_array_layers: 1,
        mip_level_count: 1,
        sample_count: 1,
        dimension: TextureDimension::D2,
        format: TextureFormat::R8Unorm,
        usage: TextureUsages {
            copy_src: false,
            copy_dst: false,
            texture_binding: true,
            storage_binding: false,
            render_attachment: true,
        },
    }
}

/// Builds the descriptor of a shadow texture of the given size.
pub fn shadow_texture_descriptor(size: Extent) -> (descriptor: TextureDescriptor)
    ensures
        descriptor == shadow_texture_descriptor_spec(size),
{
    TextureDescriptor {
        width: size.width,
        height: size.height,
        depth_or_array_layers: 1,
        mip_level_count: 1,
        sample_count: 1,
        dimension: TextureDimension::D2,
        format: TextureFormat::R8Unorm,
        usage: TextureUsages {
            copy_src: false,
            copy_dst: false,
            texture_binding: true,
            storage_binding: false,
            render_attachment: true,
        },
    }
}

/// What a request to the pool came back with.
#[derive(Clone, Copy, Debug, PartialEq, Eq, Structural)]
pub struct PooledTexture {
    /// The texture that serves the request.
    pub texture: TextureId,
    /// Whether the request made the pool allocate the texture.
    pub allocated: bool,
}

/// A pool of textures keyed by descriptor.
///
/// A request is served by the texture already held for its descriptor, if
/// there is one; otherwise the pool allocates a texture and holds it from then
/// on.  The handle of a texture is its position in the pool.
pub struct TexturePool {
    descriptors: Vec<TextureDescriptor>,
}

impl View for TexturePool {
    type V = Seq<TextureDescriptor>;

    /// The descriptors of the textures that the pool holds, by handle.
    closed spec fn view(&self) -> Seq<TextureDescriptor> {
        self.descriptors@
    }
}

/// The texture that a pool holds for `descriptor`, if any.
pub open spec fn pool_lookup(pool: Seq<TextureDescriptor>, descriptor: TextureDescriptor) -> Option<
    TextureId,
> {
    if pool.contains(descriptor) {
        Some(TextureId(pool.index_of(descriptor) as usize))
    } else {
        None
    }
}

/// The texture that serves a request for `descriptor`: the one that the pool
/// holds for it, else the next one that the pool allocates.
pub open spec fn pool_texture(pool: Seq<TextureDescriptor>, descriptor: TextureDescriptor) -> TextureId {
    match pool_lookup(pool, descriptor) {
        Some(texture) => texture,
        None => TextureId(pool.len() as usize),
    }
}

/// The pool after a request for `descriptor`: grown by one texture if it held
/// none for the descriptor, else as it was.
pub open spec fn pool_after(pool: Seq<TextureDescriptor>, descriptor: TextureDescriptor) -> Seq<
    TextureDescriptor,
> {
    if pool.contains(descriptor) {
        pool
    } else {
        pool.push(descriptor)
    }
}

impl TexturePool {
    /// No descriptor is held twice.
    pub open spec fn wf(&self) -> bool {
        distinct(self@)
    }

    /// The texture that the pool holds for `descriptor`, if any.
    pub open spec fn lookup(&self, descriptor: TextureDescriptor) -> Option<TextureId> {
        pool_lookup(self@, descriptor)
    }

    /// An empty pool.
    pub fn new() -> (pool: Self)
        ensures
            pool.wf(),
            pool@ == Seq::<TextureDescriptor>::empty(),
    {
        TexturePool { descriptors: Vec::new() }
    }

    /// Number of textures that the pool holds.
    pub fn len(&self) -> (n: usize)
        ensures
            n == self@.len(),
    {
        self.descriptors.len()
    }

    /// The descriptor of a texture of the pool.
    pub fn descriptor(&self, texture: TextureId) -> (descriptor: Option<TextureDescriptor>)
        ensures
            descriptor == if texture.0 < self@.len() {
                Some(self@[texture.0 as int])
            } else {
                None
            },
    {
        if texture.0 < self.descriptors.len() {
            Some(self.descriptors[texture.0])
        } else {
            None
        }
    }

    /// Finds the texture held for `descriptor`.
    pub fn find(&self, descriptor: &TextureDescriptor) -> (found: Option<TextureId>)
        requires
            self.wf(),
        ensures
            found == self.lookup(*descriptor),
    {
        let mut i: usize = 0;
        while i < self.descriptors.len()
            invariant
                self.wf(),
                i <= self.descriptors.len(),
                forall|k: int| 0 <= k < i ==> self@[k] != *descriptor,
            decreases self.descriptors.len() - i,
        {
            if self.descriptors[i] == *descriptor {
                proof {
                    lemma_index_of_distinct(self@, *descriptor, i as int);
                }
                return Some(TextureId(i));
            }
            i += 1;
        }
        None
    }

    /// Hands out the texture for `descriptor`, allocating it on first request.
    pub fn get(&mut self, descriptor: TextureDescriptor) -> (pooled: PooledTexture)
        requires
            old(self).wf(),
        ensures
            final(self).wf(),
            final(self)@ == pool_after(old(self)@, descriptor),
            pooled.texture == pool_texture(old(self)@, descriptor),
            pooled.allocated == !old(self)@.contains(descriptor),
            final(self).lookup(descriptor) == Some(pooled.texture),
    {
        match self.find(&descriptor) {
            Some(texture) => PooledTexture { texture, allocated: false },
            None => {
                let texture = TextureId(self.descriptors.len());
                proof {
                    lemma_push_distinct(self@, descriptor);
                }
                self.descriptors.push(descriptor);
                PooledTexture { texture, allocated: true }
            },
        }
    }
}

/// A request repeated with the same descriptor is served by the same
/// texture, and the repetition allocates nothing.
pub proof fn lemma_same_descriptor_same_texture(
    pool: Seq<TextureDescriptor>,
    descriptor: TextureDescriptor,
)
    requires
        distinct(pool),
    ensures
        distinct(pool_after(pool, descriptor)),
        pool_after(pool, descriptor).contains(descriptor),
        pool_texture(pool_after(pool, descriptor), descriptor) == pool_texture(pool, descriptor),
        pool_after(pool_after(pool, descriptor), descriptor) == pool_after(pool, descriptor),
{
    if !pool.contains(descriptor) {
        lemma_push_distinct(pool, descriptor);
    }
}

/// Requests with different descriptors, a different size among them, are
/// served by different textures, in a pool whose textures can be counted by a
/// machine word.
pub proof fn lemma_other_descriptor_other_texture(
    pool: Seq<TextureDescriptor>,
    first: TextureDescriptor,
    second: TextureDescriptor,
)
    requires
        distinct(pool),
        pool.len() < usize::MAX,
        first != second,
    ensures
        pool_texture(pool_after(pool, first), second) != pool_texture(pool, first),
{
    let after = pool_after(pool, first);
    lemma_same_descriptor_same_texture(pool, first);
    let i = if pool.contains(first) {
        pool.index_of(first)
    } else {
        pool.len() as int
    };
    assert(after[i] == first);
    assert(pool_texture(pool, first) == TextureId(i as usize));
    if after.contains(second) {
        let j = after.index_of(second);
        assert(after[j] == second);
        assert(i != j);
    }
}

/// A request leaves every texture of the pool under its handle.
pub proof fn lemma_pool_keeps_textures(
    pool: Seq<TextureDescriptor>,
    descriptor: TextureDescriptor,
    other: TextureDescriptor,
)
    requires
        distinct(pool),
        pool.contains(other),
    ensures
        pool.is_prefix_of(pool_after(pool, descriptor)),
        pool_lookup(pool_after(pool, descriptor), other) == pool_lookup(pool, other),
{
    let after = pool_after(pool, descriptor);
    lemma_same_descriptor_same_texture(pool, descriptor);
    let i = pool.index_of(other);
    assert(after[i] == other);
    lemma_index_of_distinct(after, other, i);
}

} // verus!
