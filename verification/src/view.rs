//! The shadow views of the grids, prepared once per frame.

use vstd::prelude::*;
use crate::entity::Entity;
use crate::settings::RenderSettings;
use crate::sizing::{texture_height, texture_size, texture_width, Extent};
use crate::texture::{
    lemma_same_descriptor_same_texture, pool_after, pool_texture, shadow_texture_descriptor,
    shadow_texture_descriptor_spec, TextureDescriptor, TextureId, TexturePool,
};

verus! {

/// Distance, in world units, between the centre of a grid's visible footprint
/// and the virtual camera that looks down on it.
pub const SHADOW_CAMERA_OFFSET: u32 = 500;

/// Rectangle of pixels that a view renders to.
#[derive(Clone, Copy, Debug, PartialEq, Eq, Structural)]
pub struct Viewport {
    pub x: u32,
    pub y: u32,
    pub width: u32,
    pub height: u32,
}

/// The shadow view of one grid for one frame.
#[derive(Clone, Copy, Debug, PartialEq, Eq, Structural)]
pub struct ShadowView {
    /// The grid that the view belongs to.
    pub entity: Entity,
    /// The whole shadow texture.
    pub viewport: Viewport,
    /// The pooled texture that the view renders into.
    pub texture_view: TextureId,
    /// Distance of the camera from the footprint's centre, along the grid's up
    /// direction.
    pub camera_offset: u32,
    /// Whether the view renders with high dynamic range.
    pub hdr: bool,
}

/// Size of the shadow texture for a primary window under `settings`.
pub open spec fn shadow_texture_size(window: Extent, settings: RenderSettings) -> Extent {
    Extent {
        width: texture_width(window.width, window.height, settings.max_texture_size) as u32,
        height: texture_height(window.width, window.height, settings.max_texture_size) as u32,
    }
}

/// The shadow view of `entity` that renders to all of `texture`, a texture of
/// the given size.
pub open spec fn shadow_view(entity: Entity, size: Extent, texture: TextureId) -> ShadowView {
    ShadowView {
        entity,
        viewport: Viewport { x: 0, y: 0, width: size.width, height: size.height },
        texture_view: texture,
        camera_offset: SHADOW_CAMERA_OFFSET,
        hdr: false,
    }
}

/// What the pool holds after the shadow textures of `grids` grids were
/// requested with `descriptor`: all of them are served by one texture, which
/// is allocated if the pool did not hold it.
pub open spec fn pool_after_prepare(
    pool: Seq<TextureDescriptor>,
    grids: nat,
    descriptor: TextureDescriptor,
) -> Seq<TextureDescriptor> {
    if grids == 0 {
        pool
    } else {
        pool_after(pool, descriptor)
    }
}

/// Prepares the shadow view of every grid for the frame.
///
/// Without a primary window the step is skipped: no view is prepared and the
/// pool is left alone.  Otherwise every grid gets exactly one view, in the
/// order of `grids`, that covers the pooled texture sized for the window: the
/// one that the pool held for that size, else one that it allocates.
pub fn prepare_grid_shadow_views(
    grids: &Vec<Entity>,
    texture_cache: &mut TexturePool,
    primary_window: Option<Extent>,
    settings: &RenderSettings,
) -> (views: Vec<ShadowView>)
    requires
        old(texture_cache).wf(),
    ensures
        final(texture_cache).wf(),
        primary_window is None ==> views@.len() == 0 && final(texture_cache)@ == old(
            texture_cache,
        )@,
        primary_window is Some ==> {
            let size = shadow_texture_size(primary_window->0, *settings);
            let descriptor = shadow_texture_descriptor_spec(size);
            &&& views@.len() == grids@.len()
            &&& final(texture_cache)@ == pool_after_prepare(
                old(texture_cache)@,
                grids@.len(),
                descriptor,
            )
            &&& forall|i: int|
                0 <= i < grids@.len() ==> #[trigger] views@[i] == shadow_view(
                    grids@[i],
                    size,
                    pool_texture(old(texture_cache)@, descriptor),
                )
        },
{
    let mut views: Vec<ShadowView> = Vec::new();
    let window = match primary_window {
        Some(window) => window,
        None => {
            return views;
        },
    };
    let size = texture_size(window, settings.max_texture_size);
    let descriptor = shadow_texture_descriptor(size);
    let mut i: usize = 0;
    while i < grids.len()
        invariant
            i <= grids.len(),
            old(texture_cache).wf(),
            texture_cache.wf(),
            primary_window == Some(window),
            size == shadow_texture_size(window, *settings),
            descriptor == shadow_texture_descriptor_spec(size),
            views@.len() == i,
            texture_cache@ == pool_after_prepare(old(texture_cache)@, i as nat, descriptor),
            forall|k: int|
                0 <= k < i ==> #[trigger] views@[k] == shadow_view(
                    grids@[k],
                    size,
                    pool_texture(old(texture_cache)@, descriptor),
                ),
        decreases grids.len() - i,
    {
        proof {
            lemma_same_descriptor_same_texture(old(texture_cache)@, descriptor);
        }
        let pooled = texture_cache.get(descriptor);
        views.push(
            ShadowView {
                entity: grids[i],
                viewport: Viewport { x: 0, y: 0, width: size.width, height: size.height },
                texture_view: pooled.texture,
                camera_offset: SHADOW_CAMERA_OFFSET,
                hdr: false,
            },
        );
        i += 1;
    }
    views
}

} // verus!
