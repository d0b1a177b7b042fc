use grid_shadow::entity::Entity;
use grid_shadow::settings::RenderSettings;
use grid_shadow::sizing::Extent;
use grid_shadow::texture::{
    shadow_texture_descriptor, PooledTexture, TextureDescriptor, TextureDimension, TextureFormat,
    TextureId, TexturePool, TextureUsages, SHADOW_TEXTURE_LABEL,
};
use grid_shadow::view::{prepare_grid_shadow_views, ShadowView, Viewport, SHADOW_CAMERA_OFFSET};

fn descriptor(width: u32, height: u32) -> TextureDescriptor {
    shadow_texture_descriptor(Extent { width, height })
}

#[test]
fn shadow_texture_is_single_channel_render_target() {
    let d = descriptor(16384, 9216);
    assert_eq!(
        d,
        TextureDescriptor {
            width: 16384,
            height: 9216,
            depth_or_array_layers: 1,
            mip_level_count: 1,
            sample_count: 1,
            dimension: TextureDimension::D2,
            format: TextureFormat::R8Unorm,
            usage: TextureUsages {
                copy_src: false,
                copy_dst: false,
                texture_binding: true,
                storage_binding: false,
                render_attachment: true,
            },
        }
    );
    assert_eq!(SHADOW_TEXTURE_LABEL, "grid_shadow_texture");
}

#[test]
fn pool_starts_empty() {
    let pool = TexturePool::new();
    assert_eq!(pool.len(), 0);
    assert_eq!(pool.find(&descriptor(4, 4)), None);
    assert_eq!(pool.descriptor(TextureId(0)), None);
}

#[test]
fn identical_descriptor_returns_the_same_texture() {
    let mut pool = TexturePool::new();
    let first = pool.get(descriptor(16384, 9216));
    let second = pool.get(descriptor(16384, 9216));
    assert_eq!(first, PooledTexture { texture: TextureId(0), allocated: true });
    assert_eq!(second, PooledTexture { texture: TextureId(0), allocated: false });
    assert_eq!(pool.len(), 1);
}

#[test]
fn different_size_allocates_a_distinct_texture() {
    let mut pool = TexturePool::new();
    let first = pool.get(descriptor(16384, 9216));
    let second = pool.get(descriptor(9216, 16384));
    assert_ne!(first.texture, second.texture);
    assert_eq!(second, PooledTexture { texture: TextureId(1), allocated: true });
    assert_eq!(pool.len(), 2);
    // both stay under their handles
    assert_eq!(pool.get(descriptor(16384, 9216)).texture, first.texture);
    assert_eq!(pool.get(descriptor(9216, 16384)).texture, second.texture);
    assert_eq!(pool.len(), 2);
    assert_eq!(pool.descriptor(TextureId(0)), Some(descriptor(16384, 9216)));
    assert_eq!(pool.descriptor(TextureId(1)), Some(descriptor(9216, 16384)));
    assert_eq!(pool.descriptor(TextureId(2)), None);
}

#[test]
fn different_format_or_usage_allocates_a_distinct_texture() {
    let mut pool = TexturePool::new();
    let base = descriptor(64, 64);
    let mut other_format = base;
    other_format.format = TextureFormat::Rgba8Unorm;
    let mut other_usage = base;
    other_usage.usage.copy_src = true;
    let a = pool.get(base);
    let b = pool.get(other_format);
    let c = pool.get(other_usage);
    assert_eq!((a.texture, b.texture, c.texture), (TextureId(0), TextureId(1), TextureId(2)));
    assert!(a.allocated && b.allocated && c.allocated);
    assert_eq!(pool.find(&other_format), Some(TextureId(1)));
    assert_eq!(pool.find(&other_usage), Some(TextureId(2)));
}

#[test]
fn no_primary_window_skips_preparation() {
    let mut pool = TexturePool::new();
    let grids = vec![Entity(1), Entity(2)];
    let views = prepare_grid_shadow_views(&grids, &mut pool, None, &RenderSettings::default());
    assert!(views.is_empty());
    assert_eq!(pool.len(), 0);
}

#[test]
fn no_grid_prepares_nothing_and_allocates_nothing() {
    let mut pool = TexturePool::new();
    let grids: Vec<Entity> = Vec::new();
    let views = prepare_grid_shadow_views(
        &grids,
        &mut pool,
        Some(Extent { width: 1920, height: 1080 }),
        &RenderSettings::default(),
    );
    assert!(views.is_empty());
    assert_eq!(pool.len(), 0);
}

#[test]
fn every_grid_gets_exactly_one_view() {
    let mut pool = TexturePool::new();
    let grids = vec![Entity(7), Entity(3), Entity(900)];
    let views = prepare_grid_shadow_views(
        &grids,
        &mut pool,
        Some(Extent { width: 1920, height: 1080 }),
        &RenderSettings::default(),
    );
    let expected: Vec<ShadowView> = grids
        .iter()
        .map(|&entity| ShadowView {
            entity,
            viewport: Viewport { x: 0, y: 0, width: 16384, height: 9216 },
            texture_view: TextureId(0),
            camera_offset: 500,
            hdr: false,
        })
        .collect();
    assert_eq!(views, expected);
    assert_eq!(SHADOW_CAMERA_OFFSET, 500);
    assert_eq!(pool.len(), 1);
    assert_eq!(pool.descriptor(TextureId(0)), Some(descriptor(16384, 9216)));
}

#[test]
fn portrait_window_prepares_portrait_views() {
    let mut pool = TexturePool::new();
    let grids = vec![Entity(1)];
    let views = prepare_grid_shadow_views(
        &grids,
        &mut pool,
        Some(Extent { width: 1080, height: 1920 }),
        &RenderSettings::default(),
    );
    assert_eq!(views.len(), 1);
    assert_eq!(views[0].viewport, Viewport { x: 0, y: 0, width: 9216, height: 16384 });
}

#[test]
fn configured_maximum_governs_the_texture() {
    let mut pool = TexturePool::new();
    let grids = vec![Entity(1)];
    let settings = RenderSettings { max_texture_size: 2048 };
    let views = prepare_grid_shadow_views(
        &grids,
        &mut pool,
        Some(Extent { width: 2560, height: 1440 }),
        &settings,
    );
    assert_eq!(views[0].viewport, Viewport { x: 0, y: 0, width: 2048, height: 1152 });
    assert_eq!(pool.find(&descriptor(2048, 1152)), Some(TextureId(0)));
}

#[test]
fn next_frame_reuses_the_texture_and_a_resize_allocates() {
    let mut pool = TexturePool::new();
    let grids = vec![Entity(1), Entity(2)];
    let settings = RenderSettings::default();
    let first =
        prepare_grid_shadow_views(&grids, &mut pool, Some(Extent { width: 800, height: 600 }), &settings);
    let second =
        prepare_grid_shadow_views(&grids, &mut pool, Some(Extent { width: 800, height: 600 }), &settings);
    assert_eq!(first, second);
    assert_eq!(pool.len(), 1);
    let resized =
        prepare_grid_shadow_views(&grids, &mut pool, Some(Extent { width: 600, height: 800 }), &settings);
    assert_eq!(pool.len(), 2);
    assert_eq!(resized[0].texture_view, TextureId(1));
    assert_eq!(resized[1].texture_view, TextureId(1));
    assert_eq!(resized[0].viewport, Viewport { x: 0, y: 0, width: 12288, height: 16384 });
}
