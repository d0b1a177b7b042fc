use grid_shadow::settings::{RenderSettings, DEFAULT_MAX_TEXTURE_SIZE};
use grid_shadow::sizing::{texture_size, Extent};

fn size(width: u32, height: u32, max: u32) -> (u32, u32) {
    let s = texture_size(Extent { width, height }, max);
    (s.width, s.height)
}

#[test]
fn default_settings_use_16384() {
    assert_eq!(RenderSettings::default().max_texture_size, 16384);
    assert_eq!(DEFAULT_MAX_TEXTURE_SIZE, 16384);
}

#[test]
fn landscape_viewport_keeps_landscape_texture() {
    assert_eq!(size(1920, 1080, 16384), (16384, 9216));
}

#[test]
fn portrait_viewport_flips_the_texture() {
    assert_eq!(size(1080, 1920, 16384), (9216, 16384));
}

#[test]
fn square_viewport_gives_square_texture() {
    assert_eq!(size(800, 800, 4096), (4096, 4096));
    assert_eq!(size(1, 1, 16384), (16384, 16384));
}

#[test]
fn short_axis_is_rounded_down() {
    // 7 * 5 / 7 = 5 exactly; 10 * 2 / 3 = 6.66..; 1000 * 1 / 3 = 333.33..
    assert_eq!(size(7, 5, 7), (7, 5));
    assert_eq!(size(3, 2, 10), (10, 6));
    assert_eq!(size(1, 3, 1000), (333, 1000));
    assert_eq!(size(2560, 1440, 2048), (2048, 1152));
    assert_eq!(size(1366, 768, 16384), (16384, 9211));
}

#[test]
fn viewport_without_area_has_no_short_axis() {
    assert_eq!(size(0, 0, 16384), (16384, 0));
    assert_eq!(size(0, 1080, 16384), (0, 16384));
    assert_eq!(size(1920, 0, 16384), (16384, 0));
}

#[test]
fn zero_maximum_gives_empty_texture() {
    assert_eq!(size(1920, 1080, 0), (0, 0));
}

#[test]
fn largest_values_do_not_overflow() {
    assert_eq!(size(u32::MAX, u32::MAX, u32::MAX), (u32::MAX, u32::MAX));
    assert_eq!(size(u32::MAX, 1, u32::MAX), (u32::MAX, 1));
    assert_eq!(size(1, u32::MAX, u32::MAX), (1, u32::MAX));
    assert_eq!(size(u32::MAX, u32::MAX - 1, u32::MAX), (u32::MAX, u32::MAX - 1));
}

#[test]
fn long_axis_is_the_maximum_and_short_axis_stays_below() {
    for &(w, h) in &[(1u32, 2u32), (640, 480), (480, 640), (3840, 2160), (1, 100000), (17, 17)] {
        for &max in &[1u32, 255, 1024, 16384] {
            let (tw, th) = size(w, h, max);
            assert_eq!(tw.max(th), max);
            assert!(tw.min(th) <= max);
            assert_eq!(tw < th, w < h && tw != th);
        }
    }
}

#[test]
fn texture_size_is_idempotent_for_identical_inputs() {
    assert_eq!(size(1280, 720, 8192), size(1280, 720, 8192));
    assert_eq!(size(1280, 720, 8192), (8192, 4608));
}

#[test]
fn swapping_the_viewport_swaps_the_texture() {
    for &(w, h) in &[(1920u32, 1080u32), (5, 7), (1, 1), (0, 9), (1024, 1023)] {
        let (a, b) = size(w, h, 16384);
        assert_eq!(size(h, w, 16384), (b, a));
    }
}

#[test]
fn short_axis_is_the_exact_floor() {
    // the ratio 13/22 has no finite binary expansion; the result is exact all the same
    assert_eq!(size(22, 13, 22), (22, 13));
    assert_eq!(size(13, 22, 44), (26, 44));
    assert_eq!(size(23, 7, 46), (46, 14));
    for long in 1u32..200 {
        for short in 0..=long {
            assert_eq!(size(long, short, long), (long, short));
            assert_eq!(size(long, short, 3 * long), (3 * long, 3 * short));
        }
    }
}
