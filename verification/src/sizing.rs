//! Size of the shadow texture for a viewport.

use vstd::prelude::*;

verus! {

/// Physical size of a viewport or of a texture, in pixels.
#[derive(Clone, Copy, Debug, PartialEq, Eq, Structural)]
pub struct Extent {
    pub width: u32,
    pub height: u32,
}

/// The shorter of the two edges of a viewport.
pub open spec fn short_edge(width: u32, height: u32) -> int {
    if width < height {
        width as int
    } else {
        height as int
    }
}

/// The longer of the two edges of a viewport.
pub open spec fn long_edge(width: u32, height: u32) -> int {
    if width < height {
        height as int
    } else {
        width as int
    }
}

/// Length of the shadow texture's short axis: the configured maximum scaled by
/// the viewport's aspect ratio `short / long`, rounded down.  A viewport
/// without area has no ratio; its short axis is zero.
pub open spec fn short_axis(width: u32, height: u32, max_texture_size: u32) -> int {
    if long_edge(width, height) == 0 {
        0
    } else {
        (max_texture_size * short_edge(width, height)) / long_edge(width, height)
    }
}

/// Width of the shadow texture for a viewport.
pub open spec fn texture_width(width: u32, height: u32, max_texture_size: u32) -> int {
    if width < height {
        short_axis(width, height, max_texture_size)
    } else {
        max_texture_size as int
    }
}

/// Height of the shadow texture for a viewport.
pub open spec fn texture_height(width: u32, height: u32, max_texture_size: u32) -> int {
    if width < height {
        max_texture_size as int
    } else {
        short_axis(width, height, max_texture_size)
    }
}

/// The short axis never exceeds the configured maximum.
pub proof fn lemma_short_axis_bounded(width: u32, height: u32, max_texture_size: u32)
    ensures
        0 <= short_axis(width, height, max_texture_size) <= max_texture_size,
{
    let lo = short_edge(width, height);
    let hi = long_edge(width, height);
    let t = max_texture_size as int;
    if hi != 0 {
        assert(0 <= (t * lo) / hi <= t) by (nonlinear_arith)
            requires
                0 <= lo <= hi,
                0 < hi,
                0 <= t,
        ;
    }
}

/// The long axis of the texture is the configured maximum and the short axis
/// does not exceed it; the texture is at least as high as wide exactly for a
/// viewport that is higher than wide.
pub proof fn lemma_texture_size_bounded(width: u32, height: u32, max_texture_size: u32)
    ensures
        0 <= texture_width(width, height, max_texture_size) <= max_texture_size,
        0 <= texture_height(width, height, max_texture_size) <= max_texture_size,
        width < height ==> texture_height(width, height, max_texture_size) == max_texture_size,
        width >= height ==> texture_width(width, height, max_texture_size) == max_texture_size,
{
    lemma_short_axis_bounded(width, height, max_texture_size);
}

/// Swapping the edges of a viewport that has an edge swaps the edges of its
/// texture.
pub proof fn lemma_texture_size_transposes(width: u32, height: u32, max_texture_size: u32)
    requires
        width != 0 || height != 0,
    ensures
        texture_width(height, width, max_texture_size) == texture_height(
            width,
            height,
            max_texture_size,
        ),
        texture_height(height, width, max_texture_size) == texture_width(
            width,
            height,
            max_texture_size,
        ),
{
    if width == height {
        let w = width as int;
        let t = max_texture_size as int;
        assert((t * w) / w == t) by (nonlinear_arith)
            requires
                w > 0,
        ;
    }
}

/// Computes the shadow texture's size from the viewport's physical size.
///
/// The texture's long axis is `max_texture_size`, its short axis is
/// `max_texture_size` scaled by the viewport's aspect ratio and rounded down,
/// and the texture is oriented as the viewport is.
pub fn texture_size(viewport: Extent, max_texture_size: u32) -> (size: Extent)
    ensures
        size.width == texture_width(viewport.width, viewport.height, max_texture_size),
        size.height == texture_height(viewport.width, viewport.height, max_texture_size),
{
    let portrait = viewport.width < viewport.height;
    let (lo, hi): (u32, u32) = if portrait {
        (viewport.width, viewport.height)
    } else {
        (viewport.height, viewport.width)
    };
    let short: u32 = if hi == 0 {
        0
    } else {
        proof {
            lemma_short_axis_bounded(viewport.width, viewport.height, max_texture_size);
            assert((max_texture_size as int) * (lo as int) <= u64::MAX) by (nonlinear_arith)
                requires
                    0 <= max_texture_size <= u32::MAX,
                    0 <= lo <= u32::MAX,
            ;
        }
        let scaled: u64 = (max_texture_size as u64) * (lo as u64) / (hi as u64);
        scaled as u32
    };
    if portrait {
        Extent { width: short, height: max_texture_size }
    } else {
        Extent { width: max_texture_size, height: short }
    }
}

} // verus!
