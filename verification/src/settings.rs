//! Configuration of the shadow texture.

use vstd::prelude::*;

verus! {

/// Largest shadow texture edge used when nothing else is configured.
pub const DEFAULT_MAX_TEXTURE_SIZE: u32 = 16384;

/// Configuration of the shadow texture.
#[derive(Clone, Copy, Debug, PartialEq, Eq)]
pub struct RenderSettings {
    /// Length, in texels, of the longer edge of the shadow texture.
    pub max_texture_size: u32,
}

impl Default for RenderSettings {
    fn default() -> (settings: Self)
        ensures
            settings.max_texture_size == DEFAULT_MAX_TEXTURE_SIZE,
    {
        RenderSettings { max_texture_size: DEFAULT_MAX_TEXTURE_SIZE }
    }
}

} // verus!
