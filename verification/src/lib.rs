//! Shadow occlusion pass for an infinite ground grid.
//!
//! The crate decides, on plain values, everything the shadow pass needs each
//! frame: how large the shadow texture is, which pooled texture a grid view
//! renders into, which pipeline a mesh is drawn with, which draws are queued,
//! what the bind groups hold and which render passes are recorded.  The host
//! performs the GPU work that these decisions describe.
//!
//! The library depends on no renderer.  Where the host's renderer has a
//! function of its own for a step (a texture cache, a pipeline cache, the
//! check of a mesh's vertex attributes, the choice of the mesh's bind-group
//! layout), the step is decided here on the library's own values, and the host
//! carries it out with its renderer.  No error of this subsystem is fatal:
//! what cannot be prepared is skipped for the frame.

pub mod bind_group;
pub mod entity;
pub mod pass;
pub mod pipeline;
pub mod queue;
pub mod register;
pub mod resources;
pub mod settings;
pub mod sizing;
pub mod specializer;
pub mod texture;
pub mod unique;
pub mod view;
