//! The rendering core of a small real-time 3D engine: resource identities,
//! mesh assets and their upload layout, the draw register, the pipeline and
//! shader caches, device selection and the per-frame control loop.
//!
//! Every GPU call is made by the host program; this crate decides what is
//! asked of the GPU and keeps the bookkeeping that those calls rely on.

pub mod id;
pub mod mesh;
pub mod loader;
pub mod allocator;
pub mod asset;
pub mod register;
pub mod shader;
pub mod utils;
pub mod configuration;
pub mod pipeline;
pub mod device;
pub mod frame;
pub mod vertex_states;
pub mod swapchain;
pub mod fps_counter;
pub mod upload;
pub mod rendering_info;
