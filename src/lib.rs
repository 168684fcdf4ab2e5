//! Frame orchestration and automatic exposure for a deferred renderer.
//!
//! The library holds the renderer's decisions as verified code: histogram
//! percentile analysis and the compute engine's dispatch state, the exact
//! EV100 mapping, framebuffer caching, the per-frame state machine and the
//! pass submission order, render pass layouts, the attachment set and the
//! per-frame draw queues. GPU work is done by the caller.
pub mod attachments;
pub mod compute;
pub mod exposure;
pub mod framebuffer;
pub mod geometry;
pub mod histogram;
pub mod material;
pub mod queues;
pub mod reduction;
pub mod renderer;
pub mod renderpass;
pub mod sequence;
