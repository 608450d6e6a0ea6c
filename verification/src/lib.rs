//! A minimal display stack for an embedded Linux device with no windowing
//! system: it owns the display-control device, negotiates a video mode,
//! maintains a scanout buffer chain, interprets per-frame draw commands
//! against a fixed-resolution off-screen target, and paces a present loop.
//!
//! This crate holds the verified core: mode selection, the frame command
//! model, the compositor's draw plan, the swapchain presenter state machine,
//! frame pacing, and teardown planning. The thin shell that performs the
//! actual kernel and GPU calls lives outside and drives this core.

use vstd::prelude::*;

pub mod chain;
pub mod color;
pub mod compositor;
pub mod font;
pub mod frame;
pub mod geom;
pub mod graphics;
pub mod input;
pub mod lifecycle;
pub mod mode;
pub mod pacing;
pub mod shader;
pub mod sprite;
pub mod swapchain;
pub mod text;
pub mod texture;

verus! {

/// Logical render-target width in pixels: the game's native resolution,
/// independent of the physical display mode.
pub const WIDTH: u32 = 320;

/// Logical render-target height in pixels.
pub const HEIGHT: u32 = 240;

} // verus!
