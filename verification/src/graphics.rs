//! The top-level graphics core: the error taxonomy, the per-process
//! load guard state, and the per-frame bookkeeping (presenter, pacing,
//! frame rate) behind `present_frame` and `fps`.

use vstd::prelude::*;

use crate::mode::DrmError;
use crate::pacing::{sleep_duration, FpsCounter, FRAME_INTERVAL_US};
use crate::shader::ShaderError;
use crate::swapchain::{FbHandle, Presenter, PresentError, PresentPhase, StepOutcome};

verus! {

/// Everything that can go wrong while loading the stack or presenting a
/// frame.
#[derive(Clone, Debug, PartialEq, Eq)]
pub enum GraphicsError {
    /// No display-control device node matched, or none opened.
    DeviceNotFound,
    /// No output reported a connected monitor.
    NoConnectedOutput,
    /// No scan engine was reachable through the output's encoders.
    NoSuitableCrtc,
    /// The buffer chain or GPU memory allocation failed.
    AllocationFailed,
    /// Rendering-API initialization, configuration, context or surface
    /// creation failed.
    ContextNegotiationFailed,
    /// A GPU program failed to compile or link.
    Shader(ShaderError),
    /// The off-screen target is incomplete.
    FramebufferIncomplete,
    /// A mid-frame presentation step failed.
    Present(PresentError),
    /// The stack is already loaded in this process.
    AlreadyLoaded,
}

/// The graphics error a mode-negotiation failure surfaces.
pub fn graphics_error_from_drm(e: DrmError) -> (r: GraphicsError)
    ensures
        r == match e {
            DrmError::IO => GraphicsError::DeviceNotFound,
            DrmError::NoConnectors => GraphicsError::NoConnectedOutput,
            DrmError::NoCRTC => GraphicsError::NoSuitableCrtc,
        },
{
    match e {
        DrmError::IO => GraphicsError::DeviceNotFound,
        DrmError::NoConnectors => GraphicsError::NoConnectedOutput,
        DrmError::NoCRTC => GraphicsError::NoSuitableCrtc,
    }
}

/// The per-process single-instance guard: the stack may be loaded at most
/// once at a time.
#[derive(Clone, Copy, Debug, PartialEq, Eq, Structural)]
pub struct LoadGuard {
    pub loaded: bool,
}

impl LoadGuard {
    /// The guard at process start: nothing loaded.
    pub fn new() -> (g: LoadGuard)
        ensures
            g == (LoadGuard { loaded: false }),
    {
        LoadGuard { loaded: false }
    }

    /// Claims the single instance. A second claim fails with
    /// `AlreadyLoaded` and changes nothing, so a second load mutates no
    /// display state.
    pub fn try_acquire(&mut self) -> (r: Result<(), GraphicsError>)
        ensures
            old(self).loaded ==> r == Err::<(), GraphicsError>(GraphicsError::AlreadyLoaded)
                && *final(self) == *old(self),
            !old(self).loaded ==> r == Ok::<(), GraphicsError>(()) && final(self).loaded,
    {
        if self.loaded {
            Err(GraphicsError::AlreadyLoaded)
        } else {
            self.loaded = true;
            Ok(())
        }
    }

    /// Releases the instance at teardown; a later load may claim it
    /// again.
    pub fn release(&mut self)
        ensures
            *final(self) == (LoadGuard { loaded: false }),
    {
        self.loaded = false;
    }
}

/// The verified state behind the public graphics handle: the presenter
/// state machine and the frame counters. The device, buffer-chain and GPU
/// handles live in the shell that owns the corresponding kernel objects.
#[derive(Clone, Copy, Debug, PartialEq, Eq, Structural)]
pub struct Graphics {
    pub presenter: Presenter,
    pub fps_counter: FpsCounter,
}

impl Graphics {
    /// The core after a successful load: at rest, with the first-mode-set
    /// framebuffer current and the counters fresh.
    pub fn new(initial_fb: FbHandle) -> (g: Graphics)
        ensures
            g.presenter == (Presenter { phase: PresentPhase::Idle, current_fb: initial_fb }),
            g.fps_counter == (FpsCounter { frames: 0, fps: 0 }),
    {
        Graphics { presenter: Presenter::new(initial_fb), fps_counter: FpsCounter::new() }
    }

    /// The frame rate of the last full one-second window.
    pub fn fps(&self) -> (r: u32)
        ensures
            r == self.fps_counter.fps,
    {
        self.fps_counter.fps()
    }

    /// Advances the presenter on an outcome the shell reports, surfacing
    /// a mid-frame failure as `Present`.
    pub fn present_step(&mut self, ev: StepOutcome) -> (r: Result<(), GraphicsError>)
        requires
            crate::swapchain::outcome_fits(old(self).presenter.phase, ev),
        ensures
            final(self).presenter == crate::swapchain::spec_step(old(self).presenter, ev).0,
            final(self).fps_counter == old(self).fps_counter,
            r == match crate::swapchain::spec_step(old(self).presenter, ev).1 {
                None => Ok::<(), GraphicsError>(()),
                Some(e) => Err(GraphicsError::Present(e)),
            },
    {
        match self.presenter.step(ev) {
            Ok(()) => Ok(()),
            Err(e) => Err(GraphicsError::Present(e)),
        }
    }

    /// Closes a frame: how long to sleep of the target interval given the
    /// frame's cost so far, and whether the shell must restart its
    /// one-second window timer. Mirrors the pacing step of the present
    /// loop.
    pub fn end_frame(&mut self, frame_elapsed_us: u64, window_elapsed_us: u64) -> (r: (u64, bool))
        ensures
            r.0 == if frame_elapsed_us >= FRAME_INTERVAL_US {
                0u64
            } else {
                (FRAME_INTERVAL_US - frame_elapsed_us) as u64
            },
            final(self).presenter == old(self).presenter,
            final(self).fps_counter == crate::pacing::spec_record(
                old(self).fps_counter,
                window_elapsed_us,
            ),
            r.1 == (window_elapsed_us >= crate::pacing::FPS_WINDOW_US),
    {
        let sleep_us = sleep_duration(FRAME_INTERVAL_US, frame_elapsed_us);
        let reset = self.fps_counter.record_frame(window_elapsed_us);
        (sleep_us, reset)
    }
}

} // verus!
