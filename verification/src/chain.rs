//! The buffer chain's two-phase format handshake.
//!
//! The chain's surface is created provisionally with a default opaque
//! 32-bit format so the rendering context has something to bind to during
//! negotiation; once the context layer reads the configuration's native
//! pixel format, the surface is rebuilt with that format, before first
//! use. This module tracks which phase the surface is in, so rendering
//! can only begin against the finalized surface.

use vstd::prelude::*;

use crate::geom::UVec2;

verus! {

/// Whether the chain's surface still carries the provisional format or
/// the negotiated one.
#[derive(Clone, Copy, Debug, PartialEq, Eq, Structural)]
pub enum SurfacePhase {
    /// Created with the default format; only good for context
    /// negotiation.
    Provisional,
    /// Rebuilt with the format the context negotiation reported.
    Finalized { format: u32 },
}

/// The buffer chain's negotiated state: the surface size (the selected
/// mode's size) and the format phase.
#[derive(Clone, Copy, Debug, PartialEq, Eq, Structural)]
pub struct BufferChain {
    pub size: UVec2,
    pub phase: SurfacePhase,
}

impl BufferChain {
    /// A provisional chain sized to the selected mode.
    pub fn new(size: UVec2) -> (c: BufferChain)
        ensures
            c == (BufferChain { size, phase: SurfacePhase::Provisional }),
    {
        BufferChain { size, phase: SurfacePhase::Provisional }
    }

    /// Records the rebuild with the native format the context negotiation
    /// reported. The size never changes.
    pub fn finalize(&mut self, format: u32)
        ensures
            *final(self) == (BufferChain {
                size: old(self).size,
                phase: SurfacePhase::Finalized { format },
            }),
    {
        self.phase = SurfacePhase::Finalized { format };
    }

    /// Whether rendering may begin: only against a finalized surface.
    pub fn ready(&self) -> (r: bool)
        ensures
            r == (self.phase matches SurfacePhase::Finalized { .. }),
    {
        match self.phase {
            SurfacePhase::Finalized { .. } => true,
            SurfacePhase::Provisional => false,
        }
    }
}

} // verus!
