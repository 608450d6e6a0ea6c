//! The swapchain presenter: the per-frame state machine that orders GPU
//! swap, scanout registration, page flip, flip-completion wait, and the
//! retirement of the previous scanout handle.
//!
//! The device shell drives the machine: it asks for the next action,
//! performs it against the kernel and GPU, and reports the outcome. The
//! machine decides what follows. Its central invariant: the previous
//! scanout handle is destroyed only after the flip-completion event for
//! the new one has arrived, and on any failure the previous handle stays
//! bound, so the display keeps showing the last good frame.

use vstd::prelude::*;

verus! {

/// A scanout framebuffer handle registered with the display device.
pub type FbHandle = u32;

/// A mid-frame presentation failure, by the step that failed.
#[derive(Clone, Copy, Debug, PartialEq, Eq, Structural)]
pub enum PresentError {
    /// The GPU buffer swap failed.
    Swap,
    /// Acquiring the next front buffer failed.
    Acquire,
    /// Registering the buffer as a scanout framebuffer failed.
    Register,
    /// Requesting the page flip failed.
    Flip,
    /// Waiting for the flip-completion event failed.
    Drain,
    /// Destroying the retired framebuffer handle failed.
    Retire,
}

/// Where the presenter stands within one displayed frame.
#[derive(Clone, Copy, Debug, PartialEq, Eq, Structural)]
pub enum PresentPhase {
    /// Between frames; `current_fb` is bound to the scan engine.
    Idle,
    /// The frame's plan was executed against the off-screen target and
    /// blitted to the drawable.
    Rendered,
    /// The GPU command stream was submitted and the surface's buffers
    /// swapped; a new buffer is ready in the chain's rotation.
    Swapped,
    /// The next front buffer was acquired from the chain.
    Acquired,
    /// The buffer was registered as a scanout framebuffer.
    Registered { new_fb: FbHandle },
    /// The page flip to the new framebuffer was requested, tagged to emit
    /// a completion event.
    FlipRequested { new_fb: FbHandle },
    /// The flip-completion event arrived: the hardware no longer scans the
    /// previous buffer.
    FlipComplete { new_fb: FbHandle },
    /// The previous handle was destroyed; the new one is current.
    Retired { new_fb: FbHandle },
}

/// What the shell must do next.
#[derive(Clone, Copy, Debug, PartialEq, Eq, Structural)]
pub enum PresentAction {
    /// Execute the frame's render plan.
    RenderFrame,
    /// Submit the GPU stream and swap the surface's buffers.
    SwapBuffers,
    /// Block until the next front buffer is ready and take it.
    AcquireFrontBuffer,
    /// Wrap the acquired buffer into a scanout framebuffer handle.
    RegisterBuffer,
    /// Ask the kernel to flip scanout to `fb` at the next vertical blank.
    RequestPageFlip { fb: FbHandle },
    /// Block until the flip-completion event is delivered.
    AwaitFlipEvent,
    /// Destroy the framebuffer handle `fb`, no longer scanned out.
    RetireBuffer { fb: FbHandle },
    /// Sleep out the rest of the frame interval and update the counters.
    Pace,
}

/// The outcome the shell reports for the action it performed.
#[derive(Clone, Copy, Debug, PartialEq, Eq, Structural)]
pub enum StepOutcome {
    /// The action succeeded.
    Done,
    /// Registration succeeded and produced this handle.
    Registered { fb: FbHandle },
    /// The action failed.
    Failed,
}

/// Which outcomes an action in a given phase can report: registration is
/// the one step that returns a handle, rendering the one step that cannot
/// fail.
pub open spec fn outcome_fits(phase: PresentPhase, ev: StepOutcome) -> bool {
    match ev {
        StepOutcome::Done => !(phase is Acquired),
        StepOutcome::Registered { .. } => phase is Acquired,
        StepOutcome::Failed => !(phase is Idle),
    }
}

/// The presenter: its phase within the current frame and the scanout
/// handle bound to the scan engine.
#[derive(Clone, Copy, Debug, PartialEq, Eq, Structural)]
pub struct Presenter {
    pub phase: PresentPhase,
    pub current_fb: FbHandle,
}

/// The action the presenter asks for in each phase.
pub open spec fn spec_next_action(p: Presenter) -> PresentAction {
    match p.phase {
        PresentPhase::Idle => PresentAction::RenderFrame,
        PresentPhase::Rendered => PresentAction::SwapBuffers,
        PresentPhase::Swapped => PresentAction::AcquireFrontBuffer,
        PresentPhase::Acquired => PresentAction::RegisterBuffer,
        PresentPhase::Registered { new_fb } => PresentAction::RequestPageFlip { fb: new_fb },
        PresentPhase::FlipRequested { .. } => PresentAction::AwaitFlipEvent,
        PresentPhase::FlipComplete { .. } => PresentAction::RetireBuffer { fb: p.current_fb },
        PresentPhase::Retired { .. } => PresentAction::Pace,
    }
}

/// The error a failure in each phase surfaces.
pub open spec fn spec_failure(phase: PresentPhase) -> PresentError {
    match phase {
        PresentPhase::Rendered => PresentError::Swap,
        PresentPhase::Swapped => PresentError::Acquire,
        PresentPhase::Acquired => PresentError::Register,
        PresentPhase::Registered { .. } => PresentError::Flip,
        PresentPhase::FlipRequested { .. } => PresentError::Drain,
        PresentPhase::FlipComplete { .. } => PresentError::Retire,
        _ => PresentError::Swap,
    }
}

/// The machine's transition: the presenter after an outcome, and the
/// error surfaced if the outcome was a failure. On failure the machine
/// returns to idle with the previous handle still current. The current
/// handle changes exactly once per cycle: when the retire step completes.
pub open spec fn spec_step(p: Presenter, ev: StepOutcome) -> (Presenter, Option<PresentError>) {
    match ev {
        StepOutcome::Failed => (
            Presenter { phase: PresentPhase::Idle, current_fb: p.current_fb },
            Some(spec_failure(p.phase)),
        ),
        StepOutcome::Registered { fb } => (
            Presenter { phase: PresentPhase::Registered { new_fb: fb }, current_fb: p.current_fb },
            None,
        ),
        StepOutcome::Done => (
            match p.phase {
                PresentPhase::Idle => Presenter { phase: PresentPhase::Rendered, ..p },
                PresentPhase::Rendered => Presenter { phase: PresentPhase::Swapped, ..p },
                PresentPhase::Swapped => Presenter { phase: PresentPhase::Acquired, ..p },
                PresentPhase::Acquired => Presenter { phase: PresentPhase::Acquired, ..p },
                PresentPhase::Registered { new_fb } => Presenter {
                    phase: PresentPhase::FlipRequested { new_fb },
                    ..p
                },
                PresentPhase::FlipRequested { new_fb } => Presenter {
                    phase: PresentPhase::FlipComplete { new_fb },
                    ..p
                },
                PresentPhase::FlipComplete { new_fb } => Presenter {
                    phase: PresentPhase::Retired { new_fb },
                    current_fb: new_fb,
                },
                PresentPhase::Retired { .. } => Presenter { phase: PresentPhase::Idle, ..p },
            },
            None,
        ),
    }
}

impl Presenter {
    /// A presenter at rest, with `initial_fb` bound to the scan engine by
    /// the first mode-set.
    pub fn new(initial_fb: FbHandle) -> (p: Presenter)
        ensures
            p == (Presenter { phase: PresentPhase::Idle, current_fb: initial_fb }),
    {
        Presenter { phase: PresentPhase::Idle, current_fb: initial_fb }
    }

    /// The scanout handle currently bound to the scan engine.
    pub fn current_fb(&self) -> (fb: FbHandle)
        ensures
            fb == self.current_fb,
    {
        self.current_fb
    }

    /// The action the shell must perform next.
    pub fn next_action(&self) -> (a: PresentAction)
        ensures
            a == spec_next_action(*self),
    {
        match self.phase {
            PresentPhase::Idle => PresentAction::RenderFrame,
            PresentPhase::Rendered => PresentAction::SwapBuffers,
            PresentPhase::Swapped => PresentAction::AcquireFrontBuffer,
            PresentPhase::Acquired => PresentAction::RegisterBuffer,
            PresentPhase::Registered { new_fb } => PresentAction::RequestPageFlip { fb: new_fb },
            PresentPhase::FlipRequested { .. } => PresentAction::AwaitFlipEvent,
            PresentPhase::FlipComplete { .. } => PresentAction::RetireBuffer {
                fb: self.current_fb,
            },
            PresentPhase::Retired { .. } => PresentAction::Pace,
        }
    }

    /// Advances the machine on the reported outcome; surfaces the error a
    /// failure denotes.
    pub fn step(&mut self, ev: StepOutcome) -> (r: Result<(), PresentError>)
        requires
            outcome_fits(old(self).phase, ev),
        ensures
            *final(self) == spec_step(*old(self), ev).0,
            r == match spec_step(*old(self), ev).1 {
                None => Ok::<(), PresentError>(()),
                Some(e) => Err(e),
            },
    {
        match ev {
            StepOutcome::Failed => {
                let e = match self.phase {
                    PresentPhase::Rendered => PresentError::Swap,
                    PresentPhase::Swapped => PresentError::Acquire,
                    PresentPhase::Acquired => PresentError::Register,
                    PresentPhase::Registered { .. } => PresentError::Flip,
                    PresentPhase::FlipRequested { .. } => PresentError::Drain,
                    PresentPhase::FlipComplete { .. } => PresentError::Retire,
                    _ => PresentError::Swap,
                };
                self.phase = PresentPhase::Idle;
                Err(e)
            },
            StepOutcome::Registered { fb } => {
                self.phase = PresentPhase::Registered { new_fb: fb };
                Ok(())
            },
            StepOutcome::Done => {
                match self.phase {
                    PresentPhase::Idle => {
                        self.phase = PresentPhase::Rendered;
                    },
                    PresentPhase::Rendered => {
                        self.phase = PresentPhase::Swapped;
                    },
                    PresentPhase::Swapped => {
                        self.phase = PresentPhase::Acquired;
                    },
                    PresentPhase::Acquired => {
                        self.phase = PresentPhase::Acquired;
                    },
                    PresentPhase::Registered { new_fb } => {
                        self.phase = PresentPhase::FlipRequested { new_fb };
                    },
                    PresentPhase::FlipRequested { new_fb } => {
                        self.phase = PresentPhase::FlipComplete { new_fb };
                    },
                    PresentPhase::FlipComplete { new_fb } => {
                        self.phase = PresentPhase::Retired { new_fb };
                        self.current_fb = new_fb;
                    },
                    PresentPhase::Retired { .. } => {
                        self.phase = PresentPhase::Idle;
                    },
                }
                Ok(())
            },
        }
    }
}

/// Retirement happens only after flip completion, and always destroys the
/// handle that was current before this frame, never the newly registered
/// one: the machine asks to destroy a buffer only in the flip-complete
/// phase, and the handle it names is the one bound since the cycle began.
pub proof fn lemma_retire_after_flip(p: Presenter)
    ensures
        forall|fb: FbHandle|
            spec_next_action(p) == (PresentAction::RetireBuffer { fb }) ==> fb == p.current_fb && (
            p.phase matches PresentPhase::FlipComplete { .. }),
{
}

/// Until the retire step completes, no step changes which handle is
/// current; the retire step makes the newly registered handle current.
pub proof fn lemma_current_stable_until_retire(p: Presenter, ev: StepOutcome)
    requires
        outcome_fits(p.phase, ev),
    ensures
        !(p.phase is FlipComplete) || ev == StepOutcome::Failed ==> spec_step(p, ev).0.current_fb
            == p.current_fb,
        forall|new_fb: FbHandle|
            p.phase == (PresentPhase::FlipComplete { new_fb }) && ev == StepOutcome::Done ==> {
                &&& spec_step(p, ev).0.current_fb == new_fb
                &&& spec_next_action(p) == (PresentAction::RetireBuffer { fb: p.current_fb })
            },
{
}

/// A failure in any mid-frame step surfaces an error, returns the machine
/// to idle, and leaves the previously bound handle current: the display
/// keeps showing the last good frame rather than being torn down.
pub proof fn lemma_failure_keeps_current(p: Presenter)
    requires
        !(p.phase is Idle),
    ensures
        spec_step(p, StepOutcome::Failed).1 == Some(spec_failure(p.phase)),
        spec_step(p, StepOutcome::Failed).0.current_fb == p.current_fb,
        spec_step(p, StepOutcome::Failed).0.phase is Idle,
{
}

/// One full successful present cycle from idle performs, in order:
/// render, swap, acquire, register, page-flip request, flip-event wait,
/// retirement of the handle that was current when the cycle began, and
/// pacing; afterwards the machine is idle again with the newly registered
/// handle current.
pub proof fn lemma_present_cycle(p0: Presenter, fb: FbHandle)
    requires
        p0.phase is Idle,
    ensures
        ({
            let p1 = spec_step(p0, StepOutcome::Done).0;
            let p2 = spec_step(p1, StepOutcome::Done).0;
            let p3 = spec_step(p2, StepOutcome::Done).0;
            let p4 = spec_step(p3, StepOutcome::Registered { fb }).0;
            let p5 = spec_step(p4, StepOutcome::Done).0;
            let p6 = spec_step(p5, StepOutcome::Done).0;
            let p7 = spec_step(p6, StepOutcome::Done).0;
            let p8 = spec_step(p7, StepOutcome::Done).0;
            &&& spec_next_action(p0) == PresentAction::RenderFrame
            &&& spec_next_action(p1) == PresentAction::SwapBuffers
            &&& spec_next_action(p2) == PresentAction::AcquireFrontBuffer
            &&& spec_next_action(p3) == PresentAction::RegisterBuffer
            &&& spec_next_action(p4) == (PresentAction::RequestPageFlip { fb })
            &&& spec_next_action(p5) == PresentAction::AwaitFlipEvent
            &&& spec_next_action(p6) == (PresentAction::RetireBuffer { fb: p0.current_fb })
            &&& spec_next_action(p7) == PresentAction::Pace
            &&& p8.phase is Idle
            &&& p8.current_fb == fb
        }),
{
}

} // verus!
