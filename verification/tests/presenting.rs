//! The presenter state machine, pacing, the FPS counter, the load guard
//! and teardown planning.

use pixel_zero::chain::{BufferChain, SurfacePhase};
use pixel_zero::geom::UVec2;
use pixel_zero::graphics::{graphics_error_from_drm, Graphics, GraphicsError, LoadGuard};
use pixel_zero::lifecycle::{teardown_actions, TeardownAction};
use pixel_zero::mode::{CrtcBinding, DrmError, Mode};
use pixel_zero::pacing::{sleep_duration, FpsCounter, FRAME_INTERVAL_US};
use pixel_zero::shader::{framebuffer_complete, VertexAttribute};
use pixel_zero::swapchain::{PresentAction, PresentError, Presenter, StepOutcome};

#[test]
fn full_cycle_retires_old_handle_after_flip() {
    let mut p = Presenter::new(11);
    let mut actions: Vec<PresentAction> = Vec::new();

    // Drive one successful cycle; registration yields handle 22.
    for _ in 0..8 {
        let action = p.next_action();
        actions.push(action);
        let outcome = match action {
            PresentAction::RegisterBuffer => StepOutcome::Registered { fb: 22 },
            _ => StepOutcome::Done,
        };
        assert_eq!(p.step(outcome), Ok(()));
    }

    assert_eq!(
        actions,
        vec![
            PresentAction::RenderFrame,
            PresentAction::SwapBuffers,
            PresentAction::AcquireFrontBuffer,
            PresentAction::RegisterBuffer,
            PresentAction::RequestPageFlip { fb: 22 },
            PresentAction::AwaitFlipEvent,
            PresentAction::RetireBuffer { fb: 11 },
            PresentAction::Pace,
        ]
    );
    assert_eq!(p.current_fb(), 22);
    assert_eq!(p.next_action(), PresentAction::RenderFrame);
}

#[test]
fn retire_is_never_the_new_handle() {
    let mut p = Presenter::new(11);
    assert_eq!(p.step(StepOutcome::Done), Ok(())); // rendered
    assert_eq!(p.step(StepOutcome::Done), Ok(())); // swapped
    assert_eq!(p.step(StepOutcome::Done), Ok(())); // acquired
    assert_eq!(p.step(StepOutcome::Registered { fb: 22 }), Ok(()));
    assert_eq!(p.step(StepOutcome::Done), Ok(())); // flip requested
    // The retire request names the old handle while the flip event is
    // still pending only after it arrives.
    assert_eq!(p.step(StepOutcome::Done), Ok(())); // flip complete
    assert_eq!(p.next_action(), PresentAction::RetireBuffer { fb: 11 });
    // Before the retire completes, the current handle is still the old one.
    assert_eq!(p.current_fb(), 11);
    assert_eq!(p.step(StepOutcome::Done), Ok(())); // retired
    assert_eq!(p.current_fb(), 22);
}

#[test]
fn failure_keeps_previous_handle_bound() {
    let mut p = Presenter::new(11);
    assert_eq!(p.step(StepOutcome::Done), Ok(())); // rendered
    assert_eq!(p.step(StepOutcome::Failed), Err(PresentError::Swap));
    assert_eq!(p.current_fb(), 11);
    assert_eq!(p.next_action(), PresentAction::RenderFrame);

    let mut q = Presenter::new(31);
    assert_eq!(q.step(StepOutcome::Done), Ok(()));
    assert_eq!(q.step(StepOutcome::Done), Ok(()));
    assert_eq!(q.step(StepOutcome::Done), Ok(()));
    assert_eq!(q.step(StepOutcome::Registered { fb: 32 }), Ok(()));
    assert_eq!(q.step(StepOutcome::Failed), Err(PresentError::Flip));
    assert_eq!(q.current_fb(), 31);
}

#[test]
fn each_failing_step_names_itself() {
    let drive = |steps: usize, fail_outcome_at_acquired: bool| -> PresentError {
        let mut p = Presenter::new(1);
        for i in 0..steps {
            let outcome = if i == 3 && !fail_outcome_at_acquired {
                StepOutcome::Registered { fb: 2 }
            } else {
                StepOutcome::Done
            };
            p.step(outcome).unwrap();
        }
        p.step(StepOutcome::Failed).unwrap_err()
    };
    assert_eq!(drive(1, true), PresentError::Swap);
    assert_eq!(drive(2, true), PresentError::Acquire);
    assert_eq!(drive(3, true), PresentError::Register);
    assert_eq!(drive(4, false), PresentError::Flip);
    assert_eq!(drive(5, false), PresentError::Drain);
    assert_eq!(drive(6, false), PresentError::Retire);
}

#[test]
fn sleep_fills_the_rest_of_the_interval() {
    assert_eq!(sleep_duration(16667, 5000), 11667);
    assert_eq!(sleep_duration(16667, 16667), 0);
    assert_eq!(sleep_duration(16667, 20000), 0);
    assert_eq!(sleep_duration(16667, 0), 16667);
}

#[test]
fn fps_counter_reports_after_one_second() {
    let mut c = FpsCounter::new();
    for _ in 0..59 {
        assert!(!c.record_frame(500_000));
    }
    assert_eq!(c.fps(), 0);
    // The window closes at one second: 60 frames in 1.0 s.
    assert!(c.record_frame(1_000_000));
    assert_eq!(c.fps(), 60);
    // The count restarted.
    assert!(!c.record_frame(10_000));
}

#[test]
fn fps_rounds_to_nearest() {
    let mut c = FpsCounter::new();
    for _ in 0..59 {
        c.record_frame(0);
    }
    // 60 frames over 1.007 s is 59.58..., reported as 60.
    assert!(c.record_frame(1_007_000));
    assert_eq!(c.fps(), 60);
}

#[test]
fn second_load_fails_and_changes_nothing() {
    let mut guard = LoadGuard::new();
    assert_eq!(guard.try_acquire(), Ok(()));
    assert_eq!(guard.try_acquire(), Err(GraphicsError::AlreadyLoaded));
    assert!(guard.loaded);
    // Release at teardown lets a later load claim the instance again.
    guard.release();
    assert_eq!(guard.try_acquire(), Ok(()));
}

/// A test double that records the bindings committed to the kernel.
struct BindRecorder {
    binds: Vec<CrtcBinding>,
    destroyed: Vec<u32>,
}

impl BindRecorder {
    fn run(&mut self, actions: Vec<TeardownAction>) {
        for a in actions {
            match a {
                TeardownAction::DestroyFramebuffer { fb } => self.destroyed.push(fb),
                TeardownAction::RestoreCrtc { binding } => self.binds.push(binding),
            }
        }
    }
}

#[test]
fn teardown_restores_captured_binding() {
    let captured = CrtcBinding {
        crtc: 7,
        framebuffer: Some(99),
        position: UVec2 { x: 0, y: 0 },
        connectors: vec![41, 43],
        mode: Some(Mode { width: 1920, height: 1080, refresh: 60, preferred: true }),
    };
    let mut recorder = BindRecorder { binds: Vec::new(), destroyed: Vec::new() };
    recorder.run(teardown_actions(55, Some(captured.clone())));
    // The final kernel state equals the captured binding.
    assert_eq!(recorder.binds.last(), Some(&captured));
    assert_eq!(recorder.binds.len(), 1);
    assert_eq!(recorder.destroyed, vec![55]);
}

#[test]
fn teardown_without_capture_only_destroys() {
    let mut recorder = BindRecorder { binds: Vec::new(), destroyed: Vec::new() };
    recorder.run(teardown_actions(55, None));
    assert!(recorder.binds.is_empty());
    assert_eq!(recorder.destroyed, vec![55]);
}

#[test]
fn graphics_core_tracks_fps_and_pacing() {
    let mut g = Graphics::new(11);
    assert_eq!(g.fps(), 0);
    let (sleep_us, reset) = g.end_frame(5000, 500_000);
    assert_eq!(sleep_us, 11667);
    assert!(!reset);
    let (sleep_us2, reset2) = g.end_frame(FRAME_INTERVAL_US + 1, 1_000_000);
    assert_eq!(sleep_us2, 0);
    assert!(reset2);
    assert_eq!(g.fps(), 2);
}

#[test]
fn graphics_present_step_wraps_presenter_errors() {
    let mut g = Graphics::new(11);
    assert_eq!(g.present_step(StepOutcome::Done), Ok(()));
    assert_eq!(
        g.present_step(StepOutcome::Failed),
        Err(GraphicsError::Present(PresentError::Swap))
    );
}

#[test]
fn drm_errors_map_to_the_taxonomy() {
    assert_eq!(graphics_error_from_drm(DrmError::IO), GraphicsError::DeviceNotFound);
    assert_eq!(
        graphics_error_from_drm(DrmError::NoConnectors),
        GraphicsError::NoConnectedOutput
    );
    assert_eq!(graphics_error_from_drm(DrmError::NoCRTC), GraphicsError::NoSuitableCrtc);
}

#[test]
fn buffer_chain_finalizes_once_format_is_known() {
    let mut chain = BufferChain::new(UVec2 { x: 1920, y: 1080 });
    assert!(!chain.ready());
    chain.finalize(0x3432_5258);
    assert!(chain.ready());
    assert_eq!(chain.phase, SurfacePhase::Finalized { format: 0x3432_5258 });
    assert_eq!(chain.size, UVec2 { x: 1920, y: 1080 });
}

#[test]
fn framebuffer_status_gate() {
    assert!(framebuffer_complete(0x8cd5));
    assert!(!framebuffer_complete(0x8cd6));
    assert_eq!(VertexAttribute::Vec2.gl_size(), 2);
    assert_eq!(VertexAttribute::Float.gl_size(), 1);
    assert_eq!(VertexAttribute::Vec4.gl_type(), 0x1406);
}
