//! Teardown planning. Teardown order is significant and reversed from
//! load: GPU objects go first (the shell drops them), then the scanout
//! framebuffer bound to the scan engine is destroyed, and last — if a
//! pre-existing binding was captured at load — that binding is re-issued,
//! leaving the kernel in the state the process found it in.

use vstd::prelude::*;

use crate::mode::CrtcBinding;
use crate::swapchain::FbHandle;

verus! {

/// One teardown step against the display device.
#[derive(Clone, Debug, PartialEq)]
pub enum TeardownAction {
    /// Destroy the scanout framebuffer handle.
    DestroyFramebuffer { fb: FbHandle },
    /// Re-issue the captured pre-existing binding.
    RestoreCrtc { binding: CrtcBinding },
}

/// The teardown steps: destroy the current framebuffer, then restore the
/// captured binding if one was captured.
pub open spec fn teardown_plan(current_fb: FbHandle, original: Option<CrtcBinding>) -> Seq<
    TeardownAction,
> {
    match original {
        Some(b) => seq![
            TeardownAction::DestroyFramebuffer { fb: current_fb },
            TeardownAction::RestoreCrtc { binding: b },
        ],
        None => seq![TeardownAction::DestroyFramebuffer { fb: current_fb }],
    }
}

/// Plans teardown. Failures while executing these steps are logged by the
/// shell and never propagated: teardown runs on drop paths.
pub fn teardown_actions(current_fb: FbHandle, original: Option<CrtcBinding>) -> (r: Vec<
    TeardownAction,
>)
    ensures
        r@ == teardown_plan(current_fb, original),
{
    let mut r: Vec<TeardownAction> = Vec::new();
    r.push(TeardownAction::DestroyFramebuffer { fb: current_fb });
    match original {
        Some(b) => {
            r.push(TeardownAction::RestoreCrtc { binding: b });
            proof {
                assert(r@ =~= teardown_plan(current_fb, original));
            }
        },
        None => {
            proof {
                assert(r@ =~= teardown_plan(current_fb, original));
            }
        },
    }
    r
}

/// If an original binding was captured at load, the final teardown step
/// re-issues exactly that binding — output set, mode, framebuffer and
/// position — so the last state committed to the kernel equals the
/// captured one.
pub proof fn lemma_teardown_restores_original(current_fb: FbHandle, b: CrtcBinding)
    ensures
        teardown_plan(current_fb, Some(b)).last() == (TeardownAction::RestoreCrtc { binding: b }),
        teardown_plan(current_fb, Some(b)).len() == 2,
{
}

} // verus!
