//! Output and mode negotiation: picking the connected output, the video
//! mode, the scan engine (CRTC), and snapshotting the pre-existing binding
//! for restoration at teardown.
//!
//! These decisions run over plain data that the device shell reads from the
//! kernel; no device handle appears here.

use vstd::prelude::*;
use vstd::string::StringSliceAdditionalSpecFns;

use crate::geom::UVec2;
use crate::text::{dec_str, push_u32};

verus! {

/// Mode negotiation failures.
#[derive(Clone, Copy, Debug, PartialEq, Eq, Structural)]
pub enum DrmError {
    /// A device-level failure reported by the shell (open or ioctl).
    IO,
    /// No output reported the connected state.
    NoConnectors,
    /// No scan engine was reachable through the output's encoder chain.
    NoCRTC,
}

/// A video mode: resolution, refresh rate, and whether the driver flags it
/// as preferred.
#[derive(Clone, Copy, Debug, PartialEq, Eq, Structural)]
pub struct Mode {
    pub width: u32,
    pub height: u32,
    pub refresh: u32,
    pub preferred: bool,
}

/// One display output as reported by the kernel: its handle, whether a
/// monitor is connected, its mode list, the scan engine each of its encoders
/// could drive, and the scan engine its current encoder drives now (if any).
#[derive(Clone, Debug)]
pub struct ConnectorInfo {
    pub handle: u32,
    pub connected: bool,
    pub modes: Vec<Mode>,
    pub encoder_crtcs: Vec<Option<u32>>,
    pub current_crtc: Option<u32>,
}

/// The state of a scan engine as read from the kernel before this process
/// touches it.
#[derive(Clone, Copy, Debug, PartialEq)]
pub struct CrtcState {
    pub handle: u32,
    pub framebuffer: Option<u32>,
    pub position: UVec2,
    pub mode: Option<Mode>,
}

/// A full scan-engine binding: everything a mode-set commits at once.
/// Captured at load time and re-issued at teardown.
#[derive(Clone, Debug, PartialEq)]
pub struct CrtcBinding {
    pub crtc: u32,
    pub framebuffer: Option<u32>,
    pub position: UVec2,
    pub connectors: Vec<u32>,
    pub mode: Option<Mode>,
}

/// Selects the video mode from an output's mode list: the first mode the
/// driver flags as preferred, else the first mode in the list. Returns
/// `None` only for an empty list.
pub fn select_mode(modes: &Vec<Mode>) -> (r: Option<Mode>)
    ensures
        r is Some <==> modes@.len() > 0,
        (exists|i: int| 0 <= i < modes@.len() && modes@[i].preferred) ==> (exists|i: int|
            0 <= i < modes@.len() && modes@[i].preferred && r == Some(modes@[i]) && (forall|j: int|
                0 <= j < i ==> !modes@[j].preferred)),
        modes@.len() > 0 && (forall|i: int| 0 <= i < modes@.len() ==> !modes@[i].preferred)
            ==> r == Some(modes@[0]),
{
    let mut i: usize = 0;
    while i < modes.len()
        invariant
            i <= modes@.len(),
            forall|j: int| 0 <= j < i ==> !modes@[j].preferred,
        decreases modes@.len() - i,
    {
        if modes[i].preferred {
            return Some(modes[i]);
        }
        i += 1;
    }
    if modes.len() > 0 {
        Some(modes[0])
    } else {
        None
    }
}

/// Selects the output to drive: the first connector reporting the connected
/// state. Fails with `NoConnectors` when none is connected.
pub fn select_connector(connectors: &Vec<ConnectorInfo>) -> (r: Result<usize, DrmError>)
    ensures
        match r {
            Ok(i) => i < connectors@.len() && connectors@[i as int].connected && (forall|j: int|
                0 <= j < i ==> !connectors@[j].connected),
            Err(e) => e == DrmError::NoConnectors && (forall|j: int|
                0 <= j < connectors@.len() ==> !connectors@[j].connected),
        },
{
    let mut i: usize = 0;
    while i < connectors.len()
        invariant
            i <= connectors@.len(),
            forall|j: int| 0 <= j < i ==> !connectors@[j].connected,
        decreases connectors@.len() - i,
    {
        if connectors[i].connected {
            return Ok(i);
        }
        i += 1;
    }
    Err(DrmError::NoConnectors)
}

/// Resolves the scan engine to use: the first engine reachable through the
/// selected output's encoders. Fails with `NoCRTC` when no encoder reports
/// one.
pub fn select_crtc(encoder_crtcs: &Vec<Option<u32>>) -> (r: Result<u32, DrmError>)
    ensures
        match r {
            Ok(c) => (exists|i: int|
                0 <= i < encoder_crtcs@.len() && encoder_crtcs@[i] == Some(c) && (forall|j: int|
                    0 <= j < i ==> encoder_crtcs@[j] is None)),
            Err(e) => e == DrmError::NoCRTC && (forall|j: int|
                0 <= j < encoder_crtcs@.len() ==> encoder_crtcs@[j] is None),
        },
{
    let mut i: usize = 0;
    while i < encoder_crtcs.len()
        invariant
            i <= encoder_crtcs@.len(),
            forall|j: int| 0 <= j < i ==> encoder_crtcs@[j] is None,
        decreases encoder_crtcs@.len() - i,
    {
        if let Some(c) = encoder_crtcs[i] {
            return Ok(c);
        }
        i += 1;
    }
    Err(DrmError::NoCRTC)
}

/// The handles of the connectors whose current encoder drives the given
/// scan engine, in list order.
pub open spec fn connectors_driven_by(s: Seq<ConnectorInfo>, crtc: u32) -> Seq<u32>
    decreases s.len(),
{
    if s.len() == 0 {
        Seq::empty()
    } else if s.last().current_crtc == Some(crtc) {
        connectors_driven_by(s.drop_last(), crtc) + seq![s.last().handle]
    } else {
        connectors_driven_by(s.drop_last(), crtc)
    }
}

/// Collects the connectors currently driven by `crtc`; these are the ones a
/// restore must re-attach.
pub fn connectors_for_crtc(connectors: &Vec<ConnectorInfo>, crtc: u32) -> (r: Vec<u32>)
    ensures
        r@ == connectors_driven_by(connectors@, crtc),
{
    let mut r: Vec<u32> = Vec::new();
    let mut i: usize = 0;
    while i < connectors.len()
        invariant
            i <= connectors@.len(),
            r@ == connectors_driven_by(connectors@.take(i as int), crtc),
        decreases connectors@.len() - i,
    {
        proof {
            assert(connectors@.take(i + 1).drop_last() =~= connectors@.take(i as int));
            assert(connectors@.take(i + 1).last() == connectors@[i as int]);
        }
        let c = &connectors[i];
        let keep = match c.current_crtc {
            Some(h) => h == crtc,
            None => false,
        };
        if keep {
            r.push(c.handle);
        }
        i += 1;
    }
    proof {
        assert(connectors@.take(connectors@.len() as int) =~= connectors@);
    }
    r
}

/// Snapshots the pre-existing scan-engine binding, if the selected output's
/// current encoder was driving one. The snapshot records the engine's
/// framebuffer, position and mode, together with every connector that
/// engine drives, so that teardown can re-issue the binding exactly.
pub fn capture_original_state(original: &Option<CrtcState>, connectors: &Vec<ConnectorInfo>) -> (r:
    Option<CrtcBinding>)
    ensures
        match *original {
            None => r is None,
            Some(st) => match r {
                Some(b) => b.crtc == st.handle && b.framebuffer == st.framebuffer && b.position
                    == st.position && b.mode == st.mode && b.connectors@ == connectors_driven_by(
                    connectors@,
                    st.handle,
                ),
                None => false,
            },
        },
{
    match original {
        None => None,
        Some(st) => {
            let conns = connectors_for_crtc(connectors, st.handle);
            Some(
                CrtcBinding {
                    crtc: st.handle,
                    framebuffer: st.framebuffer,
                    position: st.position,
                    connectors: conns,
                    mode: st.mode,
                },
            )
        },
    }
}

/// Whether a device node's name follows the display controller's naming
/// convention: its bytes begin with "card".
pub open spec fn has_card_prefix(bytes: Seq<u8>) -> bool {
    bytes.len() >= 4 && bytes[0] == 99 && bytes[1] == 97 && bytes[2] == 114 && bytes[3] == 100
}

/// Decides whether a directory entry names a display-control node: the
/// scan opens the first character-special node whose name starts with
/// "card".
pub fn is_display_node_name(name: &str) -> (r: bool)
    ensures
        r == has_card_prefix(name.spec_bytes()),
{
    let bytes = name.as_bytes();
    bytes.len() >= 4 && bytes[0] == 99 && bytes[1] == 97 && bytes[2] == 114 && bytes[3] == 100
}

/// The text label of a mode: width, 'x', height, space, refresh, "hz".
pub open spec fn mode_label(m: Mode) -> Seq<char> {
    dec_str(m.width as nat) + seq!['x'] + dec_str(m.height as nat) + seq![' '] + dec_str(
        m.refresh as nat,
    ) + seq!['h', 'z']
}

/// Renders the label of every mode in the list, in order, for display in a
/// mode picker.
pub fn resolutions(modes: &Vec<Mode>) -> (r: Vec<String>)
    ensures
        r@.len() == modes@.len(),
        forall|i: int| 0 <= i < modes@.len() ==> #[trigger] r@[i]@ == mode_label(modes@[i]),
{
    let mut r: Vec<String> = Vec::new();
    let mut i: usize = 0;
    while i < modes.len()
        invariant
            i <= modes@.len(),
            r@.len() == i,
            forall|j: int| 0 <= j < i ==> #[trigger] r@[j]@ == mode_label(modes@[j]),
        decreases modes@.len() - i,
    {
        let m = modes[i];
        let mut s = String::new();
        push_u32(&mut s, m.width);
        s.push('x');
        push_u32(&mut s, m.height);
        s.push(' ');
        push_u32(&mut s, m.refresh);
        s.push('h');
        s.push('z');
        proof {
            assert(s@ =~= mode_label(modes@[i as int]));
        }
        r.push(s);
        i += 1;
    }
    r
}

} // verus!
