//! Mode, connector and scan-engine negotiation, and the small data types
//! around it.

use pixel_zero::color::Color;
use pixel_zero::geom::UVec2;
use pixel_zero::input::Button;
use pixel_zero::mode::{
    capture_original_state, connectors_for_crtc, is_display_node_name, resolutions,
    select_connector, select_crtc, select_mode, ConnectorInfo, CrtcState, DrmError, Mode,
};

fn mode(width: u32, height: u32, refresh: u32, preferred: bool) -> Mode {
    Mode { width, height, refresh, preferred }
}

#[test]
fn preferred_mode_wins() {
    let modes = vec![mode(1920, 1080, 60, true), mode(1280, 720, 60, false)];
    assert_eq!(select_mode(&modes), Some(mode(1920, 1080, 60, true)));
}

#[test]
fn preferred_mode_wins_from_second_place() {
    let modes = vec![mode(1280, 720, 60, false), mode(1920, 1080, 60, true)];
    assert_eq!(select_mode(&modes), Some(mode(1920, 1080, 60, true)));
}

#[test]
fn first_mode_wins_without_preferred() {
    let modes = vec![mode(720, 480, 60, false), mode(640, 480, 60, false)];
    assert_eq!(select_mode(&modes), Some(mode(720, 480, 60, false)));
}

#[test]
fn first_of_two_preferred_wins() {
    let modes = vec![
        mode(640, 480, 60, false),
        mode(1920, 1080, 60, true),
        mode(1280, 720, 60, true),
    ];
    assert_eq!(select_mode(&modes), Some(mode(1920, 1080, 60, true)));
}

#[test]
fn no_mode_for_empty_list() {
    let modes: Vec<Mode> = Vec::new();
    assert_eq!(select_mode(&modes), None);
}

fn connector(handle: u32, connected: bool) -> ConnectorInfo {
    ConnectorInfo {
        handle,
        connected,
        modes: Vec::new(),
        encoder_crtcs: Vec::new(),
        current_crtc: None,
    }
}

#[test]
fn first_connected_connector_is_selected() {
    let conns = vec![connector(31, false), connector(32, true), connector(33, true)];
    assert_eq!(select_connector(&conns), Ok(1));
}

#[test]
fn no_connected_connector_fails() {
    let conns = vec![connector(31, false), connector(32, false)];
    assert_eq!(select_connector(&conns), Err(DrmError::NoConnectors));
}

#[test]
fn first_reachable_crtc_is_selected() {
    let crtcs = vec![None, Some(7), Some(9)];
    assert_eq!(select_crtc(&crtcs), Ok(7));
}

#[test]
fn no_reachable_crtc_fails() {
    let crtcs: Vec<Option<u32>> = vec![None, None];
    assert_eq!(select_crtc(&crtcs), Err(DrmError::NoCRTC));
}

#[test]
fn capture_records_driven_connectors() {
    let mut c1 = connector(41, true);
    c1.current_crtc = Some(7);
    let mut c2 = connector(42, false);
    c2.current_crtc = Some(8);
    let mut c3 = connector(43, true);
    c3.current_crtc = Some(7);
    let conns = vec![c1, c2, c3];
    assert_eq!(connectors_for_crtc(&conns, 7), vec![41, 43]);

    let st = CrtcState {
        handle: 7,
        framebuffer: Some(99),
        position: UVec2 { x: 0, y: 0 },
        mode: Some(mode(1920, 1080, 60, true)),
    };
    let captured = capture_original_state(&Some(st), &conns).unwrap();
    assert_eq!(captured.crtc, 7);
    assert_eq!(captured.framebuffer, Some(99));
    assert_eq!(captured.connectors, vec![41, 43]);
    assert_eq!(captured.mode, Some(mode(1920, 1080, 60, true)));
}

#[test]
fn capture_without_prior_binding_is_empty() {
    let conns = vec![connector(41, true)];
    assert!(capture_original_state(&None, &conns).is_none());
}

#[test]
fn resolutions_render_mode_labels() {
    let modes = vec![mode(1920, 1080, 60, true), mode(720, 480, 59, false)];
    let labels = resolutions(&modes);
    assert_eq!(labels, vec!["1920x1080 60hz".to_string(), "720x480 59hz".to_string()]);
}

#[test]
fn resolutions_renders_zero_digits() {
    let modes = vec![mode(0, 100, 0, false)];
    let labels = resolutions(&modes);
    assert_eq!(labels, vec!["0x100 0hz".to_string()]);
}

#[test]
fn color_channels_round_trip() {
    let c = Color::rgba(10, 20, 30, 40);
    assert_eq!((c.r(), c.g(), c.b(), c.a()), (10, 20, 30, 40));
    let o = Color::rgb(1, 2, 3);
    assert_eq!(o.a(), 255);
}

#[test]
fn button_indices_round_trip() {
    for i in 0..10 {
        let b = Button::from_usize(i).unwrap();
        assert_eq!(b.index(), i);
    }
    assert!(Button::from_usize(10).is_none());
    assert_eq!(Button::Up.index(), 0);
    assert_eq!(Button::Select.index(), 9);
}

#[test]
fn display_node_names_match_card_prefix() {
    assert!(is_display_node_name("card0"));
    assert!(is_display_node_name("card128"));
    assert!(!is_display_node_name("renderD128"));
    assert!(!is_display_node_name("car"));
    assert!(is_display_node_name("card"));
}
