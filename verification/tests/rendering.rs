//! Frames, fonts and the compositor's render plan.

use pixel_zero::color::Color;
use pixel_zero::compositor::{plan_frame, RenderOp};
use pixel_zero::font::{Font, FontError, Glyph};
use pixel_zero::frame::Frame;
use pixel_zero::geom::{IVec2, UVec2};
use pixel_zero::sprite::{Sprite, TexRegion, TextureRef};

fn test_font() -> Font {
    // Three glyph cells in a 48x16 atlas; slot 0 is the fallback glyph.
    let region = |i: u32| TexRegion {
        position: UVec2 { x: i * 16, y: 0 },
        size: UVec2 { x: 16, y: 16 },
    };
    let glyphs = vec![
        Glyph { region: region(0), advance: 10 },
        Glyph { region: region(1), advance: 7 },
        Glyph { region: region(2), advance: 5 },
    ];
    let char_map = vec![('a', 1usize), ('b', 2usize)];
    Font::new(
        TextureRef { id: 70, size: UVec2 { x: 48, y: 16 } },
        UVec2 { x: 16, y: 16 },
        glyphs,
        Some(char_map),
    )
}

#[test]
fn empty_frame_still_clears_and_blits() {
    let mut frame = Frame::default();
    frame.set_clear_color(Color::rgb(12, 34, 56));
    let ops = plan_frame(&frame);
    assert_eq!(
        ops,
        vec![RenderOp::Clear { color: Color::rgb(12, 34, 56) }, RenderOp::Blit]
    );
}

#[test]
fn default_frame_clears_to_black() {
    let frame = Frame::default();
    let ops = plan_frame(&frame);
    assert_eq!(ops[0], RenderOp::Clear { color: Color::rgb(0, 0, 0) });
}

#[test]
fn later_rect_draws_after_earlier_rect() {
    // Two overlapping filled rects of different colors: the later one's
    // operation comes later in the plan, so it is visible on top.
    let red = Color::rgb(255, 0, 0);
    let blue = Color::rgb(0, 0, 255);
    let mut frame = Frame::default();
    frame.draw_rect(IVec2::new(10, 10), UVec2::new(40, 40), red);
    frame.draw_rect(IVec2::new(30, 30), UVec2::new(40, 40), blue);
    let ops = plan_frame(&frame);
    assert_eq!(
        ops,
        vec![
            RenderOp::Clear { color: Color::rgb(0, 0, 0) },
            RenderOp::SolidQuad { x: 10, y: 10, size: UVec2 { x: 40, y: 40 }, color: red },
            RenderOp::SolidQuad { x: 30, y: 30, size: UVec2 { x: 40, y: 40 }, color: blue },
            RenderOp::Blit,
        ]
    );
}

#[test]
fn rect_outline_draws_four_edges() {
    let c = Color::rgb(1, 2, 3);
    let mut frame = Frame::default();
    frame.draw_rect_outline(IVec2::new(5, 6), UVec2::new(20, 10), c);
    let ops = plan_frame(&frame);
    assert_eq!(
        &ops[1..5],
        &[
            RenderOp::Segment { x: 5, y: 6, dx: 20, dy: 0, color: c },
            RenderOp::Segment { x: 5, y: 16, dx: 20, dy: 0, color: c },
            RenderOp::Segment { x: 5, y: 6, dx: 0, dy: 10, color: c },
            RenderOp::Segment { x: 25, y: 6, dx: 0, dy: 10, color: c },
        ]
    );
}

#[test]
fn line_stretches_from_start_to_end() {
    let c = Color::rgb(9, 9, 9);
    let mut frame = Frame::default();
    frame.draw_line(IVec2::new(100, 50), IVec2::new(40, 80), c);
    let ops = plan_frame(&frame);
    assert_eq!(ops[1], RenderOp::Segment { x: 100, y: 50, dx: -60, dy: 30, color: c });
}

#[test]
fn sprite_draws_whole_texture() {
    let texture = TextureRef { id: 5, size: UVec2 { x: 32, y: 24 } };
    let sprite = Sprite::new(texture);
    let mut frame = Frame::default();
    frame.draw_sprite(&sprite, IVec2::new(-3, 7));
    let ops = plan_frame(&frame);
    assert_eq!(
        ops[1],
        RenderOp::TexturedQuad {
            texture,
            x: -3,
            y: 7,
            size: UVec2 { x: 32, y: 24 },
            region: TexRegion { position: UVec2 { x: 0, y: 0 }, size: UVec2 { x: 32, y: 24 } },
        }
    );
}

#[test]
fn text_advances_by_stored_advances() {
    // "ab?" where '?' has no table entry: 'a' is slot 1 (advance 7),
    // 'b' slot 2 (advance 5), '?' falls back to slot 0.
    let font = test_font();
    let mut frame = Frame::default();
    frame.draw_text(&font, "ab?", IVec2::new(100, 20));
    let ops = plan_frame(&frame);
    assert_eq!(ops.len(), 5);
    let glyph_x: Vec<i64> = ops[1..4]
        .iter()
        .map(|op| match op {
            RenderOp::TexturedQuad { x, .. } => *x,
            _ => panic!("expected a glyph quad"),
        })
        .collect();
    assert_eq!(glyph_x, vec![100, 107, 112]);
}

#[test]
fn missing_glyph_falls_back_to_default() {
    let font = test_font();
    assert!(font.glyph('z').is_none());
    assert_eq!(font.glyph_or_default('z'), font.default_glyph());
    let mut frame = Frame::default();
    frame.draw_text(&font, "z", IVec2::new(0, 0));
    let ops = plan_frame(&frame);
    match ops[1] {
        RenderOp::TexturedQuad { region, .. } => {
            assert_eq!(region, font.default_glyph().region);
        }
        _ => panic!("expected a glyph quad"),
    }
}

#[test]
fn glyph_lookup_uses_char_table() {
    let font = test_font();
    assert_eq!(font.glyph('a'), Some(font.glyphs[1]));
    assert_eq!(font.glyph('b'), Some(font.glyphs[2]));
}

#[test]
fn glyph_lookup_without_table_uses_code() {
    let glyphs: Vec<Glyph> = (0..128)
        .map(|i| Glyph {
            region: TexRegion {
                position: UVec2 { x: i, y: 0 },
                size: UVec2 { x: 8, y: 16 },
            },
            advance: 8,
        })
        .collect();
    let font = Font::new(
        TextureRef { id: 1, size: UVec2 { x: 1024, y: 16 } },
        UVec2 { x: 8, y: 16 },
        glyphs,
        None,
    );
    assert_eq!(font.glyph('A'), Some(font.glyphs[65]));
    assert!(font.glyph('\u{1F600}').is_none());
}

#[test]
fn commands_keep_insertion_order() {
    let mut frame = Frame::default();
    frame.draw_rect(IVec2::new(0, 0), UVec2::new(1, 1), Color::rgb(1, 1, 1));
    frame.draw_line(IVec2::new(0, 0), IVec2::new(1, 1), Color::rgb(2, 2, 2));
    assert_eq!(frame.commands().len(), 2);
}

#[test]
fn font_header_parses_fields() {
    let mut data: Vec<u8> = Vec::new();
    for v in [0x864a_b572u32, 0, 32, 1, 96, 32, 16, 8] {
        data.extend_from_slice(&v.to_le_bytes());
    }
    let h = pixel_zero::font::parse_header(&data).unwrap();
    assert_eq!(h.magic, 0x864a_b572);
    assert_eq!(h.version, 0);
    assert_eq!(h.header_size, 32);
    assert_eq!(h.flags, 1);
    assert_eq!(h.num_glyphs, 96);
    assert_eq!(h.bytes_per_glyph, 32);
    assert_eq!(h.height, 16);
    assert_eq!(h.width, 8);
}

#[test]
fn font_header_rejects_bad_magic() {
    let mut data: Vec<u8> = Vec::new();
    for v in [0x1234_5678u32, 0, 32, 0, 96, 32, 16, 8] {
        data.extend_from_slice(&v.to_le_bytes());
    }
    assert_eq!(
        pixel_zero::font::parse_header(&data),
        Err(FontError::InvalidMagic { expected: 0x864a_b572, actual: 0x1234_5678 })
    );
}

#[test]
fn font_header_rejects_bad_version() {
    let mut data: Vec<u8> = Vec::new();
    for v in [0x864a_b572u32, 3, 32, 0, 96, 32, 16, 8] {
        data.extend_from_slice(&v.to_le_bytes());
    }
    assert_eq!(pixel_zero::font::parse_header(&data), Err(FontError::InvalidVersion(3)));
}

#[test]
fn font_header_rejects_truncated_data() {
    let data: Vec<u8> = vec![0x72, 0xb5, 0x4a, 0x86];
    assert_eq!(pixel_zero::font::parse_header(&data), Err(FontError::IO));
}
