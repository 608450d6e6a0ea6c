//! The compositor's draw plan: flattening a frame's command list into the
//! ordered sequence of primitive render operations that the GPU shell
//! executes against the off-screen target.
//!
//! The plan of a frame is: clear the target to the frame's clear color,
//! then the operations of each draw command in command order, then blit
//! the target to the display. Executing the operations in order makes a
//! later command's pixels land over an earlier command's.

use vstd::prelude::*;

use crate::color::Color;
use crate::font::{glyph_for, FontV};
use crate::frame::{cmd_wf, DrawCommand, DrawCommandV, Frame, FrameV, MAX_TEXT_LEN};
use crate::geom::{IVec2, UVec2};
use crate::sprite::{TexRegion, TextureRef};

verus! {

/// One primitive render operation. Coordinates are 64-bit so that a glyph
/// cursor can never leave the representable range.
#[derive(Clone, Copy, Debug, PartialEq, Eq, Structural)]
pub enum RenderOp {
    /// Clear the off-screen target to the given color.
    Clear { color: Color },
    /// Draw a textured unit quad stretched to `size` at (`x`, `y`),
    /// sampling `region` of `texture`.
    TexturedQuad { texture: TextureRef, x: i64, y: i64, size: UVec2, region: TexRegion },
    /// Draw a flat-colored unit quad stretched to `size` at (`x`, `y`).
    SolidQuad { x: i64, y: i64, size: UVec2, color: Color },
    /// Draw a line segment from (`x`, `y`) along (`dx`, `dy`).
    Segment { x: i64, y: i64, dx: i64, dy: i64, color: Color },
    /// Bind the target's texture and draw it scaled to the display.
    Blit,
}

/// The glyph quads of a text, one per character, from `cursor` pixels
/// right of the base position; each following quad is shifted further by
/// the drawn glyph's stored advance.
pub open spec fn glyph_ops(f: FontV, text: Seq<char>, base: IVec2, cursor: int) -> Seq<RenderOp>
    decreases text.len(),
{
    if text.len() == 0 {
        Seq::empty()
    } else {
        let g = glyph_for(f, text[0]);
        seq![
            RenderOp::TexturedQuad {
                texture: f.texture,
                x: (base.x + cursor) as i64,
                y: base.y as i64,
                size: f.glyph_size,
                region: g.region,
            },
        ] + glyph_ops(f, text.drop_first(), base, cursor + g.advance)
    }
}

/// The operations one draw command denotes.
pub open spec fn command_ops(c: DrawCommandV) -> Seq<RenderOp> {
    match c {
        DrawCommandV::Sprite { sprite, position } => seq![
            RenderOp::TexturedQuad {
                texture: sprite.texture,
                x: position.x as i64,
                y: position.y as i64,
                size: sprite.texture.size,
                region: sprite.region,
            },
        ],
        DrawCommandV::Text { font, text, position } => glyph_ops(font, text, position, 0),
        DrawCommandV::Line { start, end, width, color } => seq![
            RenderOp::Segment {
                x: start.x as i64,
                y: start.y as i64,
                dx: (end.x - start.x) as i64,
                dy: (end.y - start.y) as i64,
                color,
            },
        ],
        DrawCommandV::Rect { position, size, color, filled } => if filled {
            seq![RenderOp::SolidQuad { x: position.x as i64, y: position.y as i64, size, color }]
        } else {
            seq![
                RenderOp::Segment {
                    x: position.x as i64,
                    y: position.y as i64,
                    dx: size.x as i64,
                    dy: 0,
                    color,
                },
                RenderOp::Segment {
                    x: position.x as i64,
                    y: (position.y + size.y) as i64,
                    dx: size.x as i64,
                    dy: 0,
                    color,
                },
                RenderOp::Segment {
                    x: position.x as i64,
                    y: position.y as i64,
                    dx: 0,
                    dy: size.y as i64,
                    color,
                },
                RenderOp::Segment {
                    x: (position.x + size.x) as i64,
                    y: position.y as i64,
                    dx: 0,
                    dy: size.y as i64,
                    color,
                },
            ]
        },
    }
}

/// The operations of a command list, in command order.
pub open spec fn cmds_ops(cs: Seq<DrawCommandV>) -> Seq<RenderOp>
    decreases cs.len(),
{
    if cs.len() == 0 {
        Seq::empty()
    } else {
        command_ops(cs[0]) + cmds_ops(cs.drop_first())
    }
}

/// The full plan of a frame: clear, the commands' operations in order,
/// blit.
pub open spec fn frame_ops(f: FrameV) -> Seq<RenderOp> {
    seq![RenderOp::Clear { color: f.clear_color }] + cmds_ops(f.commands) + seq![RenderOp::Blit]
}

proof fn lemma_cmds_ops_take_step(cs: Seq<DrawCommandV>, i: int)
    requires
        0 <= i < cs.len(),
    ensures
        cmds_ops(cs.take(i + 1)) == cmds_ops(cs.take(i)) + command_ops(cs[i]),
    decreases i,
{
    if i == 0 {
        assert(cs.take(1).drop_first() =~= Seq::<DrawCommandV>::empty());
        assert(cs.take(1)[0] == cs[0]);
        assert(cs.take(0) =~= Seq::<DrawCommandV>::empty());
        assert(cmds_ops(cs.take(1)) =~= cmds_ops(cs.take(0)) + command_ops(cs[0]));
    } else {
        lemma_cmds_ops_take_step(cs.drop_first(), i - 1);
        assert(cs.take(i + 1).drop_first() =~= cs.drop_first().take(i));
        assert(cs.take(i).drop_first() =~= cs.drop_first().take(i - 1));
        assert(cs.take(i + 1)[0] == cs[0]);
        assert(cs.take(i)[0] == cs[0]);
        assert(cs.drop_first()[i - 1] == cs[i]);
        assert(cs.take(i + 1).len() == i + 1);
        assert(cs.take(i).len() == i);
        assert(cmds_ops(cs.take(i + 1)) =~= cmds_ops(cs.take(i)) + command_ops(cs[i]));
    }
}

/// Flattens a frame into its render plan: exactly `frame_ops` of the
/// frame's value.
pub fn plan_frame(frame: &Frame) -> (r: Vec<RenderOp>)
    requires
        frame@.wf(),
    ensures
        r@ == frame_ops(frame@),
{
    let mut ops: Vec<RenderOp> = Vec::new();
    ops.push(RenderOp::Clear { color: frame.clear_color() });
    let cmds = frame.commands();
    let ghost cvs = frame@.commands;
    proof {
        assert(cvs.take(0) =~= Seq::<DrawCommandV>::empty());
        assert(ops@ =~= seq![RenderOp::Clear { color: frame@.clear_color }] + cmds_ops(
            cvs.take(0),
        ));
    }
    let mut i: usize = 0;
    while i < cmds.len()
        invariant
            i <= cmds@.len(),
            cmds@.map_values(|c: DrawCommand| c@) == cvs,
            cvs == frame@.commands,
            frame@.wf(),
            ops@ == seq![RenderOp::Clear { color: frame@.clear_color }] + cmds_ops(
                cvs.take(i as int),
            ),
        decreases cmds@.len() - i,
    {
        proof {
            lemma_cmds_ops_take_step(cvs, i as int);
            assert(cmd_wf(cvs[i as int]));
            assert(cvs[i as int] == cmds@[i as int]@);
        }
        let ghost ops_before = ops@;
        match &cmds[i] {
            DrawCommand::Sprite { sprite, position } => {
                ops.push(
                    RenderOp::TexturedQuad {
                        texture: sprite.texture,
                        x: position.x as i64,
                        y: position.y as i64,
                        size: sprite.texture.size,
                        region: sprite.region,
                    },
                );
                proof {
                    assert(ops@ =~= ops_before + command_ops(cvs[i as int]));
                }
            },
            DrawCommand::Text { font, text, position } => {
                let ghost fv = font@;
                let ghost tv = text@;
                let base = *position;
                let mut k: usize = 0;
                let mut cursor: i64 = 0;
                proof {
                    assert(tv.skip(0) =~= tv);
                    assert(ops_before + glyph_ops(fv, tv, base, 0) =~= ops@ + glyph_ops(
                        fv,
                        tv.skip(0),
                        base,
                        0,
                    ));
                }
                while k < text.len()
                    invariant
                        k <= tv.len(),
                        tv == text@,
                        fv == font@,
                        fv.wf(),
                        tv.len() <= MAX_TEXT_LEN,
                        0 <= cursor,
                        cursor as int <= k as int * 0xffff_ffff,
                        ops_before + glyph_ops(fv, tv, base, 0) == ops@ + glyph_ops(
                            fv,
                            tv.skip(k as int),
                            base,
                            cursor as int,
                        ),
                    decreases tv.len() - k,
                {
                    proof {
                        assert(tv.skip(k as int).len() == tv.len() - k);
                        assert(tv.skip(k as int)[0] == tv[k as int]);
                        assert(tv.skip(k as int).drop_first() =~= tv.skip(k + 1));
                    }
                    let g = font.glyph_or_default(text[k]);
                    let op = RenderOp::TexturedQuad {
                        texture: font.texture,
                        x: base.x as i64 + cursor,
                        y: base.y as i64,
                        size: font.glyph_size,
                        region: g.region,
                    };
                    let ghost ops_prev = ops@;
                    ops.push(op);
                    proof {
                        assert(glyph_ops(fv, tv.skip(k as int), base, cursor as int) =~= seq![op]
                            + glyph_ops(fv, tv.skip(k + 1), base, cursor as int + g.advance));
                        assert(ops_prev + (seq![op] + glyph_ops(
                            fv,
                            tv.skip(k + 1),
                            base,
                            cursor as int + g.advance,
                        )) =~= ops@ + glyph_ops(fv, tv.skip(k + 1), base, cursor as int + g.advance));
                    }
                    cursor = cursor + g.advance as i64;
                    k += 1;
                }
                proof {
                    assert(tv.skip(tv.len() as int) =~= Seq::<char>::empty());
                    assert(glyph_ops(fv, tv.skip(tv.len() as int), base, cursor as int)
                        =~= Seq::<RenderOp>::empty());
                    assert(ops@ + Seq::<RenderOp>::empty() =~= ops@);
                    assert(ops@ =~= ops_before + command_ops(cvs[i as int]));
                }
            },
            DrawCommand::Line { start, end, width: _, color } => {
                let dx = end.x as i64 - start.x as i64;
                let dy = end.y as i64 - start.y as i64;
                ops.push(
                    RenderOp::Segment { x: start.x as i64, y: start.y as i64, dx, dy, color: *color },
                );
                proof {
                    assert(ops@ =~= ops_before + command_ops(cvs[i as int]));
                }
            },
            DrawCommand::Rect { position, size, color, filled } => {
                if *filled {
                    ops.push(
                        RenderOp::SolidQuad {
                            x: position.x as i64,
                            y: position.y as i64,
                            size: *size,
                            color: *color,
                        },
                    );
                } else {
                    let x = position.x as i64;
                    let y = position.y as i64;
                    let w = size.x as i64;
                    let h = size.y as i64;
                    ops.push(RenderOp::Segment { x, y, dx: w, dy: 0, color: *color });
                    ops.push(RenderOp::Segment { x, y: y + h, dx: w, dy: 0, color: *color });
                    ops.push(RenderOp::Segment { x, y, dx: 0, dy: h, color: *color });
                    ops.push(RenderOp::Segment { x: x + w, y, dx: 0, dy: h, color: *color });
                }
                proof {
                    assert(ops@ =~= ops_before + command_ops(cvs[i as int]));
                }
            },
        }
        proof {
            assert(ops@ =~= seq![RenderOp::Clear { color: frame@.clear_color }] + cmds_ops(
                cvs.take(i + 1),
            ));
        }
        i += 1;
    }
    proof {
        assert(cvs.take(cvs.len() as int) =~= cvs);
    }
    ops.push(RenderOp::Blit);
    proof {
        assert(ops@ =~= frame_ops(frame@));
    }
    ops
}

/// A frame with no draw commands still clears the target to its configured
/// clear color and blits the uniform result to the display: its plan is
/// exactly the clear and the blit.
pub proof fn lemma_empty_frame_plan(f: FrameV)
    requires
        f.commands.len() == 0,
    ensures
        frame_ops(f) == seq![RenderOp::Clear { color: f.clear_color }, RenderOp::Blit],
{
    assert(frame_ops(f) =~= seq![RenderOp::Clear { color: f.clear_color }, RenderOp::Blit]);
}

/// Where the operations of the `k`-th command start inside a frame's plan:
/// one (for the leading clear) plus the operations of every earlier
/// command.
pub open spec fn ops_start(cs: Seq<DrawCommandV>, k: int) -> int
    decreases k,
{
    if k <= 0 {
        1
    } else {
        ops_start(cs, k - 1) + command_ops(cs[k - 1]).len()
    }
}

proof fn lemma_ops_start_shift(cs: Seq<DrawCommandV>, k: int)
    requires
        1 <= k <= cs.len(),
    ensures
        ops_start(cs, k) == command_ops(cs[0]).len() + ops_start(cs.drop_first(), k - 1),
    decreases k,
{
    if k == 1 {
        assert(ops_start(cs, 0) == 1);
        assert(ops_start(cs.drop_first(), 0) == 1);
        assert(ops_start(cs, 1) == 1 + command_ops(cs[0]).len());
    } else {
        lemma_ops_start_shift(cs, k - 1);
        assert(cs.drop_first()[k - 2] == cs[k - 1]);
        assert(ops_start(cs, k) == ops_start(cs, k - 1) + command_ops(cs[k - 1]).len());
        assert(ops_start(cs.drop_first(), k - 1) == ops_start(cs.drop_first(), k - 2)
            + command_ops(cs.drop_first()[k - 2]).len());
    }
}

proof fn lemma_cmds_ops_block(cs: Seq<DrawCommandV>, k: int)
    requires
        0 <= k < cs.len(),
    ensures
        0 <= ops_start(cs, k) - 1,
        ops_start(cs, k) - 1 + command_ops(cs[k]).len() <= cmds_ops(cs).len(),
        cmds_ops(cs).subrange(
            ops_start(cs, k) - 1,
            ops_start(cs, k) - 1 + command_ops(cs[k]).len(),
        ) == command_ops(cs[k]),
    decreases k,
{
    if k == 0 {
        assert(cmds_ops(cs) == command_ops(cs[0]) + cmds_ops(cs.drop_first()));
        assert(cmds_ops(cs).subrange(0, command_ops(cs[0]).len() as int) =~= command_ops(cs[0]));
    } else {
        lemma_cmds_ops_block(cs.drop_first(), k - 1);
        lemma_ops_start_shift(cs, k);
        assert(cs.drop_first()[k - 1] == cs[k]);
        assert(cmds_ops(cs) == command_ops(cs[0]) + cmds_ops(cs.drop_first()));
        let a = ops_start(cs, k) - 1;
        let b = a + command_ops(cs[k]).len();
        let a0 = ops_start(cs.drop_first(), k - 1) - 1;
        let b0 = a0 + command_ops(cs[k]).len();
        assert(cmds_ops(cs).subrange(a, b) =~= cmds_ops(cs.drop_first()).subrange(a0, b0));
    }
}

proof fn lemma_ops_start_monotone(cs: Seq<DrawCommandV>, j: int, k: int)
    requires
        0 <= j < k <= cs.len(),
    ensures
        ops_start(cs, j) + command_ops(cs[j]).len() <= ops_start(cs, k),
    decreases k,
{
    if k == j + 1 {
    } else {
        lemma_ops_start_monotone(cs, j, k - 1);
    }
}

/// Draw-command order is preserved in the plan. The operations of the
/// `k`-th command form the contiguous block of the plan starting at
/// `ops_start(commands, k)`, after the leading clear; and for `j < k`, the
/// `j`-th command's block ends at or before the `k`-th command's block
/// starts. Executed in order, a later command therefore draws over an
/// earlier, overlapping one.
pub proof fn lemma_draw_order(f: FrameV, j: int, k: int)
    requires
        0 <= j < k < f.commands.len(),
    ensures
        1 <= ops_start(f.commands, k),
        ops_start(f.commands, k) + command_ops(f.commands[k]).len() + 1 <= frame_ops(f).len(),
        frame_ops(f).subrange(
            ops_start(f.commands, k),
            ops_start(f.commands, k) + command_ops(f.commands[k]).len(),
        ) == command_ops(f.commands[k]),
        frame_ops(f).subrange(
            ops_start(f.commands, j),
            ops_start(f.commands, j) + command_ops(f.commands[j]).len(),
        ) == command_ops(f.commands[j]),
        ops_start(f.commands, j) + command_ops(f.commands[j]).len() <= ops_start(f.commands, k),
    decreases k,
{
    let cs = f.commands;
    lemma_cmds_ops_block(cs, j);
    lemma_cmds_ops_block(cs, k);
    lemma_ops_start_monotone(cs, j, k);
    assert(frame_ops(f).subrange(
        ops_start(cs, k),
        ops_start(cs, k) + command_ops(cs[k]).len(),
    ) =~= cmds_ops(cs).subrange(
        ops_start(cs, k) - 1,
        ops_start(cs, k) - 1 + command_ops(cs[k]).len(),
    ));
    assert(frame_ops(f).subrange(
        ops_start(cs, j),
        ops_start(cs, j) + command_ops(cs[j]).len(),
    ) =~= cmds_ops(cs).subrange(
        ops_start(cs, j) - 1,
        ops_start(cs, j) - 1 + command_ops(cs[j]).len(),
    ));
}

/// The total stored advance of the first `k` drawn glyphs of a text.
pub open spec fn advance_total(f: FontV, text: Seq<char>, k: int) -> int
    decreases k,
{
    if k <= 0 {
        0
    } else {
        advance_total(f, text, k - 1) + glyph_for(f, text[k - 1]).advance
    }
}

proof fn lemma_advance_total_shift(f: FontV, text: Seq<char>, k: int)
    requires
        1 <= k <= text.len(),
    ensures
        advance_total(f, text, k) == glyph_for(f, text[0]).advance + advance_total(
            f,
            text.drop_first(),
            k - 1,
        ),
    decreases k,
{
    if k == 1 {
        assert(advance_total(f, text, 0) == 0);
        assert(advance_total(f, text.drop_first(), 0) == 0);
        assert(advance_total(f, text, 1) == glyph_for(f, text[0]).advance);
    } else {
        lemma_advance_total_shift(f, text, k - 1);
        assert(text.drop_first()[k - 2] == text[k - 1]);
        assert(advance_total(f, text, k) == advance_total(f, text, k - 1) + glyph_for(
            f,
            text[k - 1],
        ).advance);
        assert(advance_total(f, text.drop_first(), k - 1) == advance_total(
            f,
            text.drop_first(),
            k - 2,
        ) + glyph_for(f, text.drop_first()[k - 2]).advance);
    }
}

proof fn lemma_glyph_ops_index(f: FontV, text: Seq<char>, base: IVec2, cursor: int, k: int)
    requires
        0 <= k < text.len(),
    ensures
        glyph_ops(f, text, base, cursor).len() == text.len(),
        glyph_ops(f, text, base, cursor)[k] == (RenderOp::TexturedQuad {
            texture: f.texture,
            x: (base.x + cursor + advance_total(f, text, k)) as i64,
            y: base.y as i64,
            size: f.glyph_size,
            region: glyph_for(f, text[k]).region,
        }),
    decreases text.len(),
{
    lemma_glyph_ops_len(f, text, base, cursor);
    let g0 = glyph_for(f, text[0]);
    if k == 0 {
    } else {
        lemma_glyph_ops_index(f, text.drop_first(), base, cursor + g0.advance, k - 1);
        lemma_advance_total_shift(f, text, k);
        assert(text.drop_first()[k - 1] == text[k]);
    }
}

proof fn lemma_glyph_ops_len(f: FontV, text: Seq<char>, base: IVec2, cursor: int)
    ensures
        glyph_ops(f, text, base, cursor).len() == text.len(),
    decreases text.len(),
{
    if text.len() > 0 {
        lemma_glyph_ops_len(f, text.drop_first(), base, cursor + glyph_for(f, text[0]).advance);
    }
}

/// Text advances strictly left to right: a text command's plan has one
/// glyph quad per character, and the `k`-th quad sits at the base position
/// shifted right by the sum of the stored advances of the glyphs drawn
/// before it, showing the glyph drawn for the `k`-th character.
pub proof fn lemma_text_advance(f: FontV, text: Seq<char>, base: IVec2, k: int)
    requires
        0 <= k < text.len(),
    ensures
        glyph_ops(f, text, base, 0).len() == text.len(),
        glyph_ops(f, text, base, 0)[k] == (RenderOp::TexturedQuad {
            texture: f.texture,
            x: (base.x + advance_total(f, text, k)) as i64,
            y: base.y as i64,
            size: f.glyph_size,
            region: glyph_for(f, text[k]).region,
        }),
{
    lemma_glyph_ops_index(f, text, base, 0, k);
}

/// A character with no stored glyph falls back to the font's default
/// glyph, slot 0, rather than failing the draw.
pub proof fn lemma_missing_glyph_fallback(f: FontV, c: char)
    requires
        crate::font::glyph_lookup(f, c) is None,
    ensures
        glyph_for(f, c) == f.glyphs[0],
{
}

} // verus!
