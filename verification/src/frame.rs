//! The per-frame command list: a clear color and an ordered sequence of
//! draw commands. A frame is pure data; building one performs no GPU work.

use vstd::prelude::*;
use vstd::std_specs::iter::IteratorSpec;

use crate::color::Color;
use crate::font::{Font, FontV};
use crate::geom::{IVec2, UVec2};
use crate::sprite::Sprite;

verus! {

broadcast use vstd::string::axiom_spec_iter, vstd::string::next_postcondition;

/// The longest text one command may hold, in characters. Keeping each text
/// under this bound keeps every glyph position within a 64-bit coordinate,
/// whatever the stored advances are.
pub const MAX_TEXT_LEN: usize = 0x7fff_ffff;

/// One draw command. Later commands in a frame draw over earlier ones.
pub enum DrawCommand {
    Sprite { sprite: Sprite, position: IVec2 },
    Text { font: Font, text: Vec<char>, position: IVec2 },
    Line { start: IVec2, end: IVec2, width: u32, color: Color },
    Rect { position: IVec2, size: UVec2, color: Color, filled: bool },
}

/// The mathematical value of a draw command.
pub enum DrawCommandV {
    Sprite { sprite: Sprite, position: IVec2 },
    Text { font: FontV, text: Seq<char>, position: IVec2 },
    Line { start: IVec2, end: IVec2, width: u32, color: Color },
    Rect { position: IVec2, size: UVec2, color: Color, filled: bool },
}

impl View for DrawCommand {
    type V = DrawCommandV;

    open spec fn view(&self) -> DrawCommandV {
        match self {
            DrawCommand::Sprite { sprite, position } => DrawCommandV::Sprite {
                sprite: *sprite,
                position: *position,
            },
            DrawCommand::Text { font, text, position } => DrawCommandV::Text {
                font: font@,
                text: text@,
                position: *position,
            },
            DrawCommand::Line { start, end, width, color } => DrawCommandV::Line {
                start: *start,
                end: *end,
                width: *width,
                color: *color,
            },
            DrawCommand::Rect { position, size, color, filled } => DrawCommandV::Rect {
                position: *position,
                size: *size,
                color: *color,
                filled: *filled,
            },
        }
    }
}

/// A command is well formed when any font it carries has a fallback glyph
/// and any text it carries fits the length bound.
pub open spec fn cmd_wf(c: DrawCommandV) -> bool {
    match c {
        DrawCommandV::Text { font, text, .. } => font.wf() && text.len() <= MAX_TEXT_LEN,
        _ => true,
    }
}

/// The mathematical value of a frame.
pub struct FrameV {
    pub commands: Seq<DrawCommandV>,
    pub clear_color: Color,
}

impl FrameV {
    /// Every command of the frame is well formed.
    pub open spec fn wf(self) -> bool {
        forall|i: int| 0 <= i < self.commands.len() ==> #[trigger] cmd_wf(self.commands[i])
    }
}

/// A frame: the clear color and the ordered draw commands of one displayed
/// image. Immutable once handed to the presenter; never retained after.
pub struct Frame {
    pub draw_commands: Vec<DrawCommand>,
    pub clear_color: Color,
}

impl View for Frame {
    type V = FrameV;

    open spec fn view(&self) -> FrameV {
        FrameV { commands: self.draw_commands@.map_values(|c: DrawCommand| c@), clear_color: self.clear_color }
    }
}

/// Collects the characters of a string slice, in order.
pub fn chars_vec(s: &str) -> (v: Vec<char>)
    ensures
        v@ == s@,
{
    let mut it = s.chars();
    let mut v: Vec<char> = Vec::new();
    proof {
        assert(v@ + it.remaining() =~= s@);
    }
    loop
        invariant
            it.obeys_prophetic_iter_laws(),
            it.decrease() is Some,
            v@ + it.remaining() == s@,
        ensures
            v@ == s@,
        decreases it.decrease()->0,
    {
        let ghost prev = it.remaining();
        match it.next() {
            Some(c) => {
                proof {
                    assert(v@.push(c) + prev.drop_first() =~= v@ + prev);
                }
                v.push(c);
            },
            None => {
                proof {
                    assert(prev.len() == 0);
                    assert(it.remaining() == prev);
                    assert(v@ + prev =~= v@);
                    assert(v@ == s@);
                }
                break ;
            },
        }
    }
    v
}

impl Frame {
    /// Appends a sprite draw at the given position.
    pub fn draw_sprite(&mut self, sprite: &Sprite, position: IVec2)
        ensures
            final(self)@.commands == old(self)@.commands.push(
                DrawCommandV::Sprite { sprite: *sprite, position },
            ),
            final(self)@.clear_color == old(self)@.clear_color,
            old(self)@.wf() ==> final(self)@.wf(),
    {
        let cmd = DrawCommand::Sprite { sprite: *sprite, position };
        proof {
            assert(old(self)@.commands.push(cmd@) =~= old(self).draw_commands@.push(
                cmd,
            ).map_values(|c: DrawCommand| c@));
        }
        self.draw_commands.push(cmd);
    }

    /// Appends a text draw: `text` rendered with `font` starting at
    /// `position`.
    pub fn draw_text(&mut self, font: &Font, text: &str, position: IVec2)
        requires
            font@.wf(),
            text@.len() <= MAX_TEXT_LEN,
        ensures
            final(self)@.commands == old(self)@.commands.push(
                DrawCommandV::Text { font: font@, text: text@, position },
            ),
            final(self)@.clear_color == old(self)@.clear_color,
            old(self)@.wf() ==> final(self)@.wf(),
    {
        let cmd = DrawCommand::Text { font: font.clone(), text: chars_vec(text), position };
        proof {
            assert(old(self)@.commands.push(cmd@) =~= old(self).draw_commands@.push(
                cmd,
            ).map_values(|c: DrawCommand| c@));
        }
        self.draw_commands.push(cmd);
    }

    /// Appends a filled rectangle.
    pub fn draw_rect(&mut self, position: IVec2, size: UVec2, color: Color)
        ensures
            final(self)@.commands == old(self)@.commands.push(
                DrawCommandV::Rect { position, size, color, filled: true },
            ),
            final(self)@.clear_color == old(self)@.clear_color,
            old(self)@.wf() ==> final(self)@.wf(),
    {
        let cmd = DrawCommand::Rect { position, size, color, filled: true };
        proof {
            assert(old(self)@.commands.push(cmd@) =~= old(self).draw_commands@.push(
                cmd,
            ).map_values(|c: DrawCommand| c@));
        }
        self.draw_commands.push(cmd);
    }

    /// Appends a rectangle outline: its four edges.
    pub fn draw_rect_outline(&mut self, position: IVec2, size: UVec2, color: Color)
        ensures
            final(self)@.commands == old(self)@.commands.push(
                DrawCommandV::Rect { position, size, color, filled: false },
            ),
            final(self)@.clear_color == old(self)@.clear_color,
            old(self)@.wf() ==> final(self)@.wf(),
    {
        let cmd = DrawCommand::Rect { position, size, color, filled: false };
        proof {
            assert(old(self)@.commands.push(cmd@) =~= old(self).draw_commands@.push(
                cmd,
            ).map_values(|c: DrawCommand| c@));
        }
        self.draw_commands.push(cmd);
    }

    /// Appends a one-pixel-wide line from `start` to `end`.
    pub fn draw_line(&mut self, start: IVec2, end: IVec2, color: Color)
        ensures
            final(self)@.commands == old(self)@.commands.push(
                DrawCommandV::Line { start, end, width: 1, color },
            ),
            final(self)@.clear_color == old(self)@.clear_color,
            old(self)@.wf() ==> final(self)@.wf(),
    {
        let cmd = DrawCommand::Line { start, end, width: 1, color };
        proof {
            assert(old(self)@.commands.push(cmd@) =~= old(self).draw_commands@.push(
                cmd,
            ).map_values(|c: DrawCommand| c@));
        }
        self.draw_commands.push(cmd);
    }

    /// Sets the color the target is cleared to before any command draws.
    pub fn set_clear_color(&mut self, color: Color)
        ensures
            final(self)@.commands == old(self)@.commands,
            final(self)@.clear_color == color,
            old(self)@.wf() ==> final(self)@.wf(),
    {
        self.clear_color = color;
    }

    /// The configured clear color.
    pub fn clear_color(&self) -> (c: Color)
        ensures
            c == self@.clear_color,
    {
        self.clear_color
    }

    /// The ordered draw commands.
    pub fn commands(&self) -> (r: &Vec<DrawCommand>)
        ensures
            r@.map_values(|c: DrawCommand| c@) == self@.commands,
    {
        &self.draw_commands
    }
}

impl Default for Frame {
    /// An empty frame: no commands, cleared to opaque black.
    fn default() -> (f: Frame)
        ensures
            f@.commands.len() == 0,
            f@.clear_color == (Color { r: 0, g: 0, b: 0, a: 255 }),
            f@.wf(),
    {
        Frame { draw_commands: Vec::new(), clear_color: Color::rgb(0, 0, 0) }
    }
}

} // verus!
