//! Bitmap fonts: a glyph atlas texture, per-glyph regions and advance
//! widths, and an optional character table mapping characters to glyph
//! slots.
//!
//! The compositor reads fonts through [`glyph_for`]: the glyph for a
//! character, falling back to the font's default glyph (slot 0) when the
//! character has none.

use vstd::prelude::*;

use crate::geom::UVec2;
use crate::sprite::{TexRegion, TextureRef};

verus! {

/// Font-file validation failures.
#[derive(Clone, Copy, Debug, PartialEq, Eq, Structural)]
pub enum FontError {
    /// The data ends before the fixed-size header does.
    IO,
    /// The file magic does not match.
    InvalidMagic { expected: u32, actual: u32 },
    /// The file version is not the supported one.
    InvalidVersion(u32),
    /// A character-table entry is not valid text.
    InvalidUnicode,
}

/// One glyph: its region in the atlas texture and the horizontal advance
/// to the next character.
#[derive(Clone, Copy, Debug, PartialEq, Eq, Structural)]
pub struct Glyph {
    pub region: TexRegion,
    pub advance: u32,
}

/// The mathematical value of a font.
pub struct FontV {
    pub texture: TextureRef,
    pub glyph_size: UVec2,
    pub glyphs: Seq<Glyph>,
    pub char_map: Option<Seq<(char, usize)>>,
}

impl FontV {
    /// A font is well formed when it has a glyph to fall back to.
    pub open spec fn wf(self) -> bool {
        self.glyphs.len() >= 1
    }
}

/// The first entry for `c` in a character table, if any.
pub open spec fn map_lookup(m: Seq<(char, usize)>, c: char) -> Option<usize>
    decreases m.len(),
{
    if m.len() == 0 {
        None
    } else if m[0].0 == c {
        Some(m[0].1)
    } else {
        map_lookup(m.drop_first(), c)
    }
}

/// The glyph slot a character selects: its table entry when the font has a
/// character table, else the character's code itself.
pub open spec fn glyph_slot(f: FontV, c: char) -> Option<usize> {
    match f.char_map {
        Some(m) => map_lookup(m, c),
        None => Some(c as usize),
    }
}

/// The glyph stored for `c`, if its slot exists and is in range.
pub open spec fn glyph_lookup(f: FontV, c: char) -> Option<Glyph> {
    match glyph_slot(f, c) {
        Some(i) => if i < f.glyphs.len() {
            Some(f.glyphs[i as int])
        } else {
            None
        },
        None => None,
    }
}

/// The glyph drawn for `c`: its stored glyph, or the font's default glyph
/// (slot 0) when the character has none.
pub open spec fn glyph_for(f: FontV, c: char) -> Glyph {
    match glyph_lookup(f, c) {
        Some(g) => g,
        None => f.glyphs[0],
    }
}

/// The first entry for `c` in a character table, by scan from the front.
fn lookup_pair(m: &Vec<(char, usize)>, c: char) -> (r: Option<usize>)
    ensures
        r == map_lookup(m@, c),
{
    proof {
        assert(m@.skip(0) =~= m@);
    }
    let mut i: usize = 0;
    while i < m.len()
        invariant
            i <= m@.len(),
            map_lookup(m@, c) == map_lookup(m@.skip(i as int), c),
        decreases m@.len() - i,
    {
        proof {
            assert(m@.skip(i as int).drop_first() =~= m@.skip(i + 1));
            assert(m@.skip(i as int)[0] == m@[i as int]);
        }
        if m[i].0 == c {
            return Some(m[i].1);
        }
        i += 1;
    }
    proof {
        assert(m@.skip(m@.len() as int) =~= Seq::<(char, usize)>::empty());
    }
    None
}

/// A bitmap font.
pub struct Font {
    pub texture: TextureRef,
    pub glyph_size: UVec2,
    pub glyphs: Vec<Glyph>,
    pub char_map: Option<Vec<(char, usize)>>,
}

impl View for Font {
    type V = FontV;

    open spec fn view(&self) -> FontV {
        FontV {
            texture: self.texture,
            glyph_size: self.glyph_size,
            glyphs: self.glyphs@,
            char_map: match self.char_map {
                Some(m) => Some(m@),
                None => None,
            },
        }
    }
}

impl Font {
    /// Assembles a font from its parts. The glyph list may not be empty:
    /// slot 0 is the fallback glyph.
    pub fn new(
        texture: TextureRef,
        glyph_size: UVec2,
        glyphs: Vec<Glyph>,
        char_map: Option<Vec<(char, usize)>>,
    ) -> (f: Font)
        requires
            glyphs@.len() >= 1,
        ensures
            f@.texture == texture,
            f@.glyph_size == glyph_size,
            f@.glyphs == glyphs@,
            f@.char_map == match char_map {
                Some(m) => Some(m@),
                None => None::<Seq<(char, usize)>>,
            },
            f@.wf(),
    {
        Font { texture, glyph_size, glyphs, char_map }
    }

    /// The atlas texture holding every glyph.
    pub fn texture(&self) -> (t: TextureRef)
        ensures
            t == self@.texture,
    {
        self.texture
    }

    /// The fixed cell size of a glyph.
    pub fn glyph_size(&self) -> (s: UVec2)
        ensures
            s == self@.glyph_size,
    {
        self.glyph_size
    }

    /// The glyph stored for `c`, if any.
    pub fn glyph(&self, c: char) -> (r: Option<Glyph>)
        ensures
            r == glyph_lookup(self@, c),
    {
        let slot: Option<usize> = match &self.char_map {
            Some(m) => lookup_pair(m, c),
            None => Some(c as usize),
        };
        match slot {
            Some(i) => {
                if i < self.glyphs.len() {
                    Some(self.glyphs[i])
                } else {
                    None
                }
            },
            None => None,
        }
    }

    /// The fallback glyph, stored in slot 0.
    pub fn default_glyph(&self) -> (g: Glyph)
        requires
            self@.wf(),
        ensures
            g == self@.glyphs[0],
    {
        self.glyphs[0]
    }

    /// The glyph drawn for `c`: its stored glyph, or the fallback glyph.
    pub fn glyph_or_default(&self, c: char) -> (g: Glyph)
        requires
            self@.wf(),
        ensures
            g == glyph_for(self@, c),
    {
        match self.glyph(c) {
            Some(g) => g,
            None => self.default_glyph(),
        }
    }
}

impl Clone for Font {
    /// A clone denotes the same font.
    fn clone(&self) -> (r: Self)
        ensures
            r@ == self@,
    {
        let mut glyphs: Vec<Glyph> = Vec::new();
        let mut i: usize = 0;
        while i < self.glyphs.len()
            invariant
                i <= self.glyphs@.len(),
                glyphs@ == self.glyphs@.take(i as int),
            decreases self.glyphs@.len() - i,
        {
            proof {
                assert(self.glyphs@.take(i + 1) =~= self.glyphs@.take(i as int).push(
                    self.glyphs@[i as int],
                ));
            }
            glyphs.push(self.glyphs[i]);
            i += 1;
        }
        proof {
            assert(self.glyphs@.take(self.glyphs@.len() as int) =~= self.glyphs@);
        }
        let char_map: Option<Vec<(char, usize)>> = match &self.char_map {
            Some(m) => {
                let mut pairs: Vec<(char, usize)> = Vec::new();
                let mut i: usize = 0;
                while i < m.len()
                    invariant
                        i <= m@.len(),
                        pairs@ == m@.take(i as int),
                    decreases m@.len() - i,
                {
                    proof {
                        assert(m@.take(i + 1) =~= m@.take(i as int).push(m@[i as int]));
                    }
                    pairs.push(m[i]);
                    i += 1;
                }
                proof {
                    assert(m@.take(m@.len() as int) =~= m@);
                }
                Some(pairs)
            },
            None => None,
        };
        let r = Font { texture: self.texture, glyph_size: self.glyph_size, glyphs, char_map };
        proof {
            assert(r@.glyphs =~= self@.glyphs);
            match &self.char_map {
                Some(m) => {
                    assert(r@.char_map->0 =~= self@.char_map->0);
                },
                None => {},
            }
        }
        r
    }
}

/// The font-file magic number.
pub const FONT_MAGIC: u32 = 0x864a_b572;

/// A font file's fixed-size header: eight little-endian 32-bit fields.
#[derive(Clone, Copy, Debug, PartialEq, Eq, Structural)]
pub struct FontHeader {
    pub magic: u32,
    pub version: u32,
    pub header_size: u32,
    pub flags: u32,
    pub num_glyphs: u32,
    pub bytes_per_glyph: u32,
    pub height: u32,
    pub width: u32,
}

/// The little-endian 32-bit value at byte offset `off`.
pub open spec fn le32(s: Seq<u8>, off: int) -> int {
    s[off] + s[off + 1] * 0x100 + s[off + 2] * 0x10000 + s[off + 3] * 0x1000000
}

/// The header the first 32 bytes of a font file denote.
pub open spec fn header_of(s: Seq<u8>) -> FontHeader {
    FontHeader {
        magic: le32(s, 0) as u32,
        version: le32(s, 4) as u32,
        header_size: le32(s, 8) as u32,
        flags: le32(s, 12) as u32,
        num_glyphs: le32(s, 16) as u32,
        bytes_per_glyph: le32(s, 20) as u32,
        height: le32(s, 24) as u32,
        width: le32(s, 28) as u32,
    }
}

fn read_u32_le(data: &Vec<u8>, off: usize) -> (r: u32)
    requires
        off + 4 <= data@.len(),
        data@.len() <= usize::MAX,
    ensures
        r as int == le32(data@, off as int),
{
    let b0 = data[off] as u32;
    let b1 = data[off + 1] as u32;
    let b2 = data[off + 2] as u32;
    let b3 = data[off + 3] as u32;
    b0 + b1 * 0x100 + b2 * 0x10000 + b3 * 0x1000000
}

/// Validates a font file's header: the data must hold all 32 header bytes,
/// the magic must match, and the version must be 0. Returns the parsed
/// header exactly as the bytes denote it.
pub fn parse_header(data: &Vec<u8>) -> (r: Result<FontHeader, FontError>)
    ensures
        match r {
            Ok(h) => data@.len() >= 32 && h == header_of(data@) && h.magic == FONT_MAGIC
                && h.version == 0,
            Err(e) => match e {
                FontError::IO => data@.len() < 32,
                FontError::InvalidMagic { expected, actual } => data@.len() >= 32 && expected
                    == FONT_MAGIC && actual == header_of(data@).magic && actual != FONT_MAGIC,
                FontError::InvalidVersion(v) => data@.len() >= 32 && header_of(data@).magic
                    == FONT_MAGIC && v == header_of(data@).version && v != 0,
                _ => false,
            },
        },
{
    if data.len() < 32 {
        return Err(FontError::IO);
    }
    let magic = read_u32_le(data, 0);
    if magic != FONT_MAGIC {
        return Err(FontError::InvalidMagic { expected: FONT_MAGIC, actual: magic });
    }
    let version = read_u32_le(data, 4);
    if version != 0 {
        return Err(FontError::InvalidVersion(version));
    }
    Ok(
        FontHeader {
            magic,
            version,
            header_size: read_u32_le(data, 8),
            flags: read_u32_le(data, 12),
            num_glyphs: read_u32_le(data, 16),
            bytes_per_glyph: read_u32_le(data, 20),
            height: read_u32_le(data, 24),
            width: read_u32_le(data, 28),
        },
    )
}

} // verus!
