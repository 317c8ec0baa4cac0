//! The data that shaping and wrapping produce, and the modes that steer them.
use vstd::prelude::*;
use crate::attrs::{Color, GlyphDecorationData, Metrics};

verus! {

/// How a paragraph ends.
#[derive(Clone, Copy, Debug, PartialEq, Eq, Hash, Structural)]
pub enum LineEnding {
    /// The paragraph has no line break after it.
    Absent,
    /// A line feed.
    Lf,
    /// A carriage return followed by a line feed.
    CrLf,
}

/// Horizontal alignment of the wrapped lines of a paragraph.
#[derive(Clone, Copy, Debug, PartialEq, Eq, Hash, Structural)]
pub enum Align {
    Left,
    Right,
    Center,
    Justified,
    End,
}

/// How much work the shaping collaborator does.
#[derive(Clone, Copy, Debug, PartialEq, Eq, Hash, Structural)]
pub enum Shaping {
    /// One glyph per character, left to right.
    Basic,
    /// Script-aware shaping with bidirectional reordering.
    Advanced,
}

/// Where a paragraph may be broken into visual lines.
#[derive(Clone, Copy, Debug, PartialEq, Eq, Hash, Structural)]
pub enum Wrap {
    Off,
    Glyph,
    Word,
    WordOrGlyph,
}

/// Where text that does not fit is replaced by an ellipsis.
#[derive(Clone, Copy, Debug, PartialEq, Eq, Hash, Structural)]
pub enum Ellipsize {
    Off,
    Start,
    Middle,
    End,
}

/// Whether glyph positions are snapped to whole pixels.
#[derive(Clone, Copy, Debug, PartialEq, Eq, Hash, Structural)]
pub enum Hinting {
    Disabled,
    Enabled,
}

/// A glyph cluster as shaping positions it, before wrapping. Advances and
/// offsets are relative to the font size, in 1/65536 em.
#[derive(Clone, Copy, Debug, PartialEq, Eq, Hash, Structural)]
pub struct ShapeGlyph {
    /// Byte offset of the cluster's first character in the paragraph.
    pub start: usize,
    /// Byte offset just after the cluster's last character.
    pub end: usize,
    pub x_advance: i32,
    pub y_advance: i32,
    pub x_offset: i32,
    pub y_offset: i32,
    pub ascent: i32,
    pub descent: i32,
    pub glyph_id: u16,
    /// Bidirectional embedding level; odd levels run right to left.
    pub level: u8,
    pub color_opt: Option<Color>,
    pub metadata: usize,
    pub metrics_opt: Option<Metrics>,
    pub decoration_data: Option<GlyphDecorationData>,
}

/// A shaped paragraph.
#[derive(Clone, Debug)]
pub struct ShapeLine {
    /// True when the paragraph direction is right to left.
    pub rtl: bool,
    /// The glyph clusters in logical order.
    pub glyphs: Vec<ShapeGlyph>,
}

impl ShapeLine {
    /// True of a left-to-right line without glyphs.
    pub open spec fn is_blank(&self) -> bool {
        !self.rtl && self.glyphs@.len() == 0
    }

    /// A left-to-right line without glyphs.
    pub fn empty() -> (line: Self)
        ensures
            line.is_blank(),
    {
        ShapeLine { rtl: false, glyphs: Vec::new() }
    }
}

/// A glyph positioned on a visual line. Positions and sizes are in
/// subpixels.
#[derive(Clone, Copy, Debug, PartialEq, Eq, Hash, Structural)]
pub struct LayoutGlyph {
    /// Byte offset of the glyph's first character in the paragraph.
    pub start: usize,
    /// Byte offset just after the glyph's last character.
    pub end: usize,
    pub font_size: i32,
    pub glyph_id: u16,
    /// Left edge of the glyph on its line.
    pub x: i32,
    /// Vertical offset of the glyph from the baseline.
    pub y: i32,
    /// Advance width of the glyph.
    pub w: i32,
    /// Bidirectional embedding level; odd levels run right to left.
    pub level: u8,
    pub color_opt: Option<Color>,
    pub metadata: usize,
    /// The decoration of the glyph, if it has any.
    pub decoration_data: Option<GlyphDecorationData>,
}

/// A range of glyphs of one visual line that share a decoration.
#[derive(Clone, Copy, Debug, PartialEq, Eq, Hash, Structural)]
pub struct DecorationSpan {
    /// Index of the first glyph of the range.
    pub glyph_start: usize,
    /// Index just after the last glyph of the range.
    pub glyph_end: usize,
    pub data: GlyphDecorationData,
}

/// One visual line, the result of wrapping. Sizes are in subpixels.
#[derive(Clone, Debug)]
pub struct LayoutLine {
    /// Width of the line.
    pub w: i32,
    /// Largest ascent of the glyphs on the line.
    pub max_ascent: i32,
    /// Largest descent of the glyphs on the line.
    pub max_descent: i32,
    /// Line height that overrides the default, if the text asks for one.
    pub line_height_opt: Option<i32>,
    /// The glyphs in the order in which they stand on the line, from the
    /// left or from the right.
    pub glyphs: Vec<LayoutGlyph>,
    /// The decorated glyph ranges.
    pub decorations: Vec<DecorationSpan>,
}

/// What identifies a rasterised glyph.
#[derive(Clone, Copy, Debug, PartialEq, Eq, Hash, Structural)]
pub struct CacheKey {
    pub glyph_id: u16,
    /// Font size in subpixels.
    pub font_size: i32,
    /// Horizontal subpixel position, 0 to 63.
    pub x_bin: u8,
    /// Vertical subpixel position, 0 to 63.
    pub y_bin: u8,
}

/// A glyph at a whole-pixel position, ready to be drawn.
#[derive(Clone, Copy, Debug, PartialEq, Eq, Hash, Structural)]
pub struct PhysicalGlyph {
    pub cache_key: CacheKey,
    pub x: i32,
    pub y: i32,
}

} // verus!
