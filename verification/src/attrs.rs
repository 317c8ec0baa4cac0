//! Style attributes of text.
use vstd::prelude::*;
use crate::units::{clamp_i32, trunc_div, EM_UNITS};

verus! {

/// A colour, packed as alpha, red, green and blue from the high byte down.
#[derive(Clone, Copy, Debug, PartialEq, Eq, Hash, Structural)]
pub struct Color(pub u32);

impl Color {
    /// The packed value of the four channels.
    pub open spec fn pack(r: u8, g: u8, b: u8, a: u8) -> u32 {
        ((a as u32) << 24) | ((r as u32) << 16) | ((g as u32) << 8) | (b as u32)
    }

    /// An opaque colour.
    pub fn rgb(r: u8, g: u8, b: u8) -> (c: Self)
        ensures
            c.0 == Self::pack(r, g, b, 0xFF),
    {
        Self::rgba(r, g, b, 0xFF)
    }

    /// A colour with the given opacity.
    pub fn rgba(r: u8, g: u8, b: u8, a: u8) -> (c: Self)
        ensures
            c.0 == Self::pack(r, g, b, a),
    {
        Color(((a as u32) << 24) | ((r as u32) << 16) | ((g as u32) << 8) | (b as u32))
    }
}

/// A font family: one of the generic families, or a family that the font
/// collaborator knows under the given key.
#[derive(Clone, Copy, Debug, PartialEq, Eq, Hash, Structural)]
pub enum Family {
    Serif,
    SansSerif,
    Cursive,
    Fantasy,
    Monospace,
    Named(u32),
}

/// The slant of a face.
#[derive(Clone, Copy, Debug, PartialEq, Eq, Hash, Structural)]
pub enum Style {
    Normal,
    Italic,
    Oblique,
}

/// The weight of a face, 400 being regular and 700 bold.
#[derive(Clone, Copy, Debug, PartialEq, Eq, Hash, Structural)]
pub struct Weight(pub u16);

/// A font size with its line height, both in subpixels.
#[derive(Clone, Copy, Debug, PartialEq, Eq, Hash, Structural)]
pub struct Metrics {
    pub font_size: i32,
    pub line_height: i32,
}

impl Metrics {
    /// The line height, in subpixels, that is `line_height_scale` times the
    /// font size, the scale being in 1/65536: the product rounded toward
    /// zero and limited to the range of `i32`.
    pub open spec fn relative_line_height(font_size: i32, line_height_scale: i32) -> int {
        clamp_i32(trunc_div(font_size * line_height_scale, EM_UNITS as int))
    }

    /// Metrics with the given font size and line height, in subpixels.
    pub fn new(font_size: i32, line_height: i32) -> (metrics: Self)
        ensures
            metrics == (Metrics { font_size, line_height }),
    {
        Metrics { font_size, line_height }
    }

    /// Metrics with the given font size, in subpixels, and a line height
    /// that is `line_height_scale` times the font size, the scale being in
    /// 1/65536.
    pub fn relative(font_size: i32, line_height_scale: i32) -> (metrics: Self)
        ensures
            metrics.font_size == font_size,
            metrics.line_height == Self::relative_line_height(font_size, line_height_scale),
    {
        assert(-0x4000_0000_0000_0000 <= font_size * line_height_scale <= 0x4000_0000_0000_0000)
            by (nonlinear_arith)
            requires
                -0x8000_0000 <= font_size <= 0x7FFF_FFFF,
                -0x8000_0000 <= line_height_scale <= 0x7FFF_FFFF,
        ;
        let scaled: i64 = (font_size as i64) * (line_height_scale as i64) / 65536;
        let line_height = if scaled < -2147483648 {
            i32::MIN
        } else if scaled > 2147483647 {
            i32::MAX
        } else {
            scaled as i32
        };
        Metrics { font_size, line_height }
    }
}

/// How text is underlined.
#[derive(Clone, Copy, Debug, PartialEq, Eq, Hash, Structural)]
pub enum UnderlineStyle {
    Absent,
    Single,
    Double,
}

/// The decoration lines of a piece of text, each with an optional colour of
/// its own.
#[derive(Clone, Copy, Debug, PartialEq, Eq, Hash, Structural)]
pub struct TextDecoration {
    pub underline: UnderlineStyle,
    pub underline_color_opt: Option<Color>,
    pub strikethrough: bool,
    pub strikethrough_color_opt: Option<Color>,
    pub overline: bool,
    pub overline_color_opt: Option<Color>,
}

impl TextDecoration {
    /// No decoration at all.
    pub open spec fn spec_new() -> Self {
        TextDecoration {
            underline: UnderlineStyle::Absent,
            underline_color_opt: None,
            strikethrough: false,
            strikethrough_color_opt: None,
            overline: false,
            overline_color_opt: None,
        }
    }

    /// True when at least one decoration line is enabled.
    pub open spec fn spec_has_decoration(&self) -> bool {
        self.underline != UnderlineStyle::Absent || self.strikethrough || self.overline
    }

    #[verifier::when_used_as_spec(spec_new)]
    pub fn new() -> (d: Self)
        ensures
            d == Self::spec_new(),
    {
        TextDecoration {
            underline: UnderlineStyle::Absent,
            underline_color_opt: None,
            strikethrough: false,
            strikethrough_color_opt: None,
            overline: false,
            overline_color_opt: None,
        }
    }

    #[verifier::when_used_as_spec(spec_has_decoration)]
    pub fn has_decoration(&self) -> (r: bool)
        ensures
            r == self.spec_has_decoration(),
    {
        self.underline != UnderlineStyle::Absent || self.strikethrough || self.overline
    }
}

/// Where a decoration line lies and how thick it is, relative to the font
/// size, in 1/65536 em. The offset is measured upward from the baseline.
#[derive(Clone, Copy, Debug, PartialEq, Eq, Hash, Structural)]
pub struct DecorationMetrics {
    pub offset: i32,
    pub thickness: i32,
}

/// The decoration state that a laid-out glyph carries.
#[derive(Clone, Copy, Debug, PartialEq, Eq, Hash, Structural)]
pub struct GlyphDecorationData {
    pub text_decoration: TextDecoration,
    pub underline_metrics: DecorationMetrics,
    pub strikethrough_metrics: DecorationMetrics,
    /// The font size, in subpixels, that scales the metrics.
    pub font_size: i32,
}

/// The style attributes of a range of text.
#[derive(Clone, Copy, Debug, PartialEq, Eq, Hash, Structural)]
pub struct Attrs {
    pub color_opt: Option<Color>,
    pub family: Family,
    pub style: Style,
    pub weight: Weight,
    pub metadata: usize,
    pub metrics_opt: Option<Metrics>,
    pub text_decoration: TextDecoration,
}

impl Attrs {
    /// The attributes of plain text: sans-serif, upright, regular weight,
    /// without colour, size override or decoration.
    pub open spec fn spec_new() -> Self {
        Attrs {
            color_opt: None,
            family: Family::SansSerif,
            style: Style::Normal,
            weight: Weight(400),
            metadata: 0,
            metrics_opt: None,
            text_decoration: TextDecoration::spec_new(),
        }
    }

    #[verifier::when_used_as_spec(spec_new)]
    pub fn new() -> (a: Self)
        ensures
            a == Self::spec_new(),
    {
        Attrs {
            color_opt: None,
            family: Family::SansSerif,
            style: Style::Normal,
            weight: Weight(400),
            metadata: 0,
            metrics_opt: None,
            text_decoration: TextDecoration::new(),
        }
    }

    /// These attributes with the given colour.
    pub fn color(self, color: Color) -> (a: Self)
        ensures
            a == (Attrs { color_opt: Some(color), ..self }),
    {
        Attrs { color_opt: Some(color), ..self }
    }

    /// These attributes with the given family.
    pub fn family(self, family: Family) -> (a: Self)
        ensures
            a == (Attrs { family, ..self }),
    {
        Attrs { family, ..self }
    }

    /// These attributes with the given slant.
    pub fn style(self, style: Style) -> (a: Self)
        ensures
            a == (Attrs { style, ..self }),
    {
        Attrs { style, ..self }
    }

    /// These attributes with the given weight.
    pub fn weight(self, weight: Weight) -> (a: Self)
        ensures
            a == (Attrs { weight, ..self }),
    {
        Attrs { weight, ..self }
    }

    /// These attributes with the given metadata.
    pub fn metadata(self, metadata: usize) -> (a: Self)
        ensures
            a == (Attrs { metadata, ..self }),
    {
        Attrs { metadata, ..self }
    }

    /// These attributes with metrics of their own.
    pub fn metrics(self, metrics: Metrics) -> (a: Self)
        ensures
            a == (Attrs { metrics_opt: Some(metrics), ..self }),
    {
        Attrs { metrics_opt: Some(metrics), ..self }
    }

    /// These attributes with the given underline.
    pub fn underline(self, underline: UnderlineStyle) -> (a: Self)
        ensures
            a == (Attrs {
                text_decoration: TextDecoration { underline, ..self.text_decoration },
                ..self
            }),
    {
        Attrs { text_decoration: TextDecoration { underline, ..self.text_decoration }, ..self }
    }

    /// These attributes with the given colour for the underline.
    pub fn underline_color(self, color: Color) -> (a: Self)
        ensures
            a == (Attrs {
                text_decoration: TextDecoration {
                    underline_color_opt: Some(color),
                    ..self.text_decoration
                },
                ..self
            }),
    {
        Attrs {
            text_decoration: TextDecoration {
                underline_color_opt: Some(color),
                ..self.text_decoration
            },
            ..self
        }
    }

    /// These attributes with a strikethrough.
    pub fn strikethrough(self) -> (a: Self)
        ensures
            a == (Attrs {
                text_decoration: TextDecoration { strikethrough: true, ..self.text_decoration },
                ..self
            }),
    {
        Attrs {
            text_decoration: TextDecoration { strikethrough: true, ..self.text_decoration },
            ..self
        }
    }

    /// These attributes with the given colour for the strikethrough.
    pub fn strikethrough_color(self, color: Color) -> (a: Self)
        ensures
            a == (Attrs {
                text_decoration: TextDecoration {
                    strikethrough_color_opt: Some(color),
                    ..self.text_decoration
                },
                ..self
            }),
    {
        Attrs {
            text_decoration: TextDecoration {
                strikethrough_color_opt: Some(color),
                ..self.text_decoration
            },
            ..self
        }
    }

    /// These attributes with an overline.
    pub fn overline(self) -> (a: Self)
        ensures
            a == (Attrs {
                text_decoration: TextDecoration { overline: true, ..self.text_decoration },
                ..self
            }),
    {
        Attrs { text_decoration: TextDecoration { overline: true, ..self.text_decoration }, ..self }
    }

    /// These attributes with the given colour for the overline.
    pub fn overline_color(self, color: Color) -> (a: Self)
        ensures
            a == (Attrs {
                text_decoration: TextDecoration {
                    overline_color_opt: Some(color),
                    ..self.text_decoration
                },
                ..self
            }),
    {
        Attrs {
            text_decoration: TextDecoration {
                overline_color_opt: Some(color),
                ..self.text_decoration
            },
            ..self
        }
    }
}

} // verus!
