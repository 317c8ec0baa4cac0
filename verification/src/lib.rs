//! A headless text layout core: paragraph lines with cached shaping and
//! layout, extraction of the visible runs, and the geometry of text
//! decorations, all over fixed-point coordinates.
pub mod attrs;
pub mod attrs_list;
pub mod attrs_list_laws;
pub mod buffer_line;
pub mod buffer_line_laws;
pub mod cached;
pub mod cursor;
pub mod layout;
pub mod layout_run;
pub mod layout_run_laws;
pub mod line_height;
pub mod render;
pub mod render_laws;
pub mod std_specs;
pub mod text;
pub mod units;

pub use attrs::{
    Attrs, Color, DecorationMetrics, Family, GlyphDecorationData, Metrics, Style, TextDecoration,
    UnderlineStyle, Weight,
};
pub use attrs_list::{AttrsList, Span};
pub use buffer_line::BufferLine;
pub use cached::Cached;
pub use cursor::{Affinity, Cursor};
pub use layout::{
    Align, CacheKey, DecorationSpan, Ellipsize, Hinting, LayoutGlyph, LayoutLine, LineEnding,
    PhysicalGlyph, ShapeGlyph, ShapeLine, Shaping, Wrap,
};
pub use layout_run::{LayoutRun, LayoutRunIter};
pub use render::{render_decoration, DisplayList, Rectangle, Renderer};
