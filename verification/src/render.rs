//! Drawing of text decorations through an abstract renderer.
use vstd::prelude::*;
use crate::attrs::{Color, DecorationMetrics, GlyphDecorationData, UnderlineStyle};
use crate::layout_run::LayoutRun;
use crate::layout::{LayoutGlyph, PhysicalGlyph};
use crate::units::{
    ceil_div, clamp_u32, fine_to_pixel, fine_to_pixel_exec, subpixel_to_pixel,
    subpixel_to_pixel_exec, EM_UNITS, FINE_UNITS,
};

verus! {

/// A filled rectangle in whole pixels.
#[derive(Clone, Copy, Debug, PartialEq, Eq, Hash, Structural)]
pub struct Rectangle {
    pub x: i32,
    pub y: i32,
    pub w: u32,
    pub h: u32,
    pub color: Color,
}

/// The drawing capability that text is rendered through. Drawing is taken
/// to succeed: the methods return nothing.
///
/// A renderer may keep a record of the rectangles and the glyphs that it
/// was given, and say so by `obeys_record`. Of such a renderer the functions
/// of this library state exactly what they hand over. A renderer that
/// defines none of the three promises nothing and is promised nothing.
pub trait Renderer {
    /// True when `rectangles` and `glyphs` are the record of what the
    /// renderer was given.
    open spec fn obeys_record() -> bool {
        false
    }

    /// The rectangles that the renderer was given, oldest first.
    open spec fn rectangles(&self) -> Seq<Rectangle> {
        Seq::empty()
    }

    /// The glyphs that the renderer was given, with their colours, oldest
    /// first.
    open spec fn glyphs(&self) -> Seq<(PhysicalGlyph, Color)> {
        Seq::empty()
    }

    /// Draws a rectangle at `x`, `y` of size `w` by `h`.
    fn rectangle(&mut self, x: i32, y: i32, w: u32, h: u32, color: Color)
        ensures
            Self::obeys_record() ==> final(self).rectangles() == old(self).rectangles().push(
                (Rectangle { x, y, w, h, color }),
            ),
            Self::obeys_record() ==> final(self).glyphs() == old(self).glyphs(),
    ;

    /// Draws a glyph.
    fn glyph(&mut self, physical_glyph: PhysicalGlyph, color: Color)
        ensures
            Self::obeys_record() ==> final(self).rectangles() == old(self).rectangles(),
            Self::obeys_record() ==> final(self).glyphs() == old(self).glyphs().push(
                (physical_glyph, color),
            ),
    ;
}

/// A renderer that draws nothing and keeps what it is given, in order.
#[derive(Clone, Debug)]
pub struct DisplayList {
    /// The rectangles, oldest first.
    pub rectangles: Vec<Rectangle>,
    /// The glyphs with their colours, oldest first.
    pub glyphs: Vec<(PhysicalGlyph, Color)>,
}

impl DisplayList {
    /// A list without entries.
    pub fn new() -> (list: Self)
        ensures
            list.rectangles@ == Seq::<Rectangle>::empty(),
            list.glyphs@ == Seq::<(PhysicalGlyph, Color)>::empty(),
    {
        DisplayList { rectangles: Vec::new(), glyphs: Vec::new() }
    }
}

impl Renderer for DisplayList {
    open spec fn obeys_record() -> bool {
        true
    }

    open spec fn rectangles(&self) -> Seq<Rectangle> {
        self.rectangles@
    }

    open spec fn glyphs(&self) -> Seq<(PhysicalGlyph, Color)> {
        self.glyphs@
    }

    fn rectangle(&mut self, x: i32, y: i32, w: u32, h: u32, color: Color) {
        self.rectangles.push(Rectangle { x, y, w, h, color });
    }

    fn glyph(&mut self, physical_glyph: PhysicalGlyph, color: Color) {
        self.glyphs.push((physical_glyph, color));
    }
}

/// The colour of a decoration line: its own, else that of the glyph, else
/// the default.
pub open spec fn resolve_color(feature: Option<Color>, glyph: Option<Color>, default: Color) -> Color {
    match feature {
        Some(c) => c,
        None => match glyph {
            Some(c) => c,
            None => default,
        },
    }
}

/// Thickness in pixels of a decoration line: the metric scaled by the font
/// size, at least one pixel, rounded up.
pub open spec fn line_thickness(metrics: DecorationMetrics, font_size: int) -> int {
    let scaled = ceil_div(metrics.thickness * font_size, FINE_UNITS as int);
    clamp_u32(if scaled < 1 { 1 } else { scaled })
}

/// Vertical position, in fine units, of a decoration line that lies
/// `metrics.offset` above the baseline at `line_y` subpixels.
pub open spec fn line_position(metrics: DecorationMetrics, font_size: int, line_y: int) -> int {
    line_y * EM_UNITS - metrics.offset * font_size
}

/// The rectangles of the underline of a group that starts at pixel `x` and
/// is `w` pixels wide: none, one, or two stacked with a gap of their
/// thickness.
pub open spec fn underline_rects(
    deco: GlyphDecorationData,
    glyph_color: Option<Color>,
    x: int,
    w: int,
    line_y: int,
    default_color: Color,
) -> Seq<Rectangle> {
    let color = resolve_color(deco.text_decoration.underline_color_opt, glyph_color, default_color);
    let thickness = line_thickness(deco.underline_metrics, deco.font_size as int);
    let position = line_position(deco.underline_metrics, deco.font_size as int, line_y);
    let upper = Rectangle {
        x: x as i32,
        y: fine_to_pixel(position) as i32,
        w: w as u32,
        h: thickness as u32,
        color,
    };
    let lower = Rectangle {
        x: x as i32,
        y: fine_to_pixel(position + 2 * thickness * FINE_UNITS) as i32,
        w: w as u32,
        h: thickness as u32,
        color,
    };
    match deco.text_decoration.underline {
        UnderlineStyle::Absent => seq![],
        UnderlineStyle::Single => seq![upper],
        UnderlineStyle::Double => seq![upper, lower],
    }
}

/// The rectangle of the strikethrough of a group, if it has one.
pub open spec fn strikethrough_rects(
    deco: GlyphDecorationData,
    glyph_color: Option<Color>,
    x: int,
    w: int,
    line_y: int,
    default_color: Color,
) -> Seq<Rectangle> {
    if deco.text_decoration.strikethrough {
        seq![
            Rectangle {
                x: x as i32,
                y: fine_to_pixel(
                    line_position(deco.strikethrough_metrics, deco.font_size as int, line_y),
                ) as i32,
                w: w as u32,
                h: line_thickness(deco.strikethrough_metrics, deco.font_size as int) as u32,
                color: resolve_color(
                    deco.text_decoration.strikethrough_color_opt,
                    glyph_color,
                    default_color,
                ),
            },
        ]
    } else {
        seq![]
    }
}

/// The rectangle of the overline of a group, if it has one. It is as thick
/// as the underline and lies at the top of the line.
pub open spec fn overline_rects(
    deco: GlyphDecorationData,
    glyph_color: Option<Color>,
    x: int,
    w: int,
    line_top: int,
    default_color: Color,
) -> Seq<Rectangle> {
    if deco.text_decoration.overline {
        seq![
            Rectangle {
                x: x as i32,
                y: fine_to_pixel(line_top * EM_UNITS) as i32,
                w: w as u32,
                h: line_thickness(deco.underline_metrics, deco.font_size as int) as u32,
                color: resolve_color(
                    deco.text_decoration.overline_color_opt,
                    glyph_color,
                    default_color,
                ),
            },
        ]
    } else {
        seq![]
    }
}

/// Left edge in subpixels of a group of glyphs of which `first` and `last`
/// are the outermost in storage order: the lesser of their left edges. The
/// glyphs of a group are stored in the order in which they stand on the
/// line, from the left or from the right, so the outermost glyphs hold the
/// extreme edges.
pub open spec fn group_left(first: LayoutGlyph, last: LayoutGlyph) -> int {
    if first.x <= last.x {
        first.x as int
    } else {
        last.x as int
    }
}

/// Right edge in subpixels of a group of glyphs: the greater of the right
/// edges of its outermost glyphs.
pub open spec fn group_right(first: LayoutGlyph, last: LayoutGlyph) -> int {
    if first.x + first.w >= last.x + last.w {
        first.x + first.w
    } else {
        last.x + last.w
    }
}

/// Width in subpixels of a group of glyphs: from its left edge to its right
/// edge.
pub open spec fn group_width(first: LayoutGlyph, last: LayoutGlyph) -> int {
    group_right(first, last) - group_left(first, last)
}

/// The rectangles that decorate one group of glyphs, of which `first` and
/// `last` are the outermost: underline, then strikethrough, then overline.
/// A group narrower than one pixel gets none.
pub open spec fn group_rects(
    first: LayoutGlyph,
    last: LayoutGlyph,
    line_y: int,
    line_top: int,
    default_color: Color,
) -> Seq<Rectangle> {
    match first.decoration_data {
        None => seq![],
        Some(deco) => {
            let x = subpixel_to_pixel(group_left(first, last));
            let w = subpixel_to_pixel(group_width(first, last));
            if w <= 0 {
                seq![]
            } else {
                underline_rects(deco, first.color_opt, x, w, line_y, default_color)
                    + strikethrough_rects(deco, first.color_opt, x, w, line_y, default_color)
                    + overline_rects(deco, first.color_opt, x, w, line_top, default_color)
            }
        },
    }
}

/// True when a group of equally decorated glyphs starts at index `k`: the
/// glyph there is decorated, and no glyph with the same descriptor stands
/// directly before it.
pub open spec fn starts_group(glyphs: Seq<LayoutGlyph>, k: int) -> bool
    recommends
        0 <= k < glyphs.len(),
{
    glyphs[k].decoration_data is Some && (k == 0 || glyphs[k - 1].decoration_data
        != glyphs[k].decoration_data)
}

/// Index just after the last glyph of the group that starts at `start`,
/// where every glyph from `start` up to `from` is known to belong to it.
pub open spec fn group_end(glyphs: Seq<LayoutGlyph>, start: int, from: int) -> int
    recommends
        0 <= start < from <= glyphs.len(),
    decreases glyphs.len() - from,
{
    if from >= glyphs.len() || glyphs[from].decoration_data != glyphs[start].decoration_data {
        from
    } else {
        group_end(glyphs, start, from + 1)
    }
}

/// The rectangles of the group that starts at `start`.
pub open spec fn group_rects_at(
    glyphs: Seq<LayoutGlyph>,
    start: int,
    line_y: int,
    line_top: int,
    default_color: Color,
) -> Seq<Rectangle>
    recommends
        0 <= start < glyphs.len(),
{
    group_rects(
        glyphs[start],
        glyphs[group_end(glyphs, start, start + 1) - 1],
        line_y,
        line_top,
        default_color,
    )
}

/// The rectangles of all groups that start before index `to`, in glyph
/// order.
pub open spec fn rects_up_to(
    glyphs: Seq<LayoutGlyph>,
    to: int,
    line_y: int,
    line_top: int,
    default_color: Color,
) -> Seq<Rectangle>
    recommends
        0 <= to <= glyphs.len(),
    decreases to,
{
    if to <= 0 {
        seq![]
    } else {
        let before = rects_up_to(glyphs, to - 1, line_y, line_top, default_color);
        if starts_group(glyphs, to - 1) {
            before + group_rects_at(glyphs, to - 1, line_y, line_top, default_color)
        } else {
            before
        }
    }
}

/// The rectangles that decorate a visual line whose glyphs are `glyphs`, in
/// storage order, with the baseline at `line_y` and the top at `line_top`.
pub open spec fn decoration_rects(
    glyphs: Seq<LayoutGlyph>,
    line_y: int,
    line_top: int,
    default_color: Color,
) -> Seq<Rectangle> {
    rects_up_to(glyphs, glyphs.len() as int, line_y, line_top, default_color)
}

/// A group ends where the descriptor changes or the glyphs end.
pub proof fn lemma_group_end(glyphs: Seq<LayoutGlyph>, start: int, from: int, end: int)
    requires
        0 <= start < from <= end <= glyphs.len(),
        forall|k: int| from <= k < end ==> glyphs[k].decoration_data == glyphs[start].decoration_data,
        end == glyphs.len() || glyphs[end].decoration_data != glyphs[start].decoration_data,
    ensures
        group_end(glyphs, start, from) == end,
    decreases end - from,
{
    if from < end {
        lemma_group_end(glyphs, start, from + 1, end);
    }
}

/// Computes [`line_thickness`].
fn thickness_px(metrics: &DecorationMetrics, font_size: i32) -> (r: u32)
    ensures
        r == line_thickness(*metrics, font_size as int),
{
    let scaled: i64 = product(metrics.thickness, font_size);
    if scaled <= FINE_UNITS {
        1
    } else {
        let px: i64 = (scaled - 1) / FINE_UNITS + 1;
        if px > 0xFFFF_FFFF {
            u32::MAX
        } else {
            px as u32
        }
    }
}

/// The product of two 32-bit values, which always fits in 64 bits.
fn product(a: i32, b: i32) -> (r: i64)
    ensures
        r == a * b,
        -0x4000_0000_0000_0000 <= r <= 0x4000_0000_0000_0000,
{
    proof {
        lemma_product_bound(a as int, b as int);
    }
    (a as i64) * (b as i64)
}

proof fn lemma_product_bound(a: int, b: int)
    requires
        -0x8000_0000 <= a <= 0x7FFF_FFFF,
        -0x8000_0000 <= b <= 0x7FFF_FFFF,
    ensures
        -0x4000_0000_0000_0000 <= a * b <= 0x4000_0000_0000_0000,
{
    assert(-0x4000_0000_0000_0000 <= a * b <= 0x4000_0000_0000_0000) by (nonlinear_arith)
        requires
            -0x8000_0000 <= a <= 0x7FFF_FFFF,
            -0x8000_0000 <= b <= 0x7FFF_FFFF,
    ;
}

/// Computes [`line_position`].
fn position_fine(metrics: &DecorationMetrics, font_size: i32, line_y: i64) -> (r: i128)
    ensures
        r == line_position(*metrics, font_size as int, line_y as int),
        -0x1_0000_0000_0000_0000_0000 <= r <= 0x1_0000_0000_0000_0000_0000,
{
    let scaled: i64 = product(metrics.offset, font_size);
    (line_y as i128) * 65536 - (scaled as i128)
}

/// Draws the decoration of one group of glyphs that share a descriptor.
fn draw_decoration_group<R: Renderer>(
    renderer: &mut R,
    run: &LayoutRun,
    glyphs: &[LayoutGlyph],
    default_color: Color,
)
    ensures
        R::obeys_record() ==> final(renderer).rectangles() == old(renderer).rectangles() + (
        if glyphs@.len() == 0 {
            seq![]
        } else {
            group_rects(
                glyphs@[0],
                glyphs@[glyphs@.len() - 1],
                run.line_y as int,
                run.line_top as int,
                default_color,
            )
        }),
        R::obeys_record() ==> final(renderer).glyphs() == old(renderer).glyphs(),
{
    let ghost before = renderer.rectangles();
    assert(before + Seq::<Rectangle>::empty() == before);
    if glyphs.len() == 0 {
        return ;
    }
    let first = &glyphs[0];
    let last = &glyphs[glyphs.len() - 1];

    // All glyphs of a group carry the descriptor of the first.
    let deco = match &first.decoration_data {
        Some(d) => d,
        None => return ,
    };
    let td = &deco.text_decoration;
    let font_size = deco.font_size;

    // The glyphs stand in storage order from the left or from the right:
    // the outermost two hold the extreme edges.
    let left: i32 = if first.x <= last.x {
        first.x
    } else {
        last.x
    };
    let first_right: i64 = (first.x as i64) + (first.w as i64);
    let last_right: i64 = (last.x as i64) + (last.w as i64);
    let right: i64 = if first_right >= last_right {
        first_right
    } else {
        last_right
    };
    let width: i64 = right - (left as i64);
    if width <= 0 {
        return ;
    }
    let w: u32 = (width / 64) as u32;
    if w == 0 {
        return ;
    }
    let x: i32 = subpixel_to_pixel_exec(left);
    let ghost under = underline_rects(
        *deco,
        first.color_opt,
        x as int,
        w as int,
        run.line_y as int,
        default_color,
    );
    let ghost strike = strikethrough_rects(
        *deco,
        first.color_opt,
        x as int,
        w as int,
        run.line_y as int,
        default_color,
    );
    let ghost over = overline_rects(
        *deco,
        first.color_opt,
        x as int,
        w as int,
        run.line_top as int,
        default_color,
    );

    // Underline
    match td.underline {
        UnderlineStyle::Absent => {},
        UnderlineStyle::Single => {
            let color = pick_color(td.underline_color_opt, first.color_opt, default_color);
            let thickness = thickness_px(&deco.underline_metrics, font_size);
            let y = position_fine(&deco.underline_metrics, font_size, run.line_y);
            renderer.rectangle(x, fine_to_pixel_exec(y), w, thickness, color);
        },
        UnderlineStyle::Double => {
            let color = pick_color(td.underline_color_opt, first.color_opt, default_color);
            let thickness = thickness_px(&deco.underline_metrics, font_size);
            let gap = thickness;
            let y = position_fine(&deco.underline_metrics, font_size, run.line_y);
            renderer.rectangle(x, fine_to_pixel_exec(y), w, thickness, color);
            let y_lower: i128 = y + ((thickness as i128) + (gap as i128)) * 4194304;
            renderer.rectangle(x, fine_to_pixel_exec(y_lower), w, thickness, color);
        },
    }
    assert(R::obeys_record() ==> renderer.rectangles() =~= before + under);

    // Strikethrough
    if td.strikethrough {
        let color = pick_color(td.strikethrough_color_opt, first.color_opt, default_color);
        let thickness = thickness_px(&deco.strikethrough_metrics, font_size);
        let y = position_fine(&deco.strikethrough_metrics, font_size, run.line_y);
        renderer.rectangle(x, fine_to_pixel_exec(y), w, thickness, color);
    }
    assert(R::obeys_record() ==> renderer.rectangles() =~= before + (under + strike));

    // Overline
    if td.overline {
        let color = pick_color(td.overline_color_opt, first.color_opt, default_color);
        // The overline is as thick as the underline.
        let thickness = thickness_px(&deco.underline_metrics, font_size);
        // The top of the line stands in for the ascent of the glyphs, which
        // a laid-out glyph does not carry.
        let y: i128 = (run.line_top as i128) * 65536;
        renderer.rectangle(x, fine_to_pixel_exec(y), w, thickness, color);
    }
    assert(R::obeys_record() ==> renderer.rectangles() =~= before + (under + strike + over));
}

/// Computes [`resolve_color`].
fn pick_color(feature: Option<Color>, glyph: Option<Color>, default: Color) -> (c: Color)
    ensures
        c == resolve_color(feature, glyph, default),
{
    match feature {
        Some(c) => c,
        None => match glyph {
            Some(c) => c,
            None => default,
        },
    }
}

/// Draws the decoration lines (underline, strikethrough, overline) of a
/// visual line: for each group of neighbouring glyphs that share a
/// decoration descriptor, the rectangles of that group. Nothing else is
/// drawn, and no glyph.
pub fn render_decoration<R: Renderer>(renderer: &mut R, run: &LayoutRun, default_color: Color)
    ensures
        R::obeys_record() ==> final(renderer).rectangles() == old(renderer).rectangles()
            + decoration_rects(
            run.glyphs@,
            run.line_y as int,
            run.line_top as int,
            default_color,
        ),
        R::obeys_record() ==> final(renderer).glyphs() == old(renderer).glyphs(),
{
    let glyphs = run.glyphs;
    let n = glyphs.len();
    let ghost line_y = run.line_y as int;
    let ghost line_top = run.line_top as int;
    let ghost before = renderer.rectangles();
    // What has been drawn so far.
    let ghost mut drawn = Seq::<Rectangle>::empty();
    assert(before + drawn == before);
    if n == 0 {
        return ;
    }
    let mut group_start: Option<usize> = None;
    let mut i: usize = 0;
    while i < n
        invariant
            glyphs == run.glyphs,
            n == glyphs@.len(),
            line_y == run.line_y as int,
            line_top == run.line_top as int,
            i <= n,
            R::obeys_record() ==> renderer.rectangles() == before + drawn,
            R::obeys_record() ==> renderer.glyphs() == old(renderer).glyphs(),
            match group_start {
                None => {
                    &&& i > 0 ==> glyphs@[i - 1].decoration_data is None
                    &&& drawn == rects_up_to(glyphs@, i as int, line_y, line_top, default_color)
                },
                Some(gs) => {
                    &&& gs < i
                    &&& starts_group(glyphs@, gs as int)
                    &&& forall|k: int|
                        gs < k < i ==> glyphs@[k].decoration_data == glyphs@[gs as int].decoration_data
                    &&& drawn == rects_up_to(glyphs@, gs as int, line_y, line_top, default_color)
                    &&& rects_up_to(glyphs@, i as int, line_y, line_top, default_color)
                        == rects_up_to(glyphs@, gs as int, line_y, line_top, default_color)
                        + group_rects_at(glyphs@, gs as int, line_y, line_top, default_color)
                },
            },
        decreases n - i,
    {
        let glyph = &glyphs[i];
        let start_new_group = match group_start {
            None => true,
            Some(_) => {
                let prev = &glyphs[i - 1];
                glyph.decoration_data != prev.decoration_data
            },
        };
        if start_new_group {
            if let Some(gs) = group_start {
                let ghost group = group_rects_at(
                    glyphs@,
                    gs as int,
                    line_y,
                    line_top,
                    default_color,
                );
                proof {
                    lemma_group_end(glyphs@, gs as int, gs as int + 1, i as int);
                }
                draw_decoration_group(
                    renderer,
                    run,
                    vstd::slice::slice_subrange(glyphs, gs, i),
                    default_color,
                );
                proof {
                    assert((before + drawn) + group == before + (drawn + group));
                    drawn = drawn + group;
                }
            }
            group_start = if glyph.decoration_data.is_some() {
                Some(i)
            } else {
                None
            };
        }
        i += 1;
    }
    if let Some(gs) = group_start {
        let ghost group = group_rects_at(glyphs@, gs as int, line_y, line_top, default_color);
        proof {
            lemma_group_end(glyphs@, gs as int, gs as int + 1, n as int);
        }
        draw_decoration_group(
            renderer,
            run,
            vstd::slice::slice_subrange(glyphs, gs, n),
            default_color,
        );
        proof {
            assert((before + drawn) + group == before + (drawn + group));
            drawn = drawn + group;
        }
    }
}

} // verus!
