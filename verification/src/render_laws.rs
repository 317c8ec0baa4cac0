//! What holds of the decoration rectangles of every visual line.
use vstd::prelude::*;
use crate::attrs::{Color, GlyphDecorationData, TextDecoration, UnderlineStyle};
use crate::layout::LayoutGlyph;
use crate::render::{
    decoration_rects, group_end, group_left, group_rects, group_right, group_width,
    lemma_group_end, line_position, line_thickness, rects_up_to, resolve_color, starts_group,
    underline_rects, Rectangle,
};
use crate::units::{fine_to_pixel, subpixel_to_pixel, trunc_div, EM_UNITS, FINE_UNITS};

verus! {

/// The number of rectangles that a decoration asks for: one for each
/// enabled line, two for a double underline.
pub open spec fn feature_count(decoration: TextDecoration) -> nat {
    let underline: nat = match decoration.underline {
        UnderlineStyle::Absent => 0,
        UnderlineStyle::Single => 1,
        UnderlineStyle::Double => 2,
    };
    let strikethrough: nat = if decoration.strikethrough { 1 } else { 0 };
    let overline: nat = if decoration.overline { 1 } else { 0 };
    underline + strikethrough + overline
}

/// True when all glyphs carry the decoration descriptor of the first.
pub open spec fn uniform(glyphs: Seq<LayoutGlyph>) -> bool {
    forall|k: int|
        0 <= k < glyphs.len() ==> (#[trigger] glyphs[k]).decoration_data
            == glyphs[0].decoration_data
}

/// Smallest left edge among the glyphs from index `from` on.
pub open spec fn min_left(glyphs: Seq<LayoutGlyph>, from: int) -> int
    recommends
        0 <= from < glyphs.len(),
    decreases glyphs.len() - from,
{
    if from + 1 >= glyphs.len() {
        glyphs[from].x as int
    } else {
        let rest = min_left(glyphs, from + 1);
        if glyphs[from].x <= rest {
            glyphs[from].x as int
        } else {
            rest
        }
    }
}

/// Largest right edge among the glyphs from index `from` on.
pub open spec fn max_right(glyphs: Seq<LayoutGlyph>, from: int) -> int
    recommends
        0 <= from < glyphs.len(),
    decreases glyphs.len() - from,
{
    if from + 1 >= glyphs.len() {
        glyphs[from].x + glyphs[from].w
    } else {
        let rest = max_right(glyphs, from + 1);
        if glyphs[from].x + glyphs[from].w >= rest {
            glyphs[from].x + glyphs[from].w
        } else {
            rest
        }
    }
}

/// Glyphs that share one decoration descriptor form one group: the line is
/// decorated by the rectangles of that single group.
pub proof fn lemma_uniform_glyphs_form_one_group(
    glyphs: Seq<LayoutGlyph>,
    line_y: int,
    line_top: int,
    default_color: Color,
)
    requires
        glyphs.len() > 0,
        uniform(glyphs),
    ensures
        decoration_rects(glyphs, line_y, line_top, default_color) == group_rects(
            glyphs[0],
            glyphs[glyphs.len() - 1],
            line_y,
            line_top,
            default_color,
        ),
{
    let n = glyphs.len() as int;
    if glyphs[0].decoration_data is Some {
        lemma_group_end(glyphs, 0, 1, n);
        assert(rects_up_to(glyphs, 0, line_y, line_top, default_color) == Seq::<Rectangle>::empty());
        lemma_no_group_starts(glyphs, 1, n, line_y, line_top, default_color);
    } else {
        lemma_no_group_starts(glyphs, 0, n, line_y, line_top, default_color);
    }
}

/// Where no group starts between `from` and `to`, no rectangle is added.
proof fn lemma_no_group_starts(
    glyphs: Seq<LayoutGlyph>,
    from: int,
    to: int,
    line_y: int,
    line_top: int,
    default_color: Color,
)
    requires
        0 <= from <= to <= glyphs.len(),
        forall|k: int| from <= k < to ==> !starts_group(glyphs, k),
    ensures
        rects_up_to(glyphs, to, line_y, line_top, default_color) == rects_up_to(
            glyphs,
            from,
            line_y,
            line_top,
            default_color,
        ),
    decreases to - from,
{
    if from < to {
        lemma_no_group_starts(glyphs, from, to - 1, line_y, line_top, default_color);
    }
}

/// A group that is at least one pixel wide gets exactly one rectangle for
/// each enabled decoration line, and two for a double underline; a
/// narrower group gets none.
pub proof fn lemma_one_rectangle_per_feature(
    first: LayoutGlyph,
    last: LayoutGlyph,
    line_y: int,
    line_top: int,
    default_color: Color,
)
    requires
        first.decoration_data is Some,
    ensures
        group_rects(first, last, line_y, line_top, default_color).len() == (if subpixel_to_pixel(
            group_width(first, last),
        ) > 0 {
            feature_count(first.decoration_data->0.text_decoration)
        } else {
            0
        }),
{
}

/// The group that starts before the end of `left` ends in `left + right`
/// where it ends in `left`, if the descriptor changes between the two.
proof fn lemma_group_end_in_prefix(
    left: Seq<LayoutGlyph>,
    right: Seq<LayoutGlyph>,
    start: int,
    from: int,
)
    requires
        0 <= start < from <= left.len(),
        right.len() > 0,
        left[left.len() - 1].decoration_data != right[0].decoration_data,
        forall|k: int| start <= k < from ==> left[k].decoration_data == left[start].decoration_data,
    ensures
        group_end(left + right, start, from) == group_end(left, start, from),
    decreases left.len() - from,
{
    if from < left.len() {
        if left[from].decoration_data == left[start].decoration_data {
            lemma_group_end_in_prefix(left, right, start, from + 1);
        }
    }
}

/// A group of `right` ends in `left + right` at the same glyph.
proof fn lemma_group_end_in_suffix(
    left: Seq<LayoutGlyph>,
    right: Seq<LayoutGlyph>,
    start: int,
    from: int,
)
    requires
        0 <= start < from <= right.len(),
    ensures
        group_end(left + right, left.len() + start, left.len() + from) == left.len() + group_end(
            right,
            start,
            from,
        ),
    decreases right.len() - from,
{
    if from < right.len() {
        if right[from].decoration_data == right[start].decoration_data {
            lemma_group_end_in_suffix(left, right, start, from + 1);
        }
    }
}

/// The end of a group lies after its start and within the glyphs.
proof fn lemma_group_end_bounds(glyphs: Seq<LayoutGlyph>, start: int, from: int)
    requires
        0 <= start < from <= glyphs.len(),
    ensures
        from <= group_end(glyphs, start, from) <= glyphs.len(),
    decreases glyphs.len() - from,
{
    if from < glyphs.len() && glyphs[from].decoration_data == glyphs[start].decoration_data {
        lemma_group_end_bounds(glyphs, start, from + 1);
    }
}

proof fn lemma_rects_in_prefix(
    left: Seq<LayoutGlyph>,
    right: Seq<LayoutGlyph>,
    to: int,
    line_y: int,
    line_top: int,
    default_color: Color,
)
    requires
        0 <= to <= left.len(),
        right.len() > 0,
        left.len() > 0,
        left[left.len() - 1].decoration_data != right[0].decoration_data,
    ensures
        rects_up_to(left + right, to, line_y, line_top, default_color) == rects_up_to(
            left,
            to,
            line_y,
            line_top,
            default_color,
        ),
    decreases to,
{
    if to > 0 {
        lemma_rects_in_prefix(left, right, to - 1, line_y, line_top, default_color);
        let k = to - 1;
        lemma_group_end_in_prefix(left, right, k, k + 1);
        lemma_group_end_bounds(left, k, k + 1);
    }
}

proof fn lemma_rects_in_suffix(
    left: Seq<LayoutGlyph>,
    right: Seq<LayoutGlyph>,
    to: int,
    line_y: int,
    line_top: int,
    default_color: Color,
)
    requires
        0 <= to <= right.len(),
        right.len() > 0,
        left.len() > 0,
        left[left.len() - 1].decoration_data != right[0].decoration_data,
    ensures
        rects_up_to(left + right, left.len() + to, line_y, line_top, default_color) == rects_up_to(
            left,
            left.len() as int,
            line_y,
            line_top,
            default_color,
        ) + rects_up_to(right, to, line_y, line_top, default_color),
    decreases to,
{
    let m = left.len() as int;
    if to == 0 {
        lemma_rects_in_prefix(left, right, m, line_y, line_top, default_color);
    } else {
        lemma_rects_in_suffix(left, right, to - 1, line_y, line_top, default_color);
        let k = to - 1;
        lemma_group_end_in_suffix(left, right, k, k + 1);
        lemma_group_end_bounds(right, k, k + 1);
    }
}

/// A change of the decoration descriptor starts a new group: where the
/// last glyph of `left` and the first glyph of `right` differ in any field
/// of their descriptors, the two parts of the line are decorated
/// independently of each other.
pub proof fn lemma_descriptor_change_starts_group(
    left: Seq<LayoutGlyph>,
    right: Seq<LayoutGlyph>,
    line_y: int,
    line_top: int,
    default_color: Color,
)
    requires
        left.len() > 0,
        right.len() > 0,
        left[left.len() - 1].decoration_data != right[0].decoration_data,
    ensures
        decoration_rects(left + right, line_y, line_top, default_color) == decoration_rects(
            left,
            line_y,
            line_top,
            default_color,
        ) + decoration_rects(right, line_y, line_top, default_color),
{
    lemma_rects_in_suffix(left, right, right.len() as int, line_y, line_top, default_color);
}

/// The smallest left edge is no larger than any left edge, and is one of
/// them.
proof fn lemma_min_left(glyphs: Seq<LayoutGlyph>, from: int)
    requires
        0 <= from < glyphs.len(),
    ensures
        forall|k: int| from <= k < glyphs.len() ==> min_left(glyphs, from) <= glyphs[k].x,
        exists|k: int| from <= k < glyphs.len() && min_left(glyphs, from) == glyphs[k].x,
    decreases glyphs.len() - from,
{
    if from + 1 < glyphs.len() {
        lemma_min_left(glyphs, from + 1);
    }
}

/// The largest right edge is no smaller than any right edge, and is one of
/// them.
proof fn lemma_max_right(glyphs: Seq<LayoutGlyph>, from: int)
    requires
        0 <= from < glyphs.len(),
    ensures
        forall|k: int|
            from <= k < glyphs.len() ==> max_right(glyphs, from) >= glyphs[k].x + glyphs[k].w,
        exists|k: int|
            from <= k < glyphs.len() && max_right(glyphs, from) == glyphs[k].x + glyphs[k].w,
    decreases glyphs.len() - from,
{
    if from + 1 < glyphs.len() {
        lemma_max_right(glyphs, from + 1);
    }
}

/// True of glyphs stored from left to right: neither the left edges nor
/// the right edges decrease along the storage order.
pub open spec fn stored_from_left(glyphs: Seq<LayoutGlyph>) -> bool {
    forall|j: int, k: int|
        0 <= j <= k < glyphs.len() ==> (#[trigger] glyphs[j]).x <= (#[trigger] glyphs[k]).x
            && glyphs[j].x + glyphs[j].w <= glyphs[k].x + glyphs[k].w
}

/// True of glyphs stored from right to left: neither the left edges nor
/// the right edges increase along the storage order.
pub open spec fn stored_from_right(glyphs: Seq<LayoutGlyph>) -> bool {
    forall|j: int, k: int|
        0 <= j <= k < glyphs.len() ==> (#[trigger] glyphs[j]).x >= (#[trigger] glyphs[k]).x
            && glyphs[j].x + glyphs[j].w >= glyphs[k].x + glyphs[k].w
}

/// True of glyphs of non-negative width that stand side by side in storage
/// order, each at or beyond the far edge of the one before it, from the
/// left where `from_left` holds and from the right where it does not.
pub open spec fn side_by_side(glyphs: Seq<LayoutGlyph>, from_left: bool) -> bool {
    &&& forall|k: int| 0 <= k < glyphs.len() ==> (#[trigger] glyphs[k]).w >= 0
    &&& forall|j: int, k: int|
        0 <= j < k < glyphs.len() ==> (if from_left {
            (#[trigger] glyphs[j]).x + glyphs[j].w <= (#[trigger] glyphs[k]).x
        } else {
            glyphs[k].x + glyphs[k].w <= glyphs[j].x
        })
}

/// The horizontal extent of a group is that of all its glyphs, whichever
/// way it is stored: where the glyphs are stored monotonically, from the
/// left or from the right, the extent reaches from the smallest left edge
/// to the largest right edge among them.
pub proof fn lemma_group_extent(glyphs: Seq<LayoutGlyph>)
    requires
        glyphs.len() > 0,
        stored_from_left(glyphs) || stored_from_right(glyphs),
    ensures
        group_left(glyphs[0], glyphs[glyphs.len() - 1]) == min_left(glyphs, 0),
        group_right(glyphs[0], glyphs[glyphs.len() - 1]) == max_right(glyphs, 0),
        group_width(glyphs[0], glyphs[glyphs.len() - 1]) == max_right(glyphs, 0) - min_left(
            glyphs,
            0,
        ),
{
    let last = glyphs.len() - 1;
    lemma_min_left(glyphs, 0);
    lemma_max_right(glyphs, 0);
    let a = choose|k: int| 0 <= k < glyphs.len() && min_left(glyphs, 0) == glyphs[k].x;
    let b = choose|k: int| 0 <= k < glyphs.len() && max_right(glyphs, 0) == glyphs[k].x + glyphs[k].w;
    assert(min_left(glyphs, 0) <= glyphs[0].x);
    assert(min_left(glyphs, 0) <= glyphs[last].x);
    assert(max_right(glyphs, 0) >= glyphs[0].x + glyphs[0].w);
    assert(max_right(glyphs, 0) >= glyphs[last].x + glyphs[last].w);
    if stored_from_left(glyphs) {
        assert(glyphs[0].x <= glyphs[a].x);
        assert(glyphs[b].x + glyphs[b].w <= glyphs[last].x + glyphs[last].w);
        assert(glyphs[0].x <= glyphs[last].x);
        assert(glyphs[0].x + glyphs[0].w <= glyphs[last].x + glyphs[last].w);
    } else {
        assert(glyphs[a].x >= glyphs[last].x);
        assert(glyphs[0].x + glyphs[0].w >= glyphs[b].x + glyphs[b].w);
        assert(glyphs[0].x >= glyphs[last].x);
        assert(glyphs[0].x + glyphs[0].w >= glyphs[last].x + glyphs[last].w);
    }
}

/// Glyphs of non-negative width that stand side by side, stored from the
/// left or from the right, are stored monotonically; so the extent of
/// their group reaches from the smallest left edge to the largest right
/// edge among them.
pub proof fn lemma_side_by_side_extent(glyphs: Seq<LayoutGlyph>, from_left: bool)
    requires
        glyphs.len() > 0,
        side_by_side(glyphs, from_left),
    ensures
        from_left ==> stored_from_left(glyphs),
        !from_left ==> stored_from_right(glyphs),
        group_left(glyphs[0], glyphs[glyphs.len() - 1]) == min_left(glyphs, 0),
        group_right(glyphs[0], glyphs[glyphs.len() - 1]) == max_right(glyphs, 0),
{
    if from_left {
        assert forall|j: int, k: int| 0 <= j <= k < glyphs.len() implies (#[trigger] glyphs[j]).x
            <= (#[trigger] glyphs[k]).x && glyphs[j].x + glyphs[j].w <= glyphs[k].x + glyphs[k].w by {
            if j < k {
                assert(glyphs[j].x + glyphs[j].w <= glyphs[k].x);
            }
        }
    } else {
        assert forall|j: int, k: int| 0 <= j <= k < glyphs.len() implies (#[trigger] glyphs[j]).x
            >= (#[trigger] glyphs[k]).x && glyphs[j].x + glyphs[j].w >= glyphs[k].x + glyphs[k].w by {
            if j < k {
                assert(glyphs[k].x + glyphs[k].w <= glyphs[j].x);
            }
        }
    }
    lemma_group_extent(glyphs);
}

/// The extent of a group does not depend on the direction of storage: the
/// outermost glyphs give the same extent in either order.
pub proof fn lemma_group_extent_symmetric(first: LayoutGlyph, last: LayoutGlyph)
    ensures
        group_left(first, last) == group_left(last, first),
        group_right(first, last) == group_right(last, first),
        group_width(first, last) == group_width(last, first),
{
}

/// A group with a single underline, a strikethrough and an overline gets
/// three rectangles, in that order, each with the thickness, position and
/// colour of its own line: the underline and the strikethrough lie their
/// offsets above the baseline, the overline lies at the top of the line and
/// is as thick as the underline.
pub proof fn lemma_combined_decoration(
    first: LayoutGlyph,
    last: LayoutGlyph,
    line_y: int,
    line_top: int,
    default_color: Color,
)
    requires
        first.decoration_data is Some,
        first.decoration_data->0.text_decoration.underline == UnderlineStyle::Single,
        first.decoration_data->0.text_decoration.strikethrough,
        first.decoration_data->0.text_decoration.overline,
        subpixel_to_pixel(group_width(first, last)) > 0,
    ensures
        ({
            let deco = first.decoration_data->0;
            let size = deco.font_size as int;
            let rects = group_rects(first, last, line_y, line_top, default_color);
            let x = subpixel_to_pixel(group_left(first, last)) as i32;
            let w = subpixel_to_pixel(group_width(first, last)) as u32;
            &&& rects.len() == 3
            &&& rects[0] == (Rectangle {
                x,
                y: fine_to_pixel(line_y * EM_UNITS - deco.underline_metrics.offset * size) as i32,
                w,
                h: line_thickness(deco.underline_metrics, size) as u32,
                color: resolve_color(
                    deco.text_decoration.underline_color_opt,
                    first.color_opt,
                    default_color,
                ),
            })
            &&& rects[1] == (Rectangle {
                x,
                y: fine_to_pixel(line_y * EM_UNITS - deco.strikethrough_metrics.offset * size) as i32,
                w,
                h: line_thickness(deco.strikethrough_metrics, size) as u32,
                color: resolve_color(
                    deco.text_decoration.strikethrough_color_opt,
                    first.color_opt,
                    default_color,
                ),
            })
            &&& rects[2] == (Rectangle {
                x,
                y: fine_to_pixel(line_top * EM_UNITS) as i32,
                w,
                h: line_thickness(deco.underline_metrics, size) as u32,
                color: resolve_color(
                    deco.text_decoration.overline_color_opt,
                    first.color_opt,
                    default_color,
                ),
            })
        }),
{
}

/// True when adding whole pixels to the position `v`, in fine units, adds
/// as many to its pixel: `v` does not change sign on the way unless it lies
/// on a pixel boundary, and both pixels fit in `i32`.
pub open spec fn shifts_by_whole_pixels(v: int, pixels: int) -> bool {
    let moved = v + pixels * FINE_UNITS;
    &&& !(v < 0 < moved) || v % (FINE_UNITS as int) == 0
    &&& i32::MIN <= trunc_div(v, FINE_UNITS as int) <= i32::MAX
    &&& i32::MIN <= trunc_div(moved, FINE_UNITS as int) <= i32::MAX
}

/// A double underline is two rectangles of the same extent, thickness and
/// colour, the second below the first with a gap equal to their thickness.
pub proof fn lemma_double_underline_gap(
    deco: GlyphDecorationData,
    glyph_color: Option<Color>,
    x: int,
    w: int,
    line_y: int,
    default_color: Color,
)
    requires
        deco.text_decoration.underline == UnderlineStyle::Double,
        shifts_by_whole_pixels(
            line_position(deco.underline_metrics, deco.font_size as int, line_y),
            2 * line_thickness(deco.underline_metrics, deco.font_size as int),
        ),
    ensures
        ({
            let rects = underline_rects(deco, glyph_color, x, w, line_y, default_color);
            &&& rects.len() == 2
            &&& rects[1].x == rects[0].x
            &&& rects[1].w == rects[0].w
            &&& rects[1].h == rects[0].h
            &&& rects[1].color == rects[0].color
            &&& rects[1].y == rects[0].y + rects[0].h + rects[0].h
        }),
{
}

} // verus!
