//! The line height of a visual line that its text asks for.
//!
//! A span may carry metrics of its own. A visual line with glyphs from such
//! spans is as high as the highest of them asks; a visual line without
//! glyphs is as high as the defaults of its paragraph ask. A visual line
//! whose text asks for nothing has no line height of its own.
use vstd::prelude::*;
use crate::attrs_list::AttrsList;
use crate::layout::{LayoutGlyph, LayoutLine};

verus! {

/// The line height that the span of a glyph asks for, if it asks for one.
/// A glyph belongs to the span that covers its first byte.
pub open spec fn glyph_line_height(attrs_list: AttrsList, glyph: LayoutGlyph) -> Option<i32> {
    match attrs_list.spec_get_span(glyph.start as int).metrics_opt {
        Some(metrics) => Some(metrics.line_height),
        None => None,
    }
}

/// The larger of two line heights, where absence is smaller than any.
pub open spec fn larger(a: Option<i32>, b: Option<i32>) -> Option<i32> {
    match (a, b) {
        (Some(x), Some(y)) => if x >= y {
            Some(x)
        } else {
            Some(y)
        },
        (Some(x), None) => Some(x),
        (None, other) => other,
    }
}

/// The largest line height that the spans of the given glyphs ask for.
pub open spec fn tallest(attrs_list: AttrsList, glyphs: Seq<LayoutGlyph>) -> Option<i32>
    decreases glyphs.len(),
{
    if glyphs.len() == 0 {
        None
    } else {
        larger(tallest(attrs_list, glyphs.drop_last()), glyph_line_height(attrs_list, glyphs.last()))
    }
}

/// The line height of a visual line with the given glyphs in a paragraph
/// with the given spans.
pub open spec fn line_height_override(attrs_list: AttrsList, glyphs: Seq<LayoutGlyph>) -> Option<
    i32,
> {
    if glyphs.len() == 0 {
        match attrs_list.spec_defaults().metrics_opt {
            Some(metrics) => Some(metrics.line_height),
            None => None,
        }
    } else {
        tallest(attrs_list, glyphs)
    }
}

/// The visual line `line` with the line height that its text asks for.
pub open spec fn with_line_height(attrs_list: AttrsList, line: LayoutLine) -> LayoutLine {
    LayoutLine { line_height_opt: line_height_override(attrs_list, line.glyphs@), ..line }
}

/// True when `lines` are the visual lines `wrapped`, each with the line
/// height that its text asks for.
pub open spec fn heights_assigned(
    attrs_list: AttrsList,
    wrapped: Seq<LayoutLine>,
    lines: Seq<LayoutLine>,
) -> bool {
    &&& lines.len() == wrapped.len()
    &&& forall|k: int|
        0 <= k < wrapped.len() ==> #[trigger] lines[k] == with_line_height(attrs_list, wrapped[k])
}

/// A visual line is at least as high as any of its glyphs asks: where the
/// span of one of its glyphs carries a line height, the line has a line
/// height of its own, and it is no smaller.
pub proof fn lemma_tallest_covers(attrs_list: AttrsList, glyphs: Seq<LayoutGlyph>, k: int)
    requires
        0 <= k < glyphs.len(),
        glyph_line_height(attrs_list, glyphs[k]) is Some,
    ensures
        line_height_override(attrs_list, glyphs) is Some,
        line_height_override(attrs_list, glyphs)->0 >= glyph_line_height(attrs_list, glyphs[k])->0,
    decreases glyphs.len(),
{
    if k < glyphs.len() - 1 {
        let rest = glyphs.drop_last();
        lemma_tallest_covers(attrs_list, rest, k);
    }
}

/// The line height of a visual line with glyphs is one that the span of
/// one of its glyphs asks for.
pub proof fn lemma_tallest_is_asked_for(attrs_list: AttrsList, glyphs: Seq<LayoutGlyph>) -> (k: int)
    requires
        tallest(attrs_list, glyphs) is Some,
    ensures
        0 <= k < glyphs.len(),
        glyph_line_height(attrs_list, glyphs[k]) == tallest(attrs_list, glyphs),
    decreases glyphs.len(),
{
    if glyph_line_height(attrs_list, glyphs.last()) == tallest(attrs_list, glyphs) {
        glyphs.len() - 1
    } else {
        lemma_tallest_is_asked_for(attrs_list, glyphs.drop_last())
    }
}

/// A visual line with glyphs, none of which belongs to a span that carries
/// a line height, has no line height of its own.
pub proof fn lemma_plain_line_has_no_override(attrs_list: AttrsList, glyphs: Seq<LayoutGlyph>)
    requires
        glyphs.len() > 0,
        forall|k: int|
            0 <= k < glyphs.len() ==> glyph_line_height(attrs_list, #[trigger] glyphs[k]) is None,
    ensures
        line_height_override(attrs_list, glyphs) is None,
{
    if tallest(attrs_list, glyphs) is Some {
        lemma_tallest_is_asked_for(attrs_list, glyphs);
    }
}

/// Where the heights are assigned, each visual line is as its wrapping left
/// it but for its line height, which is the one that its text asks for: the
/// largest that the spans of its glyphs carry, and for a line without
/// glyphs the one that the defaults of the paragraph carry, not the default
/// of the whole text.
pub proof fn lemma_assigned_height(
    attrs_list: AttrsList,
    wrapped: Seq<LayoutLine>,
    lines: Seq<LayoutLine>,
    k: int,
)
    requires
        heights_assigned(attrs_list, wrapped, lines),
        0 <= k < lines.len(),
    ensures
        lines[k].glyphs == wrapped[k].glyphs,
        lines[k].line_height_opt == line_height_override(attrs_list, lines[k].glyphs@),
        lines[k].glyphs@.len() == 0 ==> lines[k].line_height_opt == (
        match attrs_list.spec_defaults().metrics_opt {
            Some(metrics) => Some(metrics.line_height),
            None => None,
        }),
        lines[k].glyphs@.len() > 0 ==> lines[k].line_height_opt == tallest(
            attrs_list,
            lines[k].glyphs@,
        ),
{
    assert(lines[k] == with_line_height(attrs_list, wrapped[k]));
}

/// Computes [`line_height_override`].
pub fn resolve_line_height(attrs_list: &AttrsList, glyphs: &[LayoutGlyph]) -> (height: Option<i32>)
    requires
        attrs_list.wf(),
    ensures
        height == line_height_override(*attrs_list, glyphs@),
{
    let n = glyphs.len();
    if n == 0 {
        return match attrs_list.defaults().metrics_opt {
            Some(metrics) => Some(metrics.line_height),
            None => None,
        };
    }
    let mut height: Option<i32> = None;
    let mut k: usize = 0;
    while k < n
        invariant
            n == glyphs@.len(),
            k <= n,
            attrs_list.wf(),
            height == tallest(*attrs_list, glyphs@.subrange(0, k as int)),
        decreases n - k,
    {
        let glyph = &glyphs[k];
        proof {
            assert(glyphs@.subrange(0, k as int + 1).drop_last() == glyphs@.subrange(0, k as int));
        }
        if let Some(metrics) = attrs_list.get_span(glyph.start).metrics_opt {
            height = match height {
                Some(held) => if held >= metrics.line_height {
                    Some(held)
                } else {
                    Some(metrics.line_height)
                },
                None => Some(metrics.line_height),
            };
        }
        k += 1;
    }
    proof {
        assert(glyphs@.subrange(0, n as int) == glyphs@);
    }
    height
}

/// Gives each visual line the line height that its text asks for.
pub fn assign_line_heights(lines: &mut Vec<LayoutLine>, attrs_list: &AttrsList)
    requires
        attrs_list.wf(),
    ensures
        final(lines)@.len() == old(lines)@.len(),
        forall|k: int|
            0 <= k < old(lines)@.len() ==> #[trigger] final(lines)@[k] == with_line_height(
                *attrs_list,
                old(lines)@[k],
            ),
{
    let n = lines.len();
    let mut k: usize = 0;
    while k < n
        invariant
            n == lines@.len(),
            n == old(lines)@.len(),
            k <= n,
            attrs_list.wf(),
            forall|j: int|
                0 <= j < k ==> #[trigger] lines@[j] == with_line_height(
                    *attrs_list,
                    old(lines)@[j],
                ),
            forall|j: int| k <= j < n ==> #[trigger] lines@[j] == old(lines)@[j],
        decreases n - k,
    {
        let height = resolve_line_height(attrs_list, lines[k].glyphs.as_slice());
        lines[k].line_height_opt = height;
        k += 1;
    }
}

} // verus!
