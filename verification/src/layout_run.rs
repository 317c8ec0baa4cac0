//! The visible runs that a renderer draws, extracted from laid-out lines.
use vstd::prelude::*;
use crate::buffer_line::BufferLine;
use crate::cursor::{Affinity, Cursor};
use crate::layout::{DecorationSpan, LayoutGlyph, LayoutLine};
use crate::layout_run_laws::{
    in_viewport, lemma_remaining_bounded, lemma_runs_bounded,
    lemma_visual_count_from_nonnegative, lemma_walk_progress,
};
use crate::units::{advance_position, clamp_position, half, half_exec, POSITION_LIMIT};

verus! {

/// A visual line as a renderer sees it. Horizontal sizes and vertical
/// positions are in subpixels, the latter from the top of the viewport.
#[derive(Debug)]
pub struct LayoutRun<'a> {
    /// Index of the paragraph that the line belongs to.
    pub line_i: usize,
    /// Text of that paragraph.
    pub text: &'a str,
    /// True when the paragraph direction is right to left.
    pub rtl: bool,
    /// The glyphs to draw, in the order in which they stand on the line,
    /// from the left or from the right.
    pub glyphs: &'a [LayoutGlyph],
    /// The decorated glyph ranges.
    pub decorations: &'a [DecorationSpan],
    /// Vertical position of the baseline.
    pub line_y: i64,
    /// Vertical position of the top of the line.
    pub line_top: i64,
    /// Distance to the next line.
    pub line_height: i32,
    /// Width of the line.
    pub line_w: i32,
}

/// What a run holds, with the borrowed parts by their content.
pub struct LayoutRunView {
    pub line_i: usize,
    pub text: Seq<char>,
    pub rtl: bool,
    pub glyphs: Seq<LayoutGlyph>,
    pub decorations: Seq<DecorationSpan>,
    pub line_y: i64,
    pub line_top: i64,
    pub line_height: i32,
    pub line_w: i32,
}

impl<'a> View for LayoutRun<'a> {
    type V = LayoutRunView;

    open spec fn view(&self) -> LayoutRunView {
        LayoutRunView {
            line_i: self.line_i,
            text: self.text@,
            rtl: self.rtl,
            glyphs: self.glyphs@,
            decorations: self.decorations@,
            line_y: self.line_y,
            line_top: self.line_top,
            line_height: self.line_height,
            line_w: self.line_w,
        }
    }
}

/// The cursor at the edge of a glyph that is written `left`: the start of
/// the glyph in a left-to-right paragraph, its end in a right-to-left one.
pub open spec fn left_cursor(rtl: bool, line_i: usize, glyph: LayoutGlyph) -> Cursor {
    if rtl {
        Cursor { line: line_i, index: glyph.end, affinity: Affinity::Before }
    } else {
        Cursor { line: line_i, index: glyph.start, affinity: Affinity::After }
    }
}

/// The cursor at the other edge of a glyph.
pub open spec fn right_cursor(rtl: bool, line_i: usize, glyph: LayoutGlyph) -> Cursor {
    if rtl {
        Cursor { line: line_i, index: glyph.start, affinity: Affinity::After }
    } else {
        Cursor { line: line_i, index: glyph.end, affinity: Affinity::Before }
    }
}

/// Horizontal position that stands for the left cursor of a glyph.
pub open spec fn left_x(rtl: bool, glyph: LayoutGlyph) -> int {
    if rtl {
        glyph.x + glyph.w
    } else {
        glyph.x as int
    }
}

/// Horizontal position that stands for the right cursor of a glyph.
pub open spec fn right_x(rtl: bool, glyph: LayoutGlyph) -> int {
    if rtl {
        glyph.x as int
    } else {
        glyph.x + glyph.w
    }
}

/// The positions of those cursors of one glyph that lie between `start` and
/// `end`: that of the left cursor, then that of the right cursor.
pub open spec fn glyph_hits(
    rtl: bool,
    line_i: usize,
    glyph: LayoutGlyph,
    start: Cursor,
    end: Cursor,
) -> Seq<int> {
    let left: Seq<int> = if left_cursor(rtl, line_i, glyph).spec_within(start, end) {
        seq![left_x(rtl, glyph)]
    } else {
        seq![]
    };
    let right: Seq<int> = if right_cursor(rtl, line_i, glyph).spec_within(start, end) {
        seq![right_x(rtl, glyph)]
    } else {
        seq![]
    };
    left + right
}

/// The positions of the glyph cursors between `start` and `end`, glyph by
/// glyph in storage order.
pub open spec fn edge_hits(
    glyphs: Seq<LayoutGlyph>,
    rtl: bool,
    line_i: usize,
    start: Cursor,
    end: Cursor,
) -> Seq<int>
    decreases glyphs.len(),
{
    if glyphs.len() == 0 {
        seq![]
    } else {
        edge_hits(glyphs.drop_last(), rtl, line_i, start, end) + glyph_hits(
            rtl,
            line_i,
            glyphs.last(),
            start,
            end,
        )
    }
}

/// The span between the first and the last of the given positions: its
/// left edge and its width. Without positions there is no span.
pub open spec fn span_of_hits(hits: Seq<int>) -> Option<(int, int)> {
    if hits.len() == 0 {
        None
    } else if hits.first() < hits.last() {
        Some((hits.first(), hits.last() - hits.first()))
    } else {
        Some((hits.last(), hits.first() - hits.last()))
    }
}

impl LayoutRunView {
    /// The span highlighted between two cursors: see
    /// [`LayoutRun::highlight`].
    pub open spec fn highlight(self, cursor_start: Cursor, cursor_end: Cursor) -> Option<(int, int)> {
        span_of_hits(edge_hits(self.glyphs, self.rtl, self.line_i, cursor_start, cursor_end))
    }
}

impl LayoutRun<'_> {
    /// The horizontal span, as left edge and width in subpixels, of the
    /// area between `cursor_start` and `cursor_end` within this run, or
    /// nothing where no glyph cursor of the run lies between the two. The
    /// span reaches from the first such cursor in storage order to the
    /// last, and has width zero where the two share a position.
    pub fn highlight(&self, cursor_start: Cursor, cursor_end: Cursor) -> (span: Option<(i64, i64)>)
        ensures
            match span {
                Some((x, w)) => self@.highlight(cursor_start, cursor_end) == Some(
                    (x as int, w as int),
                ),
                None => self@.highlight(cursor_start, cursor_end) is None,
            },
    {
        let mut x_start: Option<i64> = None;
        let mut x_end: Option<i64> = None;
        let n = self.glyphs.len();
        let mut k: usize = 0;
        let ghost glyphs = self.glyphs@;
        while k < n
            invariant
                glyphs == self.glyphs@,
                n == glyphs.len(),
                k <= n,
                ({
                    let hits = edge_hits(
                        glyphs.subrange(0, k as int),
                        self.rtl,
                        self.line_i,
                        cursor_start,
                        cursor_end,
                    );
                    if hits.len() == 0 {
                        x_start is None && x_end is None
                    } else {
                        &&& x_start == Some(hits.first() as i64)
                        &&& x_end == Some(hits.last() as i64)
                        &&& -0x1_0000_0000 <= hits.first() <= 0x1_0000_0000
                        &&& -0x1_0000_0000 <= hits.last() <= 0x1_0000_0000
                    }
                }),
            decreases n - k,
        {
            let glyph = &self.glyphs[k];
            proof {
                assert(glyphs.subrange(0, k as int + 1).drop_last() == glyphs.subrange(0, k as int));
            }
            let left: i64 = if self.rtl {
                (glyph.x as i64) + (glyph.w as i64)
            } else {
                glyph.x as i64
            };
            let right: i64 = if self.rtl {
                glyph.x as i64
            } else {
                (glyph.x as i64) + (glyph.w as i64)
            };
            let cursor = self.cursor_from_glyph_left(glyph);
            if cursor.within(cursor_start, cursor_end) {
                if x_start.is_none() {
                    x_start = Some(left);
                }
                x_end = Some(left);
            }
            let cursor = self.cursor_from_glyph_right(glyph);
            if cursor.within(cursor_start, cursor_end) {
                if x_start.is_none() {
                    x_start = Some(right);
                }
                x_end = Some(right);
            }
            k += 1;
        }
        proof {
            assert(glyphs.subrange(0, n as int) == glyphs);
        }
        match x_start {
            None => None,
            Some(x_start) => {
                let x_end = x_end.unwrap();
                let (x_start, x_end) = if x_start < x_end {
                    (x_start, x_end)
                } else {
                    (x_end, x_start)
                };
                Some((x_start, x_end - x_start))
            },
        }
    }

    /// The cursor at the left edge of a glyph of this run.
    pub fn cursor_from_glyph_left(&self, glyph: &LayoutGlyph) -> (cursor: Cursor)
        ensures
            cursor == left_cursor(self.rtl, self.line_i, *glyph),
    {
        if self.rtl {
            Cursor::new_with_affinity(self.line_i, glyph.end, Affinity::Before)
        } else {
            Cursor::new_with_affinity(self.line_i, glyph.start, Affinity::After)
        }
    }

    /// The cursor at the right edge of a glyph of this run.
    pub fn cursor_from_glyph_right(&self, glyph: &LayoutGlyph) -> (cursor: Cursor)
        ensures
            cursor == right_cursor(self.rtl, self.line_i, *glyph),
    {
        if self.rtl {
            Cursor::new_with_affinity(self.line_i, glyph.start, Affinity::After)
        } else {
            Cursor::new_with_affinity(self.line_i, glyph.end, Affinity::Before)
        }
    }
}

/// What steers the extraction of runs: the height of the viewport, if it
/// is bounded, the line height of lines that do not override it, and the
/// vertical scroll offset, all in subpixels.
pub struct RunConfig {
    pub height_opt: Option<i32>,
    pub line_height: i32,
    pub scroll: i32,
}

/// Where the extraction of runs stands: the paragraph and the visual line
/// in it that come next, the accumulated top of that line, and the
/// accumulated height of all lines passed.
pub struct RunState {
    pub line_i: int,
    pub layout_i: int,
    pub line_top: int,
    pub total_height: int,
}

/// The visual lines of a paragraph, if both its shape and its layout are
/// valid.
pub open spec fn visual_lines(line: BufferLine) -> Option<Seq<LayoutLine>> {
    if line@.shape.value() is Some && line@.layout.value() is Some {
        Some(line@.layout.value()->0@)
    } else {
        None
    }
}

/// The height of a visual line: its own, else the default.
pub open spec fn run_height(line: LayoutLine, config: RunConfig) -> int {
    match line.line_height_opt {
        Some(height) => height as int,
        None => config.line_height as int,
    }
}

/// The top of a visual line in the viewport, given its accumulated top.
pub open spec fn run_top(top: int, config: RunConfig) -> int {
    top - config.scroll
}

/// The baseline of a visual line in the viewport: the glyphs, from ascent
/// to descent, are centred in the height of the line.
pub open spec fn run_baseline(line: LayoutLine, top: int, config: RunConfig) -> int {
    run_top(top, config) + half(run_height(line, config) - (line.max_ascent + line.max_descent))
        + line.max_ascent
}

/// True when the glyphs of a visual line start below the viewport.
pub open spec fn below_viewport(line: LayoutLine, top: int, config: RunConfig) -> bool {
    match config.height_opt {
        Some(height) => run_baseline(line, top, config) - line.max_ascent > height,
        None => false,
    }
}

/// True when the glyphs of a visual line end above the viewport.
pub open spec fn above_viewport(line: LayoutLine, top: int, config: RunConfig) -> bool {
    run_baseline(line, top, config) + line.max_descent < 0
}

/// The run of visual line `layout_i` of paragraph `line_i`, whose
/// accumulated top is `top`.
pub open spec fn run_at(
    lines: Seq<BufferLine>,
    config: RunConfig,
    line_i: int,
    layout_i: int,
    top: int,
) -> LayoutRunView
    recommends
        0 <= line_i < lines.len(),
        visual_lines(lines[line_i]) is Some,
        0 <= layout_i < visual_lines(lines[line_i])->0.len(),
{
    let line = lines[line_i];
    let visual = visual_lines(line)->0[layout_i];
    LayoutRunView {
        line_i: line_i as usize,
        text: line@.text,
        rtl: line@.shape.value()->0.rtl,
        glyphs: visual.glyphs@,
        decorations: visual.decorations@,
        line_y: run_baseline(visual, top, config) as i64,
        line_top: run_top(top, config) as i64,
        line_height: run_height(visual, config) as i32,
        line_w: visual.w,
    }
}

/// The state in which nothing is left to extract.
pub open spec fn finished(lines: Seq<BufferLine>, state: RunState) -> RunState {
    RunState { line_i: lines.len() as int, layout_i: 0, ..state }
}

/// The visual lines of the current paragraph that are still to come.
pub open spec fn rest_of_line(lines: Seq<BufferLine>, state: RunState) -> int {
    if 0 <= state.line_i < lines.len() && visual_lines(lines[state.line_i]) is Some
        && state.layout_i < visual_lines(lines[state.line_i])->0.len() {
        visual_lines(lines[state.line_i])->0.len() - state.layout_i
    } else {
        0
    }
}

/// One step of the extraction: the next run, if there is one, and the state
/// after it.
///
/// Paragraphs are taken in order, and in each its visual lines. A visual
/// line is as high as it says, else as the default; its top is the
/// accumulated top less the scroll offset. A paragraph without a valid
/// shape or layout ends the extraction, and so does a visual line whose
/// glyphs start below a bounded viewport. A visual line whose glyphs end
/// above the viewport is passed over, but its height still counts. The
/// accumulated sums saturate at the position limit.
pub open spec fn walk(lines: Seq<BufferLine>, config: RunConfig, state: RunState) -> (
    Option<LayoutRunView>,
    RunState,
)
    decreases lines.len() - state.line_i, rest_of_line(lines, state),
{
    if state.line_i < 0 || state.line_i >= lines.len() || state.layout_i < 0 {
        (None, state)
    } else {
        match visual_lines(lines[state.line_i]) {
            None => (None, finished(lines, state)),
            Some(visual) => {
                if state.layout_i >= visual.len() {
                    walk(
                        lines,
                        config,
                        RunState { line_i: state.line_i + 1, layout_i: 0, ..state },
                    )
                } else {
                    let line = visual[state.layout_i];
                    let height = run_height(line, config);
                    let total_height = clamp_position(state.total_height + height);
                    if below_viewport(line, state.line_top, config) {
                        (None, finished(lines, RunState { total_height, ..state }))
                    } else {
                        let next = RunState {
                            line_i: state.line_i,
                            layout_i: state.layout_i + 1,
                            line_top: clamp_position(state.line_top + height),
                            total_height,
                        };
                        if above_viewport(line, state.line_top, config) {
                            walk(lines, config, next)
                        } else {
                            (
                                Some(
                                    run_at(
                                        lines,
                                        config,
                                        state.line_i,
                                        state.layout_i,
                                        state.line_top,
                                    ),
                                ),
                                next,
                            )
                        }
                    }
                }
            },
        }
    }
}

/// The number of visual lines of a paragraph; none where its shape or its
/// layout is not valid.
pub open spec fn visual_count(line: BufferLine) -> int {
    match visual_lines(line) {
        Some(visual) => visual.len() as int,
        None => 0,
    }
}

/// The number of visual lines of the paragraphs from index `from` on.
pub open spec fn visual_count_from(lines: Seq<BufferLine>, from: int) -> int
    decreases lines.len() - from,
{
    if from < 0 || from >= lines.len() {
        0
    } else {
        visual_count(lines[from]) + visual_count_from(lines, from + 1)
    }
}

/// The number of visual lines of all paragraphs.
pub open spec fn total_visual_lines(lines: Seq<BufferLine>) -> int {
    visual_count_from(lines, 0)
}

/// The number of visual lines that the extraction has not passed yet.
pub open spec fn remaining(lines: Seq<BufferLine>, state: RunState) -> int {
    if state.line_i < 0 || state.line_i >= lines.len() {
        0
    } else {
        rest_of_line(lines, state) + visual_count_from(lines, state.line_i + 1)
    }
}

/// True of a state that the extraction can be in: indices are not
/// negative, sums are within the position limit.
pub open spec fn reachable(state: RunState) -> bool {
    &&& 0 <= state.line_i
    &&& 0 <= state.layout_i
    &&& -POSITION_LIMIT <= state.line_top <= POSITION_LIMIT
    &&& -POSITION_LIMIT <= state.total_height <= POSITION_LIMIT
}

/// True when `state` stands at a visual line: at a paragraph with a valid
/// layout and at one of its visual lines.
pub open spec fn standing(lines: Seq<BufferLine>, state: RunState) -> bool {
    &&& 0 <= state.line_i < lines.len()
    &&& visual_lines(lines[state.line_i]) is Some
    &&& 0 <= state.layout_i < visual_lines(lines[state.line_i])->0.len()
}

/// The visual line at which `state` stands.
pub open spec fn line_at(lines: Seq<BufferLine>, state: RunState) -> LayoutLine
    recommends
        standing(lines, state),
{
    visual_lines(lines[state.line_i])->0[state.layout_i]
}

/// The run of the visual line at which `state` stands.
pub open spec fn run_of(lines: Seq<BufferLine>, config: RunConfig, state: RunState) -> LayoutRunView
    recommends
        standing(lines, state),
{
    run_at(lines, config, state.line_i, state.layout_i, state.line_top)
}

/// The state moved on past paragraphs whose visual lines are used up: it
/// stands at the next visual line, or at a paragraph without a valid layout,
/// or at the end.
pub open spec fn settle(lines: Seq<BufferLine>, state: RunState) -> RunState
    decreases lines.len() - state.line_i,
{
    if state.line_i < 0 || state.line_i >= lines.len() || state.layout_i < 0 {
        state
    } else {
        match visual_lines(lines[state.line_i]) {
            None => state,
            Some(visual) => if state.layout_i >= visual.len() {
                settle(lines, RunState { line_i: state.line_i + 1, layout_i: 0, ..state })
            } else {
                state
            },
        }
    }
}

/// The state after the visual line at which `state` stands: the height of
/// that line is added to the accumulated sums.
pub open spec fn pass(lines: Seq<BufferLine>, config: RunConfig, state: RunState) -> RunState
    recommends
        standing(lines, state),
{
    let height = run_height(line_at(lines, state), config);
    RunState {
        line_i: state.line_i,
        layout_i: state.layout_i + 1,
        line_top: clamp_position(state.line_top + height),
        total_height: clamp_position(state.total_height + height),
    }
}

/// The state at the visual line number `n` in order from `state`, counted
/// from zero, with the top that the lines before it add up to; where there
/// are fewer lines, the state at which they end.
pub open spec fn nth_line(lines: Seq<BufferLine>, config: RunConfig, state: RunState, n: nat) -> RunState
    decreases n,
{
    let here = settle(lines, state);
    if n == 0 || !standing(lines, here) {
        here
    } else {
        nth_line(lines, config, pass(lines, config, here), (n - 1) as nat)
    }
}

/// True when the glyphs of the visual line at which `state` stands start
/// below the viewport.
pub open spec fn below_at(lines: Seq<BufferLine>, config: RunConfig, state: RunState) -> bool {
    below_viewport(line_at(lines, state), state.line_top, config)
}

/// True when the glyphs of the visual line at which `state` stands end
/// above the viewport.
pub open spec fn above_at(lines: Seq<BufferLine>, config: RunConfig, state: RunState) -> bool {
    above_viewport(line_at(lines, state), state.line_top, config)
}

/// All runs that the extraction yields from `state` on, in order.
pub open spec fn runs_from(lines: Seq<BufferLine>, config: RunConfig, state: RunState) -> Seq<
    LayoutRunView,
>
    decreases remaining(lines, state),
{
    let (run, next) = walk(lines, config, state);
    match run {
        Some(run) => if 0 <= remaining(lines, next) < remaining(lines, state) {
            seq![run] + runs_from(lines, config, next)
        } else {
            seq![run]
        },
        None => seq![],
    }
}

/// An iterator of the visible runs of a sequence of paragraphs. It only
/// moves forward; to resume elsewhere, make a new one.
#[derive(Debug)]
pub struct LayoutRunIter<'b> {
    lines: &'b [BufferLine],
    height_opt: Option<i32>,
    line_height: i32,
    scroll: i32,
    line_i: usize,
    layout_i: usize,
    total_height: i64,
    line_top: i64,
}

impl<'b> LayoutRunIter<'b> {
    /// The accumulated sums stay within the position limit.
    #[verifier::type_invariant]
    spec fn within_limits(self) -> bool {
        &&& -POSITION_LIMIT <= self.total_height <= POSITION_LIMIT
        &&& -POSITION_LIMIT <= self.line_top <= POSITION_LIMIT
    }

    /// The paragraphs that the runs are extracted from.
    pub closed spec fn lines(self) -> Seq<BufferLine> {
        self.lines@
    }

    /// What steers the extraction.
    pub closed spec fn config(self) -> RunConfig {
        RunConfig { height_opt: self.height_opt, line_height: self.line_height, scroll: self.scroll }
    }

    /// Where the extraction stands.
    pub closed spec fn state(self) -> RunState {
        RunState {
            line_i: self.line_i as int,
            layout_i: self.layout_i as int,
            line_top: self.line_top as int,
            total_height: self.total_height as int,
        }
    }

    /// An iterator over the runs of `lines` from paragraph `start` on, for a
    /// viewport of height `height_opt` (unbounded where there is none) that
    /// is scrolled down by `scroll`, with `line_height` for lines that do
    /// not override it.
    pub fn new(
        lines: &'b [BufferLine],
        height_opt: Option<i32>,
        line_height: i32,
        scroll: i32,
        start: usize,
    ) -> (iter: Self)
        ensures
            iter.lines() == lines@,
            iter.config() == (RunConfig { height_opt, line_height, scroll }),
            iter.state() == (RunState {
                line_i: start as int,
                layout_i: 0,
                line_top: 0,
                total_height: 0,
            }),
    {
        Self {
            lines,
            height_opt,
            line_height,
            scroll,
            line_i: start,
            layout_i: 0,
            total_height: 0,
            line_top: 0,
        }
    }

    /// The next visible run, if there is one: see [`walk`]. Once the
    /// extraction has ended, it stays ended.
    pub fn next(&mut self) -> (run: Option<LayoutRun<'b>>)
        ensures
            final(self).lines() == old(self).lines(),
            final(self).config() == old(self).config(),
            (
                match run {
                    Some(run) => Some(run@),
                    None => None,
                },
                final(self).state(),
            ) == walk(old(self).lines(), old(self).config(), old(self).state()),
    {
        let lines = self.lines;
        let ghost config = self.config();
        let ghost goal = walk(self.lines(), self.config(), self.state());
        loop
            invariant
                lines == self.lines,
                self.lines() == old(self).lines(),
                self.config() == config,
                config == old(self).config(),
                goal == walk(old(self).lines(), old(self).config(), old(self).state()),
                walk(lines@, config, self.state()) == goal,
            decreases lines@.len() - self.line_i, rest_of_line(lines@, self.state()),
        {
            proof {
                use_type_invariant(&*self);
            }
            if self.line_i >= lines.len() {
                return None;
            }
            let line = &lines[self.line_i];
            let shape = match line.shape_opt() {
                Some(shape) => shape,
                None => {
                    self.line_i = lines.len();
                    self.layout_i = 0;
                    return None;
                },
            };
            let layout = match line.layout_opt() {
                Some(layout) => layout,
                None => {
                    self.line_i = lines.len();
                    self.layout_i = 0;
                    return None;
                },
            };
            if self.layout_i >= layout.len() {
                self.line_i += 1;
                self.layout_i = 0;
                continue ;
            }
            let layout_line = &layout[self.layout_i];
            self.layout_i += 1;

            let line_height = match layout_line.line_height_opt {
                Some(height) => height,
                None => self.line_height,
            };
            self.total_height = advance_position(self.total_height, line_height);

            let line_top: i64 = self.line_top - (self.scroll as i64);
            let glyph_height: i64 = (layout_line.max_ascent as i64) + (layout_line.max_descent as i64);
            let centering_offset = half_exec((line_height as i64) - glyph_height);
            let line_y: i64 = line_top + centering_offset + (layout_line.max_ascent as i64);
            if let Some(height) = self.height_opt {
                if line_y - (layout_line.max_ascent as i64) > (height as i64) {
                    self.line_i = lines.len();
                    self.layout_i = 0;
                    return None;
                }
            }
            self.line_top = advance_position(self.line_top, line_height);
            if line_y + (layout_line.max_descent as i64) < 0 {
                continue ;
            }
            let run = LayoutRun {
                line_i: self.line_i,
                text: line.text(),
                rtl: shape.rtl,
                glyphs: layout_line.glyphs.as_slice(),
                decorations: layout_line.decorations.as_slice(),
                line_y,
                line_top,
                line_height,
                line_w: layout_line.w,
            };
            return Some(run);
        }
    }

    /// All runs that are left, in order. There are no more of them than the
    /// paragraphs have visual lines, and none lies outside the viewport.
    pub fn collect(self) -> (runs: Vec<LayoutRun<'b>>)
        ensures
            runs@.len() == runs_from(self.lines(), self.config(), self.state()).len(),
            forall|k: int|
                0 <= k < runs@.len() ==> (#[trigger] runs@[k])@ == runs_from(
                    self.lines(),
                    self.config(),
                    self.state(),
                )[k],
            runs@.len() <= total_visual_lines(self.lines()),
            forall|k: int|
                0 <= k < runs@.len() ==> in_viewport(
                    self.lines(),
                    self.config(),
                    (#[trigger] runs@[k])@,
                ),
    {
        let mut iter = self;
        let ghost lines = iter.lines();
        let ghost config = iter.config();
        let ghost all = runs_from(lines, config, iter.state());
        let mut runs: Vec<LayoutRun<'b>> = Vec::new();
        if iter.line_i >= iter.lines.len() {
            proof {
                lemma_visual_count_from_nonnegative(lines, 0);
            }
            return runs;
        }
        proof {
            use_type_invariant(&iter);
            lemma_runs_bounded(lines, config, iter.state());
        }
        loop
            invariant_except_break
                iter.lines() == lines,
                iter.config() == config,
                runs@.len() + runs_from(lines, config, iter.state()).len() == all.len(),
                forall|k: int| 0 <= k < runs@.len() ==> (#[trigger] runs@[k])@ == all[k],
                forall|k: int|
                    0 <= k < runs_from(lines, config, iter.state()).len() ==> runs_from(
                        lines,
                        config,
                        iter.state(),
                    )[k] == all[runs@.len() + k],
            ensures
                runs@.len() == all.len(),
                forall|k: int| 0 <= k < runs@.len() ==> (#[trigger] runs@[k])@ == all[k],
            decreases remaining(lines, iter.state()),
        {
            let ghost state = iter.state();
            proof {
                use_type_invariant(&iter);
                lemma_walk_progress(lines, config, state);
                lemma_remaining_bounded(lines, walk(lines, config, state).1);
            }
            match iter.next() {
                Some(run) => {
                    let ghost rest = runs_from(lines, config, iter.state());
                    let ghost held = runs@;
                    proof {
                        assert(all[held.len() as int] == run@) by {
                            assert(runs_from(lines, config, state)[0] == run@);
                        }
                        assert forall|k: int| 0 <= k < rest.len() implies rest[k] == all[held.len()
                            + 1 + k] by {
                            assert(runs_from(lines, config, state)[k + 1] == rest[k]);
                        }
                    }
                    runs.push(run);
                },
                None => {
                    break ;
                },
            }
        }
        runs
    }
}

} // verus!
