//! What holds of every extraction of runs.
use vstd::prelude::*;
use crate::buffer_line::BufferLine;
use crate::layout::LayoutLine;
use crate::layout_run::{
    above_at, above_viewport, below_at, below_viewport, line_at, nth_line, pass, reachable,
    remaining, rest_of_line, run_height, run_of, runs_from, settle, standing, total_visual_lines,
    visual_count_from, visual_lines, walk, LayoutRunView, RunConfig, RunState,
};
use crate::units::{clamp_position, half};

verus! {

/// True when `run` shows the visual line `visual`, and the glyphs of that
/// line neither start below a bounded viewport nor end above the viewport.
pub open spec fn shows_in_viewport(visual: LayoutLine, config: RunConfig, run: LayoutRunView) -> bool {
    &&& run.glyphs == visual.glyphs@
    &&& run.decorations == visual.decorations@
    &&& run.line_w == visual.w
    &&& run.line_height == run_height(visual, config)
    &&& run.line_y == run.line_top + half(
        run.line_height - (visual.max_ascent + visual.max_descent),
    ) + visual.max_ascent
    &&& config.height_opt is Some ==> run.line_y - visual.max_ascent <= config.height_opt->0
    &&& run.line_y + visual.max_descent >= 0
}

/// True when `run` shows a visual line of its paragraph, and the glyphs of
/// that line neither start below a bounded viewport nor end above the
/// viewport.
pub open spec fn in_viewport(lines: Seq<BufferLine>, config: RunConfig, run: LayoutRunView) -> bool {
    &&& run.line_i < lines.len()
    &&& visual_lines(lines[run.line_i as int]) is Some
    &&& exists|layout_i: int|
        0 <= layout_i < visual_lines(lines[run.line_i as int])->0.len() && shows_in_viewport(
            #[trigger] visual_lines(lines[run.line_i as int])->0[layout_i],
            config,
            run,
        )
}

/// No visual line count is negative.
pub proof fn lemma_visual_count_from_nonnegative(lines: Seq<BufferLine>, from: int)
    ensures
        visual_count_from(lines, from) >= 0,
    decreases lines.len() - from,
{
    if 0 <= from < lines.len() {
        lemma_visual_count_from_nonnegative(lines, from + 1);
    }
}

/// Later paragraphs have no more visual lines than all from an earlier one
/// on.
pub proof fn lemma_visual_count_from_monotonic(lines: Seq<BufferLine>, from: int, to: int)
    requires
        0 <= from <= to,
    ensures
        visual_count_from(lines, to) <= visual_count_from(lines, from),
    decreases to - from,
{
    if from < to && from < lines.len() {
        lemma_visual_count_from_monotonic(lines, from + 1, to);
    }
}

/// There are never more visual lines left than there are in all.
pub proof fn lemma_remaining_bounded(lines: Seq<BufferLine>, state: RunState)
    requires
        reachable(state),
    ensures
        0 <= remaining(lines, state) <= total_visual_lines(lines),
{
    lemma_visual_count_from_nonnegative(lines, 0);
    if state.line_i < lines.len() {
        lemma_visual_count_from_nonnegative(lines, state.line_i + 1);
        lemma_visual_count_from_monotonic(lines, 0, state.line_i);
    }
}

/// Every run uses up a visual line: a step never adds to the visual lines
/// that are left, and a step that yields a run takes at least one away. So
/// an extraction yields no more runs than there are visual lines.
pub proof fn lemma_walk_progress(lines: Seq<BufferLine>, config: RunConfig, state: RunState)
    requires
        reachable(state),
    ensures
        reachable(walk(lines, config, state).1),
        remaining(lines, walk(lines, config, state).1) <= remaining(lines, state),
        walk(lines, config, state).0 is Some ==> remaining(lines, walk(lines, config, state).1)
            < remaining(lines, state),
    decreases lines.len() - state.line_i, rest_of_line(lines, state),
{
    if state.line_i < lines.len() {
        lemma_visual_count_from_nonnegative(lines, state.line_i + 1);
        match visual_lines(lines[state.line_i]) {
            None => {},
            Some(visual) => {
                if state.layout_i >= visual.len() {
                    let next = RunState { line_i: state.line_i + 1, layout_i: 0, ..state };
                    lemma_walk_progress(lines, config, next);
                } else {
                    let line = visual[state.layout_i];
                    let height = run_height(line, config);
                    if !below_viewport(line, state.line_top, config) {
                        let next = RunState {
                            line_i: state.line_i,
                            layout_i: state.layout_i + 1,
                            line_top: clamp_position(state.line_top + height),
                            total_height: clamp_position(state.total_height + height),
                        };
                        if above_viewport(line, state.line_top, config) {
                            lemma_walk_progress(lines, config, next);
                        }
                    }
                }
            },
        }
    }
}

/// No run lies outside the viewport: the glyphs of a run that a step
/// yields do not start below a viewport of bounded height, whatever the
/// scroll offset, and do not end above the viewport.
pub proof fn lemma_run_within_viewport(lines: Seq<BufferLine>, config: RunConfig, state: RunState)
    requires
        lines.len() <= usize::MAX,
        reachable(state),
    ensures
        match walk(lines, config, state).0 {
            Some(run) => in_viewport(lines, config, run),
            None => true,
        },
    decreases lines.len() - state.line_i, rest_of_line(lines, state),
{
    if state.line_i < lines.len() {
        match visual_lines(lines[state.line_i]) {
            None => {},
            Some(visual) => {
                if state.layout_i >= visual.len() {
                    let next = RunState { line_i: state.line_i + 1, layout_i: 0, ..state };
                    lemma_run_within_viewport(lines, config, next);
                } else {
                    let line = visual[state.layout_i];
                    let height = run_height(line, config);
                    if !below_viewport(line, state.line_top, config) {
                        let next = RunState {
                            line_i: state.line_i,
                            layout_i: state.layout_i + 1,
                            line_top: clamp_position(state.line_top + height),
                            total_height: clamp_position(state.total_height + height),
                        };
                        if above_viewport(line, state.line_top, config) {
                            lemma_run_within_viewport(lines, config, next);
                        }
                    }
                }
            },
        }
    }
}

/// Once the extraction has ended it stays ended: after a step that yields
/// no run, no step yields one.
pub proof fn lemma_walk_fused(lines: Seq<BufferLine>, config: RunConfig, state: RunState)
    requires
        reachable(state),
        walk(lines, config, state).0 is None,
    ensures
        walk(lines, config, walk(lines, config, state).1) == (
            None::<LayoutRunView>,
            walk(lines, config, state).1,
        ),
    decreases lines.len() - state.line_i, rest_of_line(lines, state),
{
    if state.line_i < lines.len() {
        match visual_lines(lines[state.line_i]) {
            None => {},
            Some(visual) => {
                if state.layout_i >= visual.len() {
                    let next = RunState { line_i: state.line_i + 1, layout_i: 0, ..state };
                    lemma_walk_fused(lines, config, next);
                } else {
                    let line = visual[state.layout_i];
                    let height = run_height(line, config);
                    if !below_viewport(line, state.line_top, config) {
                        let next = RunState {
                            line_i: state.line_i,
                            layout_i: state.layout_i + 1,
                            line_top: clamp_position(state.line_top + height),
                            total_height: clamp_position(state.total_height + height),
                        };
                        lemma_walk_fused(lines, config, next);
                    }
                }
            },
        }
    }
}

/// A state with visual lines left yields its next run first; one without
/// yields nothing more.
pub proof fn lemma_runs_from_unfold(lines: Seq<BufferLine>, config: RunConfig, state: RunState)
    requires
        reachable(state),
    ensures
        runs_from(lines, config, state) == (match walk(lines, config, state).0 {
            Some(run) => seq![run] + runs_from(lines, config, walk(lines, config, state).1),
            None => Seq::<LayoutRunView>::empty(),
        }),
{
    lemma_walk_progress(lines, config, state);
    lemma_remaining_bounded(lines, walk(lines, config, state).1);
}

/// An extraction never yields more runs than the paragraphs have visual
/// lines, and none of its runs lies outside the viewport.
pub proof fn lemma_runs_bounded(lines: Seq<BufferLine>, config: RunConfig, state: RunState)
    requires
        lines.len() <= usize::MAX,
        reachable(state),
    ensures
        runs_from(lines, config, state).len() <= remaining(lines, state),
        runs_from(lines, config, state).len() <= total_visual_lines(lines),
        forall|k: int|
            0 <= k < runs_from(lines, config, state).len() ==> in_viewport(
                lines,
                config,
                #[trigger] runs_from(lines, config, state)[k],
            ),
    decreases remaining(lines, state),
{
    lemma_remaining_bounded(lines, state);
    lemma_walk_progress(lines, config, state);
    lemma_run_within_viewport(lines, config, state);
    let (run, next) = walk(lines, config, state);
    if run is Some {
        lemma_remaining_bounded(lines, next);
        lemma_runs_bounded(lines, config, next);
    }
}

/// The extraction takes the visual lines in order and passes none by: a
/// step goes over the lines whose glyphs end above the viewport, one after
/// the other, and stops at the first line that is not such. It yields the
/// run of that line, unless the glyphs of the line start below the viewport
/// or there is no such line, where it yields nothing. The result is the
/// number, in order from `state`, of the line at which the step stops.
pub proof fn lemma_walk_in_order(lines: Seq<BufferLine>, config: RunConfig, state: RunState) -> (n:
    nat)
    requires
        reachable(state),
    ensures
        forall|m: nat|
            m < n ==> {
                let passed = #[trigger] nth_line(lines, config, state, m);
                standing(lines, passed) && above_at(lines, config, passed) && !below_at(
                    lines,
                    config,
                    passed,
                )
            },
        ({
            let stop = nth_line(lines, config, state, n);
            match walk(lines, config, state).0 {
                Some(run) => {
                    &&& standing(lines, stop)
                    &&& !below_at(lines, config, stop)
                    &&& !above_at(lines, config, stop)
                    &&& run == run_of(lines, config, stop)
                    &&& walk(lines, config, state).1 == pass(lines, config, stop)
                },
                None => !standing(lines, stop) || below_at(lines, config, stop),
            }
        }),
    decreases lines.len() - state.line_i, rest_of_line(lines, state),
{
    if state.line_i >= lines.len() {
        0
    } else {
        match visual_lines(lines[state.line_i]) {
            None => 0,
            Some(visual) => {
                if state.layout_i >= visual.len() {
                    let next = RunState { line_i: state.line_i + 1, layout_i: 0, ..state };
                    let n = lemma_walk_in_order(lines, config, next);
                    assert(settle(lines, state) == settle(lines, next));
                    assert forall|m: nat| nth_line(lines, config, state, m) == nth_line(
                        lines,
                        config,
                        next,
                        m,
                    ) by {
                        lemma_nth_line_from_settled(lines, config, state, next, m);
                    }
                    n
                } else {
                    assert(settle(lines, state) == state);
                    if below_viewport(visual[state.layout_i], state.line_top, config) {
                        0
                    } else if above_viewport(visual[state.layout_i], state.line_top, config) {
                        let next = pass(lines, config, state);
                        let n = lemma_walk_in_order(lines, config, next);
                        assert forall|m: nat| m < n + 1 implies {
                            let passed = #[trigger] nth_line(lines, config, state, m);
                            standing(lines, passed) && above_at(lines, config, passed)
                                && !below_at(lines, config, passed)
                        } by {
                            if m > 0 {
                                assert(nth_line(lines, config, state, m) == nth_line(
                                    lines,
                                    config,
                                    next,
                                    (m - 1) as nat,
                                ));
                            }
                        }
                        assert(nth_line(lines, config, state, n + 1) == nth_line(
                            lines,
                            config,
                            next,
                            n,
                        ));
                        n + 1
                    } else {
                        0
                    }
                }
            },
        }
    }
}

/// Two states that settle at the same state have the same lines after
/// them.
proof fn lemma_nth_line_from_settled(
    lines: Seq<BufferLine>,
    config: RunConfig,
    a: RunState,
    b: RunState,
    n: nat,
)
    requires
        settle(lines, a) == settle(lines, b),
    ensures
        nth_line(lines, config, a, n) == nth_line(lines, config, b, n),
{
}

/// The lines after line number `a` are the lines from the state after it:
/// line number `a + 1 + j` from `state` is line number `j` from there.
pub proof fn lemma_nth_line_shift(
    lines: Seq<BufferLine>,
    config: RunConfig,
    state: RunState,
    a: nat,
    j: nat,
)
    requires
        standing(lines, nth_line(lines, config, state, a)),
    ensures
        nth_line(lines, config, state, a + 1 + j) == nth_line(
            lines,
            config,
            pass(lines, config, nth_line(lines, config, state, a)),
            j,
        ),
    decreases a,
{
    let here = settle(lines, state);
    if a > 0 {
        lemma_nth_line_shift(lines, config, pass(lines, config, here), (a - 1) as nat, j);
    }
}

/// The extraction ends for good at the first visual line whose glyphs start
/// below the viewport: where line number `k` in order from `state` is such
/// a line, at most `k` runs follow, and each of them is the run of a line
/// before it. No run is yielded for that line nor for any line after it,
/// whatever the metrics of the later lines.
pub proof fn lemma_runs_end_below_viewport(
    lines: Seq<BufferLine>,
    config: RunConfig,
    state: RunState,
    k: nat,
)
    requires
        reachable(state),
        standing(lines, nth_line(lines, config, state, k)),
        below_at(lines, config, nth_line(lines, config, state, k)),
    ensures
        runs_from(lines, config, state).len() <= k,
        forall|j: int|
            0 <= j < runs_from(lines, config, state).len() ==> exists|m: nat|
                m < k && #[trigger] runs_from(lines, config, state)[j] == run_of(
                    lines,
                    config,
                    #[trigger] nth_line(lines, config, state, m),
                ),
    decreases k,
{
    let n = lemma_walk_in_order(lines, config, state);
    lemma_runs_from_unfold(lines, config, state);
    lemma_walk_progress(lines, config, state);
    let (run, next) = walk(lines, config, state);
    if run is Some {
        let stop = nth_line(lines, config, state, n);
        if k < n {
            assert(!below_at(lines, config, nth_line(lines, config, state, k)));
        }
        assert(n < k);
        let rest_k = (k - n - 1) as nat;
        lemma_nth_line_shift(lines, config, state, n, rest_k);
        lemma_runs_end_below_viewport(lines, config, next, rest_k);
        let all = runs_from(lines, config, state);
        let rest = runs_from(lines, config, next);
        assert(all == seq![run->0] + rest);
        assert forall|j: int| 0 <= j < all.len() implies exists|m: nat|
            m < k && #[trigger] all[j] == run_of(
                lines,
                config,
                #[trigger] nth_line(lines, config, state, m),
            ) by {
            if j == 0 {
                assert(all[0] == run_of(lines, config, nth_line(lines, config, state, n)));
            } else {
                assert(all[j] == rest[j - 1]);
                let m2 = choose|m: nat|
                    m < rest_k && rest[j - 1] == run_of(
                        lines,
                        config,
                        #[trigger] nth_line(lines, config, next, m),
                    );
                lemma_nth_line_shift(lines, config, state, n, m2);
                assert(all[j] == run_of(
                    lines,
                    config,
                    nth_line(lines, config, state, n + 1 + m2),
                ));
            }
        }
    }
}

/// A run is as high as its visual line asks, and as high as the default
/// only where the line asks for nothing.
pub proof fn lemma_run_height(lines: Seq<BufferLine>, config: RunConfig, state: RunState)
    requires
        standing(lines, state),
    ensures
        run_of(lines, config, state).line_height == (match line_at(
            lines,
            state,
        ).line_height_opt {
            Some(height) => height,
            None => config.line_height,
        }),
{
}

} // verus!
