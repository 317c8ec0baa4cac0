use std::cell::Cell;

use cosmic_text::{
    Align, Attrs, AttrsList, BufferLine, Color, Ellipsize, Hinting, LayoutGlyph, LayoutLine,
    LineEnding, Metrics, ShapeGlyph, ShapeLine, Shaping, Span, Weight, Wrap,
};

const SIZE: i32 = 1280;

fn red() -> Attrs {
    Attrs::new().color(Color::rgb(0xFF, 0, 0))
}

fn bold() -> Attrs {
    Attrs::new().weight(Weight(700))
}

fn plain(text: &str) -> BufferLine {
    BufferLine::new(
        String::from(text),
        LineEnding::Lf,
        AttrsList::new(&Attrs::new()),
        Shaping::Advanced,
    )
}

/// One glyph cluster for each character, half an em wide.
fn shaper(
    mut storage: ShapeLine,
    text: &str,
    attrs_list: &AttrsList,
    _shaping: Shaping,
    _tab_width: u16,
) -> ShapeLine {
    storage.rtl = false;
    storage.glyphs.clear();
    for (start, c) in text.char_indices() {
        let attrs = attrs_list.get_span(start);
        storage.glyphs.push(ShapeGlyph {
            start,
            end: start + c.len_utf8(),
            x_advance: 32768,
            y_advance: 0,
            x_offset: 0,
            y_offset: 0,
            ascent: 49152,
            descent: 16384,
            glyph_id: c as u16,
            level: 0,
            color_opt: attrs.color_opt,
            metadata: attrs.metadata,
            metrics_opt: attrs.metrics_opt,
            decoration_data: None,
        });
    }
    storage
}

/// Visual lines of at most `width_opt` subpixels (one line without a
/// width), broken between any two glyphs.
fn wrapper(
    shape: &ShapeLine,
    mut storage: Vec<LayoutLine>,
    font_size: i32,
    width_opt: Option<i32>,
    _wrap: Wrap,
    _ellipsize: Ellipsize,
    _align: Option<Align>,
    _match_mono_width: Option<i32>,
    _hinting: Hinting,
) -> Vec<LayoutLine> {
    storage.clear();
    let mut line = blank_line(font_size);
    for glyph in &shape.glyphs {
        let size = glyph.metrics_opt.map_or(font_size, |m| m.font_size);
        let w = size / 2;
        if let Some(width) = width_opt {
            if !line.glyphs.is_empty() && line.w + w > width {
                storage.push(line);
                line = blank_line(font_size);
            }
        }
        line.glyphs.push(LayoutGlyph {
            start: glyph.start,
            end: glyph.end,
            font_size: size,
            glyph_id: glyph.glyph_id,
            x: line.w,
            y: 0,
            w,
            level: glyph.level,
            color_opt: glyph.color_opt,
            metadata: glyph.metadata,
            decoration_data: glyph.decoration_data,
        });
        line.w += w;
    }
    storage.push(line);
    storage
}

fn blank_line(font_size: i32) -> LayoutLine {
    LayoutLine {
        w: 0,
        max_ascent: font_size * 3 / 4,
        max_descent: font_size / 4,
        // Whatever stands here is replaced by what the text asks for.
        line_height_opt: Some(-1),
        glyphs: Vec::new(),
        decorations: Vec::new(),
    }
}

fn lay_out(line: &mut BufferLine) -> usize {
    line.layout(
        shaper,
        wrapper,
        SIZE,
        None,
        Wrap::Word,
        Ellipsize::Off,
        None,
        8,
        Hinting::Disabled,
    )
    .len()
}

#[test]
fn new_line_holds_its_content_and_has_empty_caches() {
    let mut spans = AttrsList::new(&Attrs::new());
    spans.add_span(0..2, &red());
    let line = BufferLine::new(String::from("hello"), LineEnding::CrLf, spans.clone(), Shaping::Basic);
    assert_eq!(line.text(), "hello");
    assert_eq!(line.ending(), LineEnding::CrLf);
    assert_eq!(line.attrs_list(), &spans);
    assert_eq!(line.align(), None);
    assert_eq!(line.metadata(), None);
    assert!(line.shape_opt().is_none());
    assert!(line.layout_opt().is_none());
    assert_eq!(line.into_text(), "hello");
}

#[test]
fn empty_line_is_blank() {
    let line = BufferLine::empty();
    assert_eq!(line.text(), "");
    assert_eq!(line.ending(), LineEnding::Absent);
    assert_eq!(line.attrs_list(), &AttrsList::new(&Attrs::new()));
    assert_eq!(line.align(), None);
    assert_eq!(line.metadata(), None);
    assert!(line.shape_opt().is_none());
    assert!(line.layout_opt().is_none());
}

#[test]
fn layout_populates_both_caches() {
    let mut line = plain("hello");
    assert_eq!(lay_out(&mut line), 1);
    let shape = line.shape_opt().expect("shape is cached");
    assert_eq!(shape.glyphs.len(), 5);
    let layout = line.layout_opt().expect("layout is cached");
    assert_eq!(layout.len(), 1);
    assert_eq!(layout[0].glyphs.len(), 5);
    assert_eq!(layout[0].w, 5 * 640);
    // Reading does not invalidate.
    let _ = (line.text(), line.ending(), line.align(), line.metadata(), line.attrs_list());
    assert!(line.shape_opt().is_some());
    assert!(line.layout_opt().is_some());
    line.set_metadata(3);
    assert!(line.shape_opt().is_some());
    assert!(line.layout_opt().is_some());
}

#[test]
fn shape_populates_the_shape_cache_only() {
    let mut line = plain("héllo");
    let shape = line.shape(shaper, 8);
    assert_eq!(shape.glyphs.len(), 5);
    assert_eq!(shape.glyphs[1].start, 1);
    assert_eq!(shape.glyphs[1].end, 3);
    assert!(line.shape_opt().is_some());
    assert!(line.layout_opt().is_none());
}

#[test]
fn shape_and_layout_are_computed_once() {
    let shaped = Cell::new(0);
    let wrapped = Cell::new(0);
    let counting_shaper = |s: ShapeLine, t: &str, a: &AttrsList, m: Shaping, w: u16| {
        shaped.set(shaped.get() + 1);
        shaper(s, t, a, m, w)
    };
    let counting_wrapper = |s: &ShapeLine,
                            l: Vec<LayoutLine>,
                            f: i32,
                            w: Option<i32>,
                            wr: Wrap,
                            e: Ellipsize,
                            a: Option<Align>,
                            m: Option<i32>,
                            h: Hinting| {
        wrapped.set(wrapped.get() + 1);
        wrapper(s, l, f, w, wr, e, a, m, h)
    };
    let mut line = plain("hello");
    for _ in 0..3 {
        line.layout(
            &counting_shaper,
            &counting_wrapper,
            SIZE,
            None,
            Wrap::Word,
            Ellipsize::Off,
            None,
            8,
            Hinting::Disabled,
        );
        line.shape(&counting_shaper, 8);
    }
    assert_eq!((shaped.get(), wrapped.get()), (1, 1));
    // A new alignment asks for a new layout, not for a new shape.
    assert!(line.set_align(Some(Align::Center)));
    line.layout(
        &counting_shaper,
        &counting_wrapper,
        SIZE,
        None,
        Wrap::Word,
        Ellipsize::Off,
        None,
        8,
        Hinting::Disabled,
    );
    assert_eq!((shaped.get(), wrapped.get()), (1, 2));
    // A new ending asks for both.
    assert!(line.set_ending(LineEnding::Absent));
    line.layout(
        &counting_shaper,
        &counting_wrapper,
        SIZE,
        None,
        Wrap::Word,
        Ellipsize::Off,
        None,
        8,
        Hinting::Disabled,
    );
    assert_eq!((shaped.get(), wrapped.get()), (2, 3));
}

#[test]
fn collaborators_get_the_content_and_the_arguments() {
    let mut spans = AttrsList::new(&bold());
    spans.add_span(1..3, &red());
    let mut line = BufferLine::new(String::from("abc"), LineEnding::Lf, spans.clone(), Shaping::Basic);
    line.set_align(Some(Align::Right));
    let seen = Cell::new(false);
    let checking_shaper = |s: ShapeLine, t: &str, a: &AttrsList, m: Shaping, w: u16| {
        assert!(s.glyphs.is_empty() && !s.rtl);
        assert_eq!(t, "abc");
        assert_eq!(a, &spans);
        assert_eq!(m, Shaping::Basic);
        assert_eq!(w, 4);
        let mut shape = shaper(s, t, a, m, w);
        shape.rtl = true;
        shape
    };
    let checking_wrapper = |s: &ShapeLine,
                            l: Vec<LayoutLine>,
                            f: i32,
                            w: Option<i32>,
                            wr: Wrap,
                            e: Ellipsize,
                            a: Option<Align>,
                            m: Option<i32>,
                            h: Hinting| {
        assert!(s.rtl);
        assert_eq!(s.glyphs.len(), 3);
        assert!(l.is_empty());
        assert_eq!(f, 1000);
        assert_eq!(w, Some(5000));
        assert_eq!(wr, Wrap::Glyph);
        assert_eq!(e, Ellipsize::End);
        assert_eq!(a, Some(Align::Right));
        assert_eq!(m, Some(77));
        assert_eq!(h, Hinting::Enabled);
        seen.set(true);
        wrapper(s, l, f, w, wr, e, a, m, h)
    };
    line.layout(
        checking_shaper,
        checking_wrapper,
        1000,
        Some(5000),
        Wrap::Glyph,
        Ellipsize::End,
        Some(77),
        4,
        Hinting::Enabled,
    );
    assert!(seen.get());
    assert!(line.shape_opt().unwrap().rtl);
}

#[test]
fn recomputation_starts_from_the_retained_storage() {
    let mut line = plain("hello");
    lay_out(&mut line);
    line.reset();
    assert!(line.shape_opt().is_none());
    assert!(line.layout_opt().is_none());
    let reusing_shaper = |s: ShapeLine, t: &str, a: &AttrsList, m: Shaping, w: u16| {
        // The shape of the last computation comes back as storage.
        assert_eq!(s.glyphs.len(), 5);
        shaper(s, t, a, m, w)
    };
    let reusing_wrapper = |s: &ShapeLine,
                           l: Vec<LayoutLine>,
                           f: i32,
                           w: Option<i32>,
                           wr: Wrap,
                           e: Ellipsize,
                           a: Option<Align>,
                           m: Option<i32>,
                           h: Hinting| {
        assert_eq!(l.len(), 1);
        assert_eq!(l[0].glyphs.len(), 5);
        wrapper(s, l, f, w, wr, e, a, m, h)
    };
    line.layout(
        reusing_shaper,
        reusing_wrapper,
        SIZE,
        None,
        Wrap::Word,
        Ellipsize::Off,
        None,
        8,
        Hinting::Disabled,
    );
    assert!(line.layout_opt().is_some());
}

#[test]
fn set_text_with_identical_content_keeps_the_caches() {
    let mut spans = AttrsList::new(&Attrs::new());
    spans.add_span(0..2, &red());
    let mut line = BufferLine::new(String::from("hello"), LineEnding::Lf, spans.clone(), Shaping::Advanced);
    lay_out(&mut line);
    line.set_metadata(5);
    for _ in 0..3 {
        assert!(!line.set_text("hello", LineEnding::Lf, spans.clone()));
        assert!(line.shape_opt().is_some());
        assert!(line.layout_opt().is_some());
        assert_eq!(line.metadata(), Some(5));
    }
    // A list built another way that says the same is the same list.
    let mut other = AttrsList::new(&Attrs::new());
    other.add_span(0..1, &red());
    other.add_span(1..2, &red());
    assert!(!line.set_text("hello", LineEnding::Lf, other));
    assert!(line.layout_opt().is_some());
}

#[test]
fn set_text_with_new_content_resets_the_line() {
    let spans = AttrsList::new(&Attrs::new());
    let mut changed_spans = spans.clone();
    changed_spans.add_span(0..1, &bold());
    let cases: Vec<(&str, LineEnding, AttrsList)> = vec![
        ("hellp", LineEnding::Lf, spans.clone()),
        ("hell", LineEnding::Lf, spans.clone()),
        ("", LineEnding::Lf, spans.clone()),
        ("hello", LineEnding::CrLf, spans.clone()),
        ("hello", LineEnding::Absent, spans.clone()),
        ("hello", LineEnding::Lf, changed_spans.clone()),
        ("hello", LineEnding::Lf, AttrsList::new(&bold())),
    ];
    for (text, ending, list) in cases {
        let mut line = plain("hello");
        line.set_align(Some(Align::Center));
        lay_out(&mut line);
        line.set_metadata(5);
        assert!(line.set_text(text, ending, list.clone()));
        assert_eq!(line.text(), text);
        assert_eq!(line.ending(), ending);
        assert_eq!(line.attrs_list(), &list);
        assert_eq!(line.align(), Some(Align::Center));
        assert_eq!(line.metadata(), None);
        assert!(line.shape_opt().is_none());
        assert!(line.layout_opt().is_none());
    }
}

#[test]
fn set_ending_invalidates_shape_and_layout() {
    let mut line = plain("hello");
    lay_out(&mut line);
    line.set_metadata(5);
    assert!(!line.set_ending(LineEnding::Lf));
    assert!(line.shape_opt().is_some() && line.layout_opt().is_some());
    assert_eq!(line.metadata(), Some(5));
    assert!(line.set_ending(LineEnding::CrLf));
    assert_eq!(line.ending(), LineEnding::CrLf);
    assert!(line.shape_opt().is_none() && line.layout_opt().is_none());
    // The metadata does not outlive the invalidation.
    assert_eq!(line.metadata(), None);
}

#[test]
fn set_attrs_list_invalidates_shape_and_layout() {
    let mut line = plain("hello");
    lay_out(&mut line);
    line.set_metadata(5);
    assert!(!line.set_attrs_list(AttrsList::new(&Attrs::new())));
    assert!(line.shape_opt().is_some() && line.layout_opt().is_some());
    assert_eq!(line.metadata(), Some(5));
    let mut spans = AttrsList::new(&Attrs::new());
    spans.add_span(1..2, &red());
    assert!(line.set_attrs_list(spans.clone()));
    assert_eq!(line.attrs_list(), &spans);
    assert!(line.shape_opt().is_none() && line.layout_opt().is_none());
    assert_eq!(line.metadata(), None);
}

#[test]
fn set_align_invalidates_the_layout_only() {
    let mut line = plain("hello");
    lay_out(&mut line);
    line.set_metadata(5);
    assert!(!line.set_align(None));
    assert!(line.shape_opt().is_some() && line.layout_opt().is_some());
    assert_eq!(line.metadata(), Some(5));
    assert!(line.set_align(Some(Align::Justified)));
    assert_eq!(line.align(), Some(Align::Justified));
    assert!(line.shape_opt().is_some());
    assert!(line.layout_opt().is_none());
    assert_eq!(line.metadata(), None);
    assert!(!line.set_align(Some(Align::Justified)));
    assert!(line.set_align(None));
}

#[test]
fn resets_invalidate_their_tiers() {
    let mut line = plain("hello");
    lay_out(&mut line);
    line.set_metadata(1);
    line.reset_layout();
    assert!(line.shape_opt().is_some() && line.layout_opt().is_none());
    assert_eq!(line.metadata(), None);
    lay_out(&mut line);
    line.set_metadata(1);
    line.reset_shaping();
    assert!(line.shape_opt().is_none() && line.layout_opt().is_none());
    assert_eq!(line.metadata(), None);
    lay_out(&mut line);
    line.set_metadata(1);
    line.reset();
    assert!(line.shape_opt().is_none() && line.layout_opt().is_none());
    assert_eq!(line.metadata(), None);
}

#[test]
fn reset_new_replaces_everything() {
    let mut line = plain("hello");
    line.set_align(Some(Align::Right));
    lay_out(&mut line);
    line.set_metadata(1);
    let mut spans = AttrsList::new(&bold());
    spans.add_span(0..1, &red());
    line.reset_new(String::from("new"), LineEnding::Absent, spans.clone(), Shaping::Basic);
    assert_eq!(line.text(), "new");
    assert_eq!(line.ending(), LineEnding::Absent);
    assert_eq!(line.attrs_list(), &spans);
    assert_eq!(line.align(), None);
    assert_eq!(line.metadata(), None);
    assert!(line.shape_opt().is_none() && line.layout_opt().is_none());
    let basic = Cell::new(false);
    line.shape(
        |s: ShapeLine, t: &str, a: &AttrsList, m: Shaping, w: u16| {
            basic.set(m == Shaping::Basic);
            shaper(s, t, a, m, w)
        },
        8,
    );
    assert!(basic.get());
}

#[test]
fn append_joins_text_and_takes_the_other_ending() {
    let mut line = plain("hello ");
    lay_out(&mut line);
    line.set_metadata(2);
    line.set_align(Some(Align::Left));
    let other = BufferLine::new(
        String::from("wörld"),
        LineEnding::CrLf,
        AttrsList::new(&Attrs::new()),
        Shaping::Basic,
    );
    line.append(&other);
    assert_eq!(line.text(), "hello wörld");
    assert_eq!(line.ending(), LineEnding::CrLf);
    assert!(line.attrs_list().spans().is_empty());
    assert_eq!(line.attrs_list().defaults(), Attrs::new());
    assert_eq!(line.align(), Some(Align::Left));
    assert_eq!(line.metadata(), None);
    assert!(line.shape_opt().is_none() && line.layout_opt().is_none());
    assert_eq!(other.text(), "wörld");
}

#[test]
fn append_moves_the_spans_of_the_other_line_up() {
    let mut spans = AttrsList::new(&Attrs::new());
    spans.add_span(0..2, &red());
    let mut line = BufferLine::new(String::from("añb"), LineEnding::Lf, spans, Shaping::Advanced);
    let mut other_spans = AttrsList::new(&Attrs::new());
    other_spans.add_span(1..3, &bold());
    other_spans.add_span(3..4, &red());
    let other = BufferLine::new(String::from("wxyz"), LineEnding::Absent, other_spans, Shaping::Advanced);
    line.append(&other);
    assert_eq!(line.text(), "añbwxyz");
    assert_eq!(
        line.attrs_list().spans(),
        &[
            Span { start: 0, end: 2, attrs: red() },
            Span { start: 5, end: 7, attrs: bold() },
            Span { start: 7, end: 8, attrs: red() },
        ]
    );
}

#[test]
fn append_marks_text_with_other_defaults() {
    let mut line = plain("ab");
    let mut other_spans = AttrsList::new(&bold());
    other_spans.add_span(1..2, &red());
    let other = BufferLine::new(String::from("cde"), LineEnding::Lf, other_spans, Shaping::Advanced);
    line.append(&other);
    assert_eq!(line.attrs_list().defaults(), Attrs::new());
    assert_eq!(
        line.attrs_list().spans(),
        &[
            Span { start: 2, end: 3, attrs: bold() },
            Span { start: 3, end: 4, attrs: red() },
            Span { start: 4, end: 5, attrs: bold() },
        ]
    );
    assert_eq!(line.attrs_list().get_span(0), Attrs::new());
    assert_eq!(line.attrs_list().get_span(2), bold());
    assert_eq!(line.attrs_list().get_span(5), Attrs::new());
}

#[test]
fn append_of_empty_line_with_other_defaults_adds_no_span() {
    let mut line = plain("ab");
    let other = BufferLine::new(String::new(), LineEnding::Absent, AttrsList::new(&bold()), Shaping::Advanced);
    line.append(&other);
    assert_eq!(line.text(), "ab");
    assert_eq!(line.ending(), LineEnding::Absent);
    assert!(line.attrs_list().spans().is_empty());
}

#[test]
fn append_replaces_what_this_line_said_beyond_its_text() {
    let mut spans = AttrsList::new(&Attrs::new());
    spans.add_span(0..10, &red());
    let mut line = BufferLine::new(String::from("ab"), LineEnding::Lf, spans, Shaping::Advanced);
    let mut other_spans = AttrsList::new(&Attrs::new());
    other_spans.add_span(1..2, &bold());
    let other = BufferLine::new(String::from("cde"), LineEnding::Lf, other_spans, Shaping::Advanced);
    line.append(&other);
    assert_eq!(
        line.attrs_list().spans(),
        &[
            Span { start: 0, end: 3, attrs: red() },
            Span { start: 3, end: 4, attrs: bold() },
            Span { start: 4, end: 10, attrs: red() },
        ]
    );
}

#[test]
fn split_off_divides_text_and_spans() {
    let mut spans = AttrsList::new(&bold());
    spans.add_span(1..6, &red());
    let mut line = BufferLine::new(String::from("añb→cd"), LineEnding::CrLf, spans, Shaping::Basic);
    line.set_align(Some(Align::End));
    lay_out(&mut line);
    line.set_metadata(4);
    // Bytes: a 0, ñ 1..3, b 3, → 4..7, c 7, d 8.
    let tail = line.split_off(4);
    assert_eq!(line.text(), "añb");
    assert_eq!(tail.text(), "→cd");
    assert_eq!(line.ending(), LineEnding::Absent);
    assert_eq!(tail.ending(), LineEnding::CrLf);
    assert_eq!(line.align(), Some(Align::End));
    assert_eq!(tail.align(), Some(Align::End));
    assert_eq!(line.attrs_list().defaults(), bold());
    assert_eq!(tail.attrs_list().defaults(), bold());
    assert_eq!(line.attrs_list().spans(), &[Span { start: 1, end: 4, attrs: red() }]);
    assert_eq!(tail.attrs_list().spans(), &[Span { start: 0, end: 2, attrs: red() }]);
    assert_eq!(line.metadata(), None);
    assert_eq!(tail.metadata(), None);
    assert!(line.shape_opt().is_none() && line.layout_opt().is_none());
    assert!(tail.shape_opt().is_none() && tail.layout_opt().is_none());
    let mut tail = tail;
    let basic = Cell::new(false);
    tail.shape(
        |s: ShapeLine, t: &str, a: &AttrsList, m: Shaping, w: u16| {
            basic.set(m == Shaping::Basic);
            shaper(s, t, a, m, w)
        },
        8,
    );
    assert!(basic.get());
}

#[test]
fn split_off_at_the_ends() {
    let mut line = plain("abc");
    let tail = line.split_off(3);
    assert_eq!((line.text(), tail.text()), ("abc", ""));
    assert_eq!((line.ending(), tail.ending()), (LineEnding::Absent, LineEnding::Lf));
    let mut line = plain("abc");
    let tail = line.split_off(0);
    assert_eq!((line.text(), tail.text()), ("", "abc"));
    let mut line = plain("");
    let tail = line.split_off(0);
    assert_eq!((line.text(), tail.text()), ("", ""));
}

#[test]
fn split_off_then_append_restores_the_line() {
    let text = "añb→cd😀e";
    let mut spans = AttrsList::new(&bold());
    spans.add_span(0..2, &red());
    spans.add_span(2..5, &Attrs::new());
    spans.add_span(8..40, &red());
    for index in 0..=text.len() {
        if !text.is_char_boundary(index) {
            continue;
        }
        let mut line = BufferLine::new(String::from(text), LineEnding::CrLf, spans.clone(), Shaping::Basic);
        line.set_align(Some(Align::Center));
        let tail = line.split_off(index);
        assert_eq!(line.text().len(), index);
        line.append(&tail);
        assert_eq!(line.text(), text);
        assert_eq!(line.ending(), LineEnding::CrLf);
        assert_eq!(line.attrs_list(), &spans);
        assert_eq!(line.align(), Some(Align::Center));
    }
}

#[test]
fn reclaim_text_and_spans() {
    let mut spans = AttrsList::new(&bold());
    spans.add_span(0..1, &red());
    let mut line = BufferLine::new(String::from("hello"), LineEnding::Lf, spans.clone(), Shaping::Advanced);
    let text = line.reclaim_text();
    assert_eq!(text, "");
    assert!(text.capacity() >= 5);
    assert_eq!(line.text(), "");
    assert_eq!(line.attrs_list(), &spans);
    let list = line.reclaim_attrs();
    assert_eq!(list, spans);
    assert_eq!(line.attrs_list(), &AttrsList::new(&Attrs::new()));
    assert_eq!(line.ending(), LineEnding::Lf);
}

#[test]
fn metadata_is_kept_until_a_cache_is_invalidated() {
    let mut line = plain("hello");
    assert_eq!(line.metadata(), None);
    line.set_metadata(7);
    assert_eq!(line.metadata(), Some(7));
    line.set_metadata(usize::MAX);
    assert_eq!(line.metadata(), Some(usize::MAX));
    // Shaping and laying out invalidate nothing.
    lay_out(&mut line);
    line.shape(shaper, 8);
    assert_eq!(line.metadata(), Some(usize::MAX));
    line.reset_layout();
    assert_eq!(line.metadata(), None);
    line.set_metadata(1);
    line.reset_shaping();
    assert_eq!(line.metadata(), None);
    line.set_metadata(1);
    line.reset();
    assert_eq!(line.metadata(), None);
}

#[test]
fn layout_assigns_the_line_height_that_the_text_asks_for() {
    let small = Attrs::new().metrics(Metrics::new(512, 614));
    let large = Attrs::new().metrics(Metrics::new(2560, 3200));
    let mut spans = AttrsList::new(&Attrs::new());
    spans.add_span(2..4, &small);
    spans.add_span(6..8, &large);
    let mut line = BufferLine::new(String::from("aabbccddee"), LineEnding::Lf, spans, Shaping::Advanced);
    // Lines of two glyphs of 10 px; the large glyphs are 20 px wide each.
    let lines = line.layout(
        shaper,
        wrapper,
        SIZE,
        Some(1280),
        Wrap::Glyph,
        Ellipsize::Off,
        None,
        8,
        Hinting::Disabled,
    );
    let heights: Vec<Option<i32>> = lines.iter().map(|l| l.line_height_opt).collect();
    assert_eq!(
        heights,
        vec![None, Some(614), None, Some(3200), Some(3200), None]
    );
    // A line with glyphs of both spans is as high as the higher asks.
    line.reset_layout();
    let lines = line.layout(
        shaper,
        wrapper,
        SIZE,
        None,
        Wrap::Glyph,
        Ellipsize::Off,
        None,
        8,
        Hinting::Disabled,
    );
    assert_eq!(lines.len(), 1);
    assert_eq!(lines[0].line_height_opt, Some(3200));
}

#[test]
fn layout_of_empty_line_takes_the_height_of_the_defaults() {
    // A blank paragraph within text of 8 px with lines 1.2 times as high,
    // laid out at a default size of 32 px.
    let small = Attrs::new().metrics(Metrics::relative(512, 78643));
    let mut line = BufferLine::new(String::new(), LineEnding::Lf, AttrsList::new(&small), Shaping::Advanced);
    let lines = line.layout(
        shaper,
        wrapper,
        2048,
        None,
        Wrap::Word,
        Ellipsize::Off,
        None,
        8,
        Hinting::Disabled,
    );
    assert_eq!(lines.len(), 1);
    assert!(lines[0].glyphs.is_empty());
    assert_eq!(lines[0].line_height_opt, Some(614));
    let height = lines[0].line_height_opt.unwrap() as f32 / 64.0;
    assert!((height - 9.6).abs() < 0.1);
    // A blank paragraph in plain text asks for nothing.
    let mut line = plain("");
    assert_eq!(lay_out(&mut line), 1);
    assert_eq!(line.layout_opt().unwrap()[0].line_height_opt, None);
}

#[test]
fn layout_runs_walks_the_line_alone() {
    let mut line = plain("hello world");
    line.layout(
        shaper,
        wrapper,
        SIZE,
        Some(3200),
        Wrap::Glyph,
        Ellipsize::Off,
        None,
        8,
        Hinting::Disabled,
    );
    let mut runs = line.layout_runs(None, 1664);
    let mut tops = Vec::new();
    while let Some(run) = runs.next() {
        assert_eq!(run.line_i, 0);
        assert_eq!(run.text, "hello world");
        assert_eq!(run.line_height, 1664);
        tops.push((run.line_top, run.line_y, run.glyphs.len()));
    }
    // Glyph extent 20 px in a line of 26 px: 3 px above the ascent of 15 px.
    assert_eq!(tops, vec![(0, 1152, 5), (1664, 2816, 5), (3328, 4480, 1)]);
    // The glyphs of the second line start at 26 + 3 px.
    assert_eq!(line.layout_runs(Some(1855), 1664).collect().len(), 1);
    assert_eq!(line.layout_runs(Some(1856), 1664).collect().len(), 2);
    // Those of the first at 3 px.
    assert_eq!(line.layout_runs(Some(191), 1664).collect().len(), 0);
    assert_eq!(line.layout_runs(Some(192), 1664).collect().len(), 1);
}
