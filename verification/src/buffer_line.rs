//! A paragraph of text with its cached shaping and layout.
use vstd::prelude::*;
use vstd::utf8::{encode_utf8, is_char_boundary};
use vstd::string::StringExecFns;
use crate::attrs::Attrs;
use crate::attrs_list::{lookup, AttrsList, Span};
use crate::cached::Cached;
use crate::layout::{Align, Ellipsize, Hinting, LayoutLine, LineEnding, ShapeLine, Shaping, Wrap};
use crate::layout_run::{LayoutRunIter, RunConfig, RunState};
use crate::line_height::{assign_line_heights, heights_assigned};
use crate::text::{
    byte_len, lemma_boundary_within, lemma_encode_concat, lemma_split_rejoins, same_text,
};

verus! {

/// What a paragraph line holds.
pub struct BufferLineView {
    /// The text of the paragraph.
    pub text: Seq<char>,
    /// How the paragraph ends.
    pub ending: LineEnding,
    /// The style spans over the bytes of the text.
    pub attrs_list: AttrsList,
    /// The alignment, where it overrides that of the paragraph direction.
    pub align: Option<Align>,
    /// The cached result of shaping.
    pub shape: Cached<ShapeLine>,
    /// The cached result of wrapping.
    pub layout: Cached<Vec<LayoutLine>>,
    /// How the text is shaped.
    pub shaping: Shaping,
    /// A number that the owner attaches to the line until its next reset.
    pub metadata: Option<usize>,
}

impl BufferLineView {
    /// The text in bytes.
    pub open spec fn bytes(self) -> Seq<u8> {
        encode_utf8(self.text)
    }

    /// This line with both caches invalidated and the metadata cleared.
    pub open spec fn reset(self) -> Self {
        self.reset_shaping()
    }

    /// This line with both caches invalidated and the metadata cleared.
    pub open spec fn reset_shaping(self) -> Self {
        BufferLineView {
            metadata: None,
            shape: self.shape.invalidated(),
            layout: self.layout.invalidated(),
            ..self
        }
    }

    /// This line with the layout cache invalidated and the metadata
    /// cleared. The metadata never outlives an invalidation.
    pub open spec fn reset_layout(self) -> Self {
        BufferLineView { metadata: None, layout: self.layout.invalidated(), ..self }
    }

    /// True when the spans are well formed and a valid layout implies a
    /// valid shape.
    pub open spec fn wf(self) -> bool {
        &&& self.attrs_list.wf()
        &&& self.layout.value() is Some ==> self.shape.value() is Some
    }

    /// True when the line holds the given text, ending and spans.
    pub open spec fn holds(self, text: Seq<char>, ending: LineEnding, attrs_list: AttrsList) -> bool {
        text == self.text && ending == self.ending && attrs_list.same_as(&self.attrs_list)
    }

    /// This line after its text, ending and spans are set: unchanged where
    /// it holds them already, else reset with the new content.
    pub open spec fn with_text(
        self,
        text: Seq<char>,
        ending: LineEnding,
        attrs_list: AttrsList,
    ) -> Self {
        if self.holds(text, ending, attrs_list) {
            self
        } else {
            (BufferLineView { text, ending, attrs_list, ..self }).reset()
        }
    }

    /// This line after its ending is set: unchanged where it has that
    /// ending already, else with both caches invalidated and the metadata
    /// cleared.
    pub open spec fn with_ending(self, ending: LineEnding) -> Self {
        if ending == self.ending {
            self
        } else {
            (BufferLineView { ending, ..self }).reset_shaping()
        }
    }

    /// This line after its spans are set: unchanged where it has equal
    /// spans already, else with both caches invalidated and the metadata
    /// cleared.
    pub open spec fn with_attrs_list(self, attrs_list: AttrsList) -> Self {
        if attrs_list.same_as(&self.attrs_list) {
            self
        } else {
            (BufferLineView { attrs_list, ..self }).reset_shaping()
        }
    }

    /// This line after its alignment is set: unchanged where it has that
    /// alignment already, else with the layout cache invalidated and the
    /// metadata cleared.
    pub open spec fn with_align(self, align: Option<Align>) -> Self {
        if align == self.align {
            self
        } else {
            (BufferLineView { align, ..self }).reset_layout()
        }
    }

    /// True when `joined` is this line with `other` appended: the texts are
    /// joined, the ending is that of `other`, the spans are those of
    /// [`appended_attrs`] over the defaults of this line, both caches are
    /// invalidated and the metadata is cleared.
    pub open spec fn appended(self, other: Self, joined: Self) -> bool {
        &&& joined == (BufferLineView {
            text: self.text + other.text,
            ending: other.ending,
            attrs_list: joined.attrs_list,
            ..self
        }).reset()
        &&& joined.attrs_list.wf()
        &&& joined.attrs_list.spec_defaults() == self.attrs_list.spec_defaults()
        &&& forall|i: int| #[trigger]
            joined.attrs_list.attrs_at(i) == appended_attrs(self, other, i)
    }

    /// True when `head` and `tail` are the two parts of this line split at
    /// byte `index`. The text and the spans before `index` are in `head`,
    /// those from `index` on in `tail`, the spans moved down by `index`.
    /// The ending goes to `tail`, with the alignment and the shaping mode;
    /// `head` has no ending, its caches are invalidated and its metadata is
    /// cleared; `tail` has empty caches and no metadata.
    pub open spec fn split_at(self, index: int, head: Self, tail: Self) -> bool {
        &&& head == (BufferLineView {
            text: head.text,
            ending: LineEnding::Absent,
            attrs_list: head.attrs_list,
            ..self
        }).reset()
        &&& tail == (BufferLineView {
            text: tail.text,
            ending: self.ending,
            attrs_list: tail.attrs_list,
            align: self.align,
            shape: Cached::Empty,
            layout: Cached::Empty,
            shaping: self.shaping,
            metadata: None,
        })
        &&& head.text + tail.text == self.text
        &&& head.bytes().len() == index
        &&& head.attrs_list.wf()
        &&& tail.attrs_list.wf()
        &&& head.attrs_list.spec_defaults() == self.attrs_list.spec_defaults()
        &&& tail.attrs_list.spec_defaults() == self.attrs_list.spec_defaults()
        &&& forall|i: int| #[trigger]
            head.attrs_list.attrs_at(i) == (if i < index {
                self.attrs_list.attrs_at(i)
            } else {
                None
            })
        &&& forall|i: int| #[trigger]
            tail.attrs_list.attrs_at(i) == (if i >= 0 {
                self.attrs_list.attrs_at(i + index)
            } else {
                None
            })
    }

    /// True of the storage that the next shaping starts from: the retained
    /// line, or a blank one where none is retained.
    pub open spec fn shape_storage(self, storage: ShapeLine) -> bool {
        match self.shape.retained() {
            Some(line) => storage == line,
            None => storage.is_blank(),
        }
    }

    /// True of the storage that the next wrapping starts from: the retained
    /// lines, or none where none are retained.
    pub open spec fn layout_storage(self, storage: Vec<LayoutLine>) -> bool {
        match self.layout.retained() {
            Some(lines) => storage == lines,
            None => storage@.len() == 0,
        }
    }
}

/// A line (or paragraph) of text that is shaped and laid out.
#[derive(Clone, Debug)]
pub struct BufferLine {
    text: String,
    ending: LineEnding,
    attrs_list: AttrsList,
    align: Option<Align>,
    shape_opt: Cached<ShapeLine>,
    layout_opt: Cached<Vec<LayoutLine>>,
    shaping: Shaping,
    metadata: Option<usize>,
}

impl View for BufferLine {
    type V = BufferLineView;

    closed spec fn view(&self) -> BufferLineView {
        BufferLineView {
            text: self.text@,
            ending: self.ending,
            attrs_list: self.attrs_list,
            align: self.align,
            shape: self.shape_opt,
            layout: self.layout_opt,
            shaping: self.shaping,
            metadata: self.metadata,
        }
    }
}

impl BufferLine {
    /// True when the spans are well formed and a valid layout implies a
    /// valid shape.
    pub open spec fn wf(&self) -> bool {
        self@.wf()
    }

    /// Creates a line with the given text and spans, without alignment and
    /// with empty caches.
    pub fn new(text: String, ending: LineEnding, attrs_list: AttrsList, shaping: Shaping) -> (line:
        Self)
        requires
            attrs_list.wf(),
        ensures
            line.wf(),
            line@ == (BufferLineView {
                text: text@,
                ending,
                attrs_list,
                align: None,
                shape: Cached::Empty,
                layout: Cached::Empty,
                shaping,
                metadata: None,
            }),
    {
        Self {
            text,
            ending,
            attrs_list,
            align: None,
            shape_opt: Cached::Empty,
            layout_opt: Cached::Empty,
            shaping,
            metadata: None,
        }
    }

    /// Gives the line new content, keeping what the caches hold as storage.
    pub fn reset_new(
        &mut self,
        text: String,
        ending: LineEnding,
        attrs_list: AttrsList,
        shaping: Shaping,
    )
        requires
            old(self).wf(),
            attrs_list.wf(),
        ensures
            final(self).wf(),
            final(self)@ == (BufferLineView {
                text: text@,
                ending,
                attrs_list,
                align: None,
                shape: old(self)@.shape.invalidated(),
                layout: old(self)@.layout.invalidated(),
                shaping,
                metadata: None,
            }),
    {
        self.text = text;
        self.ending = ending;
        self.attrs_list = attrs_list;
        self.align = None;
        self.shape_opt.set_unused();
        self.layout_opt.set_unused();
        self.shaping = shaping;
        self.metadata = None;
    }

    /// The text of the paragraph.
    pub fn text(&self) -> (text: &str)
        ensures
            text@ == self@.text,
    {
        self.text.as_str()
    }

    /// Replaces text, ending and spans. Where all three are what the line
    /// holds already, nothing changes and the caches stay valid; otherwise
    /// both caches are invalidated and the metadata is cleared. Returns
    /// whether the line was reset.
    pub fn set_text(&mut self, text: &str, ending: LineEnding, attrs_list: AttrsList) -> (changed:
        bool)
        requires
            old(self).wf(),
            attrs_list.wf(),
        ensures
            final(self).wf(),
            changed == !old(self)@.holds(text@, ending, attrs_list),
            final(self)@ == old(self)@.with_text(text@, ending, attrs_list),
    {
        if !same_text(text, self.text.as_str()) || ending != self.ending || attrs_list
            != self.attrs_list {
            self.text.clear();
            self.text.append(text);
            self.ending = ending;
            self.attrs_list = attrs_list;
            self.reset();
            true
        } else {
            false
        }
    }

    /// Consumes the line and returns its text.
    pub fn into_text(self) -> (text: String)
        ensures
            text@ == self@.text,
    {
        self.text
    }

    /// How the paragraph ends.
    pub fn ending(&self) -> (ending: LineEnding)
        ensures
            ending == self@.ending,
    {
        self.ending
    }

    /// Sets the line ending. A new ending invalidates both caches and
    /// clears the metadata. Returns whether the line was reset.
    pub fn set_ending(&mut self, ending: LineEnding) -> (changed: bool)
        requires
            old(self).wf(),
        ensures
            final(self).wf(),
            changed == (ending != old(self)@.ending),
            final(self)@ == old(self)@.with_ending(ending),
    {
        if ending != self.ending {
            self.ending = ending;
            self.reset_shaping();
            true
        } else {
            false
        }
    }

    /// The style spans.
    pub fn attrs_list(&self) -> (attrs_list: &AttrsList)
        ensures
            *attrs_list == self@.attrs_list,
    {
        &self.attrs_list
    }

    /// Sets the style spans. A list that differs from the current one
    /// invalidates both caches and clears the metadata. Returns whether the
    /// line was reset.
    pub fn set_attrs_list(&mut self, attrs_list: AttrsList) -> (changed: bool)
        requires
            old(self).wf(),
            attrs_list.wf(),
        ensures
            final(self).wf(),
            changed == !attrs_list.same_as(&old(self)@.attrs_list),
            final(self)@ == old(self)@.with_attrs_list(attrs_list),
    {
        if attrs_list != self.attrs_list {
            self.attrs_list = attrs_list;
            self.reset_shaping();
            true
        } else {
            false
        }
    }

    /// The alignment, where one is set.
    pub fn align(&self) -> (align: Option<Align>)
        ensures
            align == self@.align,
    {
        self.align
    }

    /// Sets the alignment; without one, lines are aligned by the direction
    /// of the paragraph. A new alignment invalidates the layout cache,
    /// clears the metadata and leaves the shape cache alone. Returns whether
    /// the line was reset.
    pub fn set_align(&mut self, align: Option<Align>) -> (changed: bool)
        requires
            old(self).wf(),
        ensures
            final(self).wf(),
            changed == (align != old(self)@.align),
            final(self)@ == old(self)@.with_align(align),
    {
        if align != self.align {
            self.align = align;
            self.reset_layout();
            true
        } else {
            false
        }
    }

    /// Invalidates both caches and clears the metadata.
    pub fn reset(&mut self)
        requires
            old(self).wf(),
        ensures
            final(self).wf(),
            final(self)@ == old(self)@.reset(),
    {
        self.metadata = None;
        self.reset_shaping();
    }

    /// Invalidates both caches and clears the metadata.
    pub fn reset_shaping(&mut self)
        requires
            old(self).wf(),
        ensures
            final(self).wf(),
            final(self)@ == old(self)@.reset_shaping(),
    {
        self.reset_layout();
        self.shape_opt.set_unused();
    }

    /// Invalidates the layout cache and clears the metadata.
    pub fn reset_layout(&mut self)
        requires
            old(self).wf(),
        ensures
            final(self).wf(),
            final(self)@ == old(self)@.reset_layout(),
    {
        self.metadata = None;
        self.layout_opt.set_unused();
    }

    /// The cached shape, if it is valid.
    pub fn shape_opt(&self) -> (shape: Option<&ShapeLine>)
        ensures
            shape == match self@.shape.value() {
                Some(line) => Some(&line),
                None => None,
            },
    {
        self.shape_opt.get()
    }

    /// The cached layout, if it is valid.
    pub fn layout_opt(&self) -> (layout: Option<&Vec<LayoutLine>>)
        ensures
            layout == match self@.layout.value() {
                Some(lines) => Some(&lines),
                None => None,
            },
    {
        self.layout_opt.get()
    }

    /// The visible runs of this line alone, for a viewport of height
    /// `height_opt` that is not scrolled, with `line_height` for visual
    /// lines that do not override it.
    pub fn layout_runs(&self, height_opt: Option<i32>, line_height: i32) -> (iter: LayoutRunIter<'_>)
        ensures
            iter.lines() == seq![*self],
            iter.config() == (RunConfig { height_opt, line_height, scroll: 0 }),
            iter.state() == (RunState { line_i: 0, layout_i: 0, line_top: 0, total_height: 0 }),
    {
        LayoutRunIter::new(core::slice::from_ref(self), height_opt, line_height, 0, 0)
    }

    /// The metadata, if any was set since a cache of the line was last
    /// invalidated.
    pub fn metadata(&self) -> (metadata: Option<usize>)
        ensures
            metadata == self@.metadata,
    {
        self.metadata
    }

    /// Sets the metadata, which stays until a cache of the line is next
    /// invalidated.
    pub fn set_metadata(&mut self, metadata: usize)
        requires
            old(self).wf(),
        ensures
            final(self).wf(),
            final(self)@ == (BufferLineView { metadata: Some(metadata), ..old(self)@ }),
    {
        self.metadata = Some(metadata);
    }

    /// Appends `other` to the end of this line. The line takes the ending
    /// of `other`. The spans of `other` are added, moved up by the length
    /// of this line's text; where the defaults of the two lines differ, the
    /// appended text first gets a span with the defaults of `other`, so that
    /// it keeps its formatting. Both caches are invalidated.
    pub fn append(&mut self, other: &Self)
        requires
            old(self).wf(),
            other.wf(),
            old(self)@.bytes().len() + other@.attrs_list.spec_upper() <= usize::MAX,
        ensures
            final(self).wf(),
            old(self)@.appended(other@, final(self)@),
    {
        let len = byte_len(self.text.as_str());
        self.text.append(other.text.as_str());
        let total = byte_len(self.text.as_str());
        proof {
            lemma_encode_concat(old(self)@.text, other@.text);
        }

        // To preserve line endings, we use the one from the other line
        self.ending = other.ending;

        let other_defaults = other.attrs_list.defaults();
        if other_defaults != self.attrs_list.defaults() {
            // If default formatting does not match, make a new span for it
            self.attrs_list.add_span(len..total, &other_defaults);
        }
        let spans = other.attrs_list.spans();
        let n = spans.len();
        let mut k: usize = 0;
        let ghost joined = self@;
        while k < n
            invariant
                self@ == (BufferLineView { attrs_list: self@.attrs_list, ..joined }),
                n == spans@.len(),
                k <= n,
                spans@ == other@.attrs_list@,
                other.wf(),
                len == old(self)@.bytes().len(),
                len + other@.attrs_list.spec_upper() <= usize::MAX,
                self.attrs_list.wf(),
                self.attrs_list.spec_defaults() == old(self)@.attrs_list.spec_defaults(),
                forall|i: int|
                    #[trigger] self.attrs_list.attrs_at(i) == (match lookup(
                        spans@.subrange(0, k as int),
                        i - len,
                    ) {
                        Some(attrs) => Some(attrs),
                        None => appended_defaults(old(self)@, other@, i),
                    }),
            decreases n - k,
        {
            let s = spans[k];
            proof {
                assert(spans@.subrange(0, k as int + 1).drop_last() == spans@.subrange(0, k as int));
            }
            // Add previous attrs spans
            self.attrs_list.add_span(s.start + len..s.end + len, &s.attrs);
            k += 1;
        }
        proof {
            assert(spans@.subrange(0, n as int) == spans@);
        }
        self.reset();
    }

    /// Splits the line at byte `index`, which must lie on a character
    /// boundary of the text. The line keeps the text and the spans before
    /// `index`; the result gets those from `index` on, and with them the
    /// ending, the alignment and the shaping mode of the line. The line is
    /// left without an ending and with both caches invalidated; the result
    /// starts with empty caches.
    pub fn split_off(&mut self, index: usize) -> (tail: Self)
        requires
            old(self).wf(),
            is_char_boundary(old(self)@.bytes(), index as int),
        ensures
            final(self).wf(),
            tail.wf(),
            old(self)@.split_at(index as int, final(self)@, tail@),
    {
        proof {
            lemma_boundary_within(old(self)@.text, index as int);
        }
        let text = self.text.split_off(index);
        proof {
            lemma_split_rejoins(old(self)@.text, self.text@, text@, index as int);
        }
        let attrs_list = self.attrs_list.split_off(index);
        self.reset();

        let mut new = Self::new(text, self.ending, attrs_list, self.shaping);
        // To preserve line endings, it moves to the new line
        self.ending = LineEnding::Absent;
        new.align = self.align;
        new
    }

    /// Shapes the line unless its shape is valid, and returns the shape.
    /// The collaborator is called only where the shape is not valid, and
    /// only then need it accept the call.
    /// The collaborator `shaper` gets the storage to build in (the retained
    /// shape, else a blank line), the text, the spans, the shaping mode and
    /// the tab width, and returns the shaped line. The layout cache is
    /// left as it is: while the shape is not valid, it is not valid either.
    pub fn shape<F>(&mut self, shaper: F, tab_width: u16) -> (shape: &ShapeLine) where
        F: FnOnce(ShapeLine, &str, &AttrsList, Shaping, u16) -> ShapeLine,

        requires
            old(self).wf(),
            old(self)@.shape.value() is None ==> forall|storage: ShapeLine, text: &str|
                old(self)@.shape_storage(storage) && text@ == old(self)@.text ==> call_requires(
                    shaper,
                    (storage, text, &old(self)@.attrs_list, old(self)@.shaping, tab_width),
                ),
        ensures
            final(self).wf(),
            final(self)@.shape == Cached::Used(*shape),
            old(self)@.shape.value() is Some ==> final(self)@ == old(self)@,
            old(self)@.shape.value() is None ==> final(self)@ == (BufferLineView {
                shape: final(self)@.shape,
                ..old(self)@
            }) && shaped_by(old(self)@, shaper, tab_width, *shape),
    {
        if self.shape_opt.is_unused() {
            let line = match self.shape_opt.take_unused() {
                Some(line) => line,
                None => ShapeLine::empty(),
            };
            let text = self.text.as_str();
            let built = shaper(line, text, &self.attrs_list, self.shaping, tab_width);
            self.shape_opt.set_used(built);
            self.layout_opt.set_unused();
        }
        self.shape_opt.get().unwrap()
    }

    /// Lays the line out unless its layout is valid, and returns the visual
    /// lines. The line is shaped first where its shape is not valid. Each
    /// collaborator need accept its call only where the call is made. The
    /// collaborator `wrapper` gets the shape, the storage to build in (the
    /// retained lines, else none), the font size, the width to wrap at, the
    /// wrap and ellipsize modes, the alignment of the line, the advance to
    /// align monospace glyphs to, and the hinting mode, and returns the
    /// visual lines, each of which then gets the line height that its text
    /// asks for. The line does not remember these arguments: whoever changes
    /// one of them invalidates the layout first.
    pub fn layout<S, W>(
        &mut self,
        shaper: S,
        wrapper: W,
        font_size: i32,
        width_opt: Option<i32>,
        wrap: Wrap,
        ellipsize: Ellipsize,
        match_mono_width: Option<i32>,
        tab_width: u16,
        hinting: Hinting,
    ) -> (lines: &[LayoutLine]) where
        S: FnOnce(ShapeLine, &str, &AttrsList, Shaping, u16) -> ShapeLine,
        W: FnOnce(
            &ShapeLine,
            Vec<LayoutLine>,
            i32,
            Option<i32>,
            Wrap,
            Ellipsize,
            Option<Align>,
            Option<i32>,
            Hinting,
        ) -> Vec<LayoutLine>,

        requires
            old(self).wf(),
            old(self)@.layout.value() is None && old(self)@.shape.value() is None ==> forall|
                storage: ShapeLine,
                text: &str,
            |
                old(self)@.shape_storage(storage) && text@ == old(self)@.text ==> call_requires(
                    shaper,
                    (storage, text, &old(self)@.attrs_list, old(self)@.shaping, tab_width),
                ),
            old(self)@.layout.value() is None ==> forall|shape: ShapeLine, storage: Vec<LayoutLine>|
                old(self)@.layout_storage(storage) ==> call_requires(
                    wrapper,
                    (
                        &shape,
                        storage,
                        font_size,
                        width_opt,
                        wrap,
                        ellipsize,
                        old(self)@.align,
                        match_mono_width,
                        hinting,
                    ),
                ),
        ensures
            final(self).wf(),
            final(self)@.shape.value() is Some,
            final(self)@.layout.value() is Some,
            lines@ == final(self)@.layout.value()->0@,
            old(self)@.layout.value() is Some ==> final(self)@ == old(self)@,
            old(self)@.layout.value() is None ==> {
                &&& final(self)@ == (BufferLineView {
                    shape: final(self)@.shape,
                    layout: final(self)@.layout,
                    ..old(self)@
                })
                &&& old(self)@.shape.value() is Some ==> final(self)@.shape == old(self)@.shape
                &&& old(self)@.shape.value() is None ==> shaped_by(
                    old(self)@,
                    shaper,
                    tab_width,
                    final(self)@.shape.value()->0,
                )
                &&& laid_out_by(
                    old(self)@,
                    final(self)@.shape.value()->0,
                    wrapper,
                    font_size,
                    width_opt,
                    wrap,
                    ellipsize,
                    match_mono_width,
                    hinting,
                    final(self)@.layout.value()->0,
                )
            },
    {
        if self.layout_opt.is_unused() {
            let align = self.align;
            let layout = match self.layout_opt.take_unused() {
                Some(layout) => layout,
                None => Vec::with_capacity(1),
            };
            let shape = self.shape(shaper, tab_width);
            let ghost shaped = *shape;
            let mut built = wrapper(
                shape,
                layout,
                font_size,
                width_opt,
                wrap,
                ellipsize,
                align,
                match_mono_width,
                hinting,
            );
            let ghost wrapped = built;
            assign_line_heights(&mut built, &self.attrs_list);
            self.layout_opt.set_used(built);
            proof {
                assert(wrapped_by(
                    old(self)@,
                    shaped,
                    wrapper,
                    font_size,
                    width_opt,
                    wrap,
                    ellipsize,
                    match_mono_width,
                    hinting,
                    wrapped,
                ));
            }
        }
        self.layout_opt.get().unwrap().as_slice()
    }

    /// A line without text, in the state that [`Self::reset_new`] expects.
    pub fn empty() -> (line: Self)
        ensures
            line.wf(),
            line@.text == Seq::<char>::empty(),
            line@.ending == LineEnding::Absent,
            line@.attrs_list.spec_defaults() == Attrs::spec_new(),
            line@.attrs_list@ == Seq::<Span>::empty(),
            line@.align is None,
            line@.shape == Cached::<ShapeLine>::Empty,
            line@.layout == Cached::<Vec<LayoutLine>>::Empty,
            line@.shaping == Shaping::Advanced,
            line@.metadata is None,
    {
        Self {
            text: String::new(),
            ending: LineEnding::Absent,
            attrs_list: AttrsList::new(&Attrs::new()),
            align: None,
            shape_opt: Cached::Empty,
            layout_opt: Cached::Empty,
            shaping: Shaping::Advanced,
            metadata: None,
        }
    }

    /// Takes the spans out for reuse and leaves a list without spans over
    /// the plain defaults. The line should be given new content with
    /// [`Self::reset_new`] afterwards.
    pub fn reclaim_attrs(&mut self) -> (attrs_list: AttrsList)
        requires
            old(self).wf(),
        ensures
            final(self).wf(),
            attrs_list.wf(),
            attrs_list == old(self)@.attrs_list,
            final(self)@.attrs_list.spec_defaults() == Attrs::spec_new(),
            final(self)@.attrs_list@ == Seq::<Span>::empty(),
            final(self)@ == (BufferLineView {
                attrs_list: final(self)@.attrs_list,
                ..old(self)@
            }),
    {
        let mut attrs_list = AttrsList::new(&Attrs::new());
        core::mem::swap(&mut self.attrs_list, &mut attrs_list);
        attrs_list
    }

    /// Takes the text out for reuse of its storage, emptied, and leaves the
    /// line without text. The line should be given new content with
    /// [`Self::reset_new`] afterwards.
    pub fn reclaim_text(&mut self) -> (text: String)
        requires
            old(self).wf(),
        ensures
            final(self).wf(),
            text@ == Seq::<char>::empty(),
            final(self)@ == (BufferLineView { text: Seq::<char>::empty(), ..old(self)@ }),
    {
        let mut text = String::new();
        core::mem::swap(&mut self.text, &mut text);
        text.clear();
        text
    }
}

/// What the line `line` says of byte `i` once `other` is appended, as far as
/// the spans of `other` do not decide it: the defaults of `other` within
/// the appended text where the two defaults differ, else what `line` said.
pub open spec fn appended_defaults(line: BufferLineView, other: BufferLineView, i: int) -> Option<
    Attrs,
> {
    let len = line.bytes().len();
    if other.attrs_list.spec_defaults() != line.attrs_list.spec_defaults() && len <= i < len
        + other.bytes().len() {
        Some(other.attrs_list.spec_defaults())
    } else {
        line.attrs_list.attrs_at(i)
    }
}

/// The attributes that a span assigns to byte `i` once `other` is appended
/// to `line`: those of the span of `other` that covers it, moved up by the
/// length of `line`, else [`appended_defaults`].
pub open spec fn appended_attrs(line: BufferLineView, other: BufferLineView, i: int) -> Option<
    Attrs,
> {
    match other.attrs_list.attrs_at(i - line.bytes().len()) {
        Some(attrs) => Some(attrs),
        None => appended_defaults(line, other, i),
    }
}

/// True when `shape` is a result of `shaper` for the content of `line`,
/// started from the storage that the line retains.
pub open spec fn shaped_by<F>(line: BufferLineView, shaper: F, tab_width: u16, shape: ShapeLine) -> bool where
    F: FnOnce(ShapeLine, &str, &AttrsList, Shaping, u16) -> ShapeLine,
 {
    exists|storage: ShapeLine, text: &str|
        line.shape_storage(storage) && text@ == line.text && #[trigger] call_ensures(
            shaper,
            (storage, text, &line.attrs_list, line.shaping, tab_width),
            shape,
        )
}

/// True when `lines` is a result of `wrapper` for the shape `shape` of
/// `line` and the given arguments, started from the storage that the line
/// retains.
pub open spec fn wrapped_by<W>(
    line: BufferLineView,
    shape: ShapeLine,
    wrapper: W,
    font_size: i32,
    width_opt: Option<i32>,
    wrap: Wrap,
    ellipsize: Ellipsize,
    match_mono_width: Option<i32>,
    hinting: Hinting,
    lines: Vec<LayoutLine>,
) -> bool where
    W: FnOnce(
        &ShapeLine,
        Vec<LayoutLine>,
        i32,
        Option<i32>,
        Wrap,
        Ellipsize,
        Option<Align>,
        Option<i32>,
        Hinting,
    ) -> Vec<LayoutLine>,
 {
    exists|storage: Vec<LayoutLine>|
        line.layout_storage(storage) && #[trigger] call_ensures(
            wrapper,
            (
                &shape,
                storage,
                font_size,
                width_opt,
                wrap,
                ellipsize,
                line.align,
                match_mono_width,
                hinting,
            ),
            lines,
        )
}

/// True when `lines` is what the layout of `line` becomes: a result of
/// `wrapper` as in [`wrapped_by`], each visual line with the line height
/// that its text asks for.
pub open spec fn laid_out_by<W>(
    line: BufferLineView,
    shape: ShapeLine,
    wrapper: W,
    font_size: i32,
    width_opt: Option<i32>,
    wrap: Wrap,
    ellipsize: Ellipsize,
    match_mono_width: Option<i32>,
    hinting: Hinting,
    lines: Vec<LayoutLine>,
) -> bool where
    W: FnOnce(
        &ShapeLine,
        Vec<LayoutLine>,
        i32,
        Option<i32>,
        Wrap,
        Ellipsize,
        Option<Align>,
        Option<i32>,
        Hinting,
    ) -> Vec<LayoutLine>,
 {
    exists|wrapped: Vec<LayoutLine>| #[trigger]
        wrapped_by(
            line,
            shape,
            wrapper,
            font_size,
            width_opt,
            wrap,
            ellipsize,
            match_mono_width,
            hinting,
            wrapped,
        ) && heights_assigned(line.attrs_list, wrapped@, lines@)
}

} // verus!
