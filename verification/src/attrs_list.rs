//! The style spans of a paragraph: attributes for byte ranges of its text,
//! over a default that applies wherever no span does.
use vstd::prelude::*;
use vstd::std_specs::cmp::PartialEqSpecImpl;
use crate::attrs::Attrs;
use core::ops::Range;

verus! {

/// A half-open byte range of a paragraph with the attributes of its text.
#[derive(Clone, Copy, Debug, PartialEq, Eq, Hash, Structural)]
pub struct Span {
    pub start: usize,
    pub end: usize,
    pub attrs: Attrs,
}

impl Span {
    /// True when the byte at index `i` lies in the span.
    pub open spec fn covers(self, i: int) -> bool {
        self.start <= i < self.end
    }
}

/// True of spans that are non-empty, sorted and disjoint, and in which no
/// two neighbours with equal attributes touch.
pub open spec fn ordered(spans: Seq<Span>) -> bool {
    &&& forall|k: int| 0 <= k < spans.len() ==> (#[trigger] spans[k]).start < spans[k].end
    &&& forall|j: int, k: int|
        0 <= j < k < spans.len() ==> (#[trigger] spans[j]).end <= (#[trigger] spans[k]).start
    &&& forall|j: int, k: int|
        0 <= j && k == j + 1 && k < spans.len() && (#[trigger] spans[j]).end == (
        #[trigger] spans[k]).start ==> spans[j].attrs != spans[k].attrs
}

/// The attributes of the span that covers the byte at index `i`, if one
/// does.
pub open spec fn lookup(spans: Seq<Span>, i: int) -> Option<Attrs>
    decreases spans.len(),
{
    if spans.len() == 0 {
        None
    } else if spans.last().covers(i) {
        Some(spans.last().attrs)
    } else {
        lookup(spans.drop_last(), i)
    }
}

/// The end of the last span, or zero where there is no span.
pub open spec fn upper(spans: Seq<Span>) -> int {
    if spans.len() == 0 {
        0
    } else {
        spans.last().end as int
    }
}

/// In disjoint spans, the span that covers an index decides the lookup.
pub proof fn lemma_lookup_covering(spans: Seq<Span>, k: int, i: int)
    requires
        ordered(spans),
        0 <= k < spans.len(),
        spans[k].covers(i),
    ensures
        lookup(spans, i) == Some(spans[k].attrs),
    decreases spans.len(),
{
    if k < spans.len() - 1 {
        lemma_lookup_covering(spans.drop_last(), k, i);
    }
}

/// Where no span covers an index, the lookup finds nothing.
pub proof fn lemma_lookup_uncovered(spans: Seq<Span>, i: int)
    requires
        forall|k: int| 0 <= k < spans.len() ==> !(#[trigger] spans[k]).covers(i),
    ensures
        lookup(spans, i) is None,
    decreases spans.len(),
{
    if spans.len() > 0 {
        lemma_lookup_uncovered(spans.drop_last(), i);
    }
}

/// What the lookup finds is the attributes of a span that covers the index.
pub proof fn lemma_lookup_found(spans: Seq<Span>, i: int) -> (k: int)
    requires
        lookup(spans, i) is Some,
    ensures
        0 <= k < spans.len(),
        spans[k].covers(i),
        lookup(spans, i) == Some(spans[k].attrs),
    decreases spans.len(),
{
    if spans.last().covers(i) {
        spans.len() - 1
    } else {
        lemma_lookup_found(spans.drop_last(), i)
    }
}

/// No span covers an index at or beyond the end of the last span, nor a
/// negative one.
pub proof fn lemma_lookup_outside(spans: Seq<Span>, i: int)
    requires
        ordered(spans),
        i < 0 || i >= upper(spans),
    ensures
        lookup(spans, i) is None,
{
    lemma_lookup_uncovered(spans, i);
}

/// Appends a span that lies after all spans of `out`, merging it into the
/// last one where the two touch and have equal attributes.
fn push_merged(out: &mut Vec<Span>, span: Span)
    requires
        ordered(old(out)@),
        span.start < span.end,
        upper(old(out)@) <= span.start,
    ensures
        ordered(final(out)@),
        upper(final(out)@) == span.end,
        final(out)@.len() > 0,
        forall|i: int|
            #[trigger] lookup(final(out)@, i) == (if span.covers(i) {
                Some(span.attrs)
            } else {
                lookup(old(out)@, i)
            }),
{
    let n = out.len();
    let ghost before = out@;
    if n > 0 {
        let last = out[n - 1];
        if last.end == span.start && last.attrs == span.attrs {
            let merged = Span { start: last.start, end: span.end, attrs: span.attrs };
            out.pop();
            out.push(merged);
            proof {
                let after = out@;
                assert(after.drop_last() == before.drop_last());
                assert forall|j: int, k: int|
                    0 <= j < k < after.len() implies (#[trigger] after[j]).end <= (
                #[trigger] after[k]).start by {
                }
                assert forall|j: int, k: int|
                    0 <= j && k == j + 1 && k < after.len() && (#[trigger] after[j]).end == (
                    #[trigger] after[k]).start implies after[j].attrs != after[k].attrs by {
                }
            }
            return ;
        }
    }
    out.push(span);
    proof {
        let after = out@;
        assert(after.drop_last() == before);
        assert forall|j: int, k: int| 0 <= j < k < after.len() implies (#[trigger] after[j]).end <= (
        #[trigger] after[k]).start by {
        }
        assert forall|j: int, k: int|
            0 <= j && k == j + 1 && k < after.len() && (#[trigger] after[j]).end == (
            #[trigger] after[k]).start implies after[j].attrs != after[k].attrs by {
        }
    }
}

/// Appends to `out` what the spans of `src` cover between `lo` and `hi`,
/// moved down by `shift`.
fn append_window(out: &mut Vec<Span>, src: &Vec<Span>, lo: usize, hi: usize, shift: usize)
    requires
        ordered(old(out)@),
        ordered(src@),
        shift <= lo <= hi,
        upper(old(out)@) <= lo - shift,
    ensures
        ordered(final(out)@),
        upper(final(out)@) <= (if upper(old(out)@) <= hi - shift {
            hi - shift
        } else {
            upper(old(out)@)
        }),
        forall|i: int|
            #[trigger] lookup(final(out)@, i) == (if lo - shift <= i < hi - shift {
                lookup(src@, i + shift)
            } else {
                lookup(old(out)@, i)
            }),
{
    let ghost before = out@;
    let n = src.len();
    let mut k: usize = 0;
    proof {
        assert forall|i: int|
            #[trigger] lookup(out@, i) == (if lo - shift <= i < hi - shift {
                lookup(src@.subrange(0, 0), i + shift)
            } else {
                lookup(before, i)
            }) by {
            if lo - shift <= i < hi - shift {
                lemma_lookup_outside(before, i);
            }
        }
    }
    while k < n
        invariant
            n == src@.len(),
            k <= n,
            ordered(out@),
            ordered(src@),
            shift <= lo <= hi,
            upper(before) <= lo - shift,
            upper(out@) <= (if upper(before) <= hi - shift {
                hi - shift
            } else {
                upper(before)
            }),
            k > 0 && src@[k - 1].end > lo ==> upper(out@) + shift <= src@[k - 1].end,
            k == 0 || src@[k - 1].end <= lo ==> upper(out@) <= lo - shift,
            forall|i: int|
                #[trigger] lookup(out@, i) == (if lo - shift <= i < hi - shift {
                    lookup(src@.subrange(0, k as int), i + shift)
                } else {
                    lookup(before, i)
                }),
        decreases n - k,
    {
        let s = src[k];
        let start = if s.start > lo {
            s.start
        } else {
            lo
        };
        let end = if s.end < hi {
            s.end
        } else {
            hi
        };
        let ghost prefix = src@.subrange(0, k as int);
        let ghost longer = src@.subrange(0, k as int + 1);
        proof {
            assert(longer.drop_last() == prefix);
        }
        if start < end {
            let clipped = Span { start: start - shift, end: end - shift, attrs: s.attrs };
            push_merged(out, clipped);
        }
        k += 1;
    }
    proof {
        assert(src@.subrange(0, n as int) == src@);
    }
}

/// The style spans of a paragraph.
#[derive(Clone, Debug)]
pub struct AttrsList {
    defaults: Attrs,
    spans: Vec<Span>,
}

impl View for AttrsList {
    type V = Seq<Span>;

    /// The spans in the order of their ranges.
    closed spec fn view(&self) -> Seq<Span> {
        self.spans@
    }
}

impl AttrsList {
    /// The attributes of text that no span covers.
    pub closed spec fn spec_defaults(&self) -> Attrs {
        self.defaults
    }

    /// True when the spans are non-empty, sorted and disjoint, and no two
    /// neighbours with equal attributes touch.
    pub open spec fn wf(&self) -> bool {
        ordered(self@)
    }

    /// The attributes of the span that covers the byte at index `i`, if one
    /// does.
    pub open spec fn attrs_at(&self, i: int) -> Option<Attrs> {
        lookup(self@, i)
    }

    /// The attributes of the byte at index `i`: those of the span that
    /// covers it, else the defaults.
    pub open spec fn spec_get_span(&self, i: int) -> Attrs {
        match self.attrs_at(i) {
            Some(attrs) => attrs,
            None => self.spec_defaults(),
        }
    }

    /// True when the two lists have equal defaults and equal spans.
    pub open spec fn same_as(&self, other: &Self) -> bool {
        self.spec_defaults() == other.spec_defaults() && self@ == other@
    }

    /// The end of the last span, or zero where there is no span.
    pub open spec fn spec_upper(&self) -> int {
        upper(self@)
    }

    /// A list without spans.
    pub fn new(defaults: &Attrs) -> (list: Self)
        ensures
            list.wf(),
            list.spec_defaults() == *defaults,
            list@ == Seq::<Span>::empty(),
    {
        AttrsList { defaults: *defaults, spans: Vec::new() }
    }

    /// The attributes of text that no span covers.
    pub fn defaults(&self) -> (attrs: Attrs)
        ensures
            attrs == self.spec_defaults(),
    {
        self.defaults
    }

    /// The spans in the order of their ranges.
    pub fn spans(&self) -> (spans: &[Span])
        ensures
            spans@ == self@,
    {
        self.spans.as_slice()
    }

    /// The end of the last span, or zero where there is no span.
    pub fn upper(&self) -> (end: usize)
        ensures
            end == self.spec_upper(),
    {
        let n = self.spans.len();
        if n == 0 {
            0
        } else {
            self.spans[n - 1].end
        }
    }

    /// Removes all spans.
    pub fn clear_spans(&mut self)
        ensures
            final(self).wf(),
            final(self).spec_defaults() == old(self).spec_defaults(),
            final(self)@ == Seq::<Span>::empty(),
    {
        self.spans.clear();
    }

    /// Gives the bytes of `range` the attributes `attrs`, replacing what the
    /// list said of them before. An empty range changes nothing.
    pub fn add_span(&mut self, range: Range<usize>, attrs: &Attrs)
        requires
            old(self).wf(),
        ensures
            final(self).wf(),
            final(self).spec_defaults() == old(self).spec_defaults(),
            range.start >= range.end ==> final(self)@ == old(self)@,
            forall|i: int|
                #[trigger] final(self).attrs_at(i) == (if range.start <= i < range.end {
                    Some(*attrs)
                } else {
                    old(self).attrs_at(i)
                }),
    {
        if range.start >= range.end {
            return ;
        }
        let ghost before = self.spans@;
        let mut out: Vec<Span> = Vec::new();
        append_window(&mut out, &self.spans, 0, range.start, 0);
        push_merged(&mut out, Span { start: range.start, end: range.end, attrs: *attrs });
        append_window(&mut out, &self.spans, range.end, usize::MAX, 0);
        proof {
            assert forall|i: int|
                #[trigger] lookup(out@, i) == (if range.start <= i < range.end {
                    Some(*attrs)
                } else {
                    lookup(before, i)
                }) by {
                if i < 0 || i >= usize::MAX {
                    lemma_lookup_outside(before, i);
                }
            }
        }
        self.spans = out;
    }

    /// The attributes of the byte at `index`: those of the span that covers
    /// it, else the defaults.
    pub fn get_span(&self, index: usize) -> (attrs: Attrs)
        requires
            self.wf(),
        ensures
            attrs == self.spec_get_span(index as int),
    {
        let n = self.spans.len();
        let mut k: usize = 0;
        while k < n
            invariant
                n == self.spans@.len(),
                k <= n,
                forall|j: int| 0 <= j < k ==> !(#[trigger] self.spans@[j]).covers(index as int),
                self.wf(),
            decreases n - k,
        {
            let s = self.spans[k];
            if s.start <= index && index < s.end {
                proof {
                    lemma_lookup_covering(self.spans@, k as int, index as int);
                }
                return s.attrs;
            }
            k += 1;
        }
        proof {
            lemma_lookup_uncovered(self.spans@, index as int);
        }
        self.defaults
    }

    /// Splits the list at byte `index`: this list keeps what lies before it,
    /// the result gets what lies at or after it, moved down by `index`.
    pub fn split_off(&mut self, index: usize) -> (tail: Self)
        requires
            old(self).wf(),
        ensures
            final(self).wf(),
            tail.wf(),
            final(self).spec_defaults() == old(self).spec_defaults(),
            tail.spec_defaults() == old(self).spec_defaults(),
            forall|i: int|
                #[trigger] final(self).attrs_at(i) == (if i < index {
                    old(self).attrs_at(i)
                } else {
                    None
                }),
            forall|i: int|
                #[trigger] tail.attrs_at(i) == (if i >= 0 {
                    old(self).attrs_at(i + index)
                } else {
                    None
                }),
    {
        let ghost before = self.spans@;
        let mut rest: Vec<Span> = Vec::new();
        append_window(&mut rest, &self.spans, index, usize::MAX, index);
        let mut kept: Vec<Span> = Vec::new();
        append_window(&mut kept, &self.spans, 0, index, 0);
        proof {
            assert forall|i: int|
                #[trigger] lookup(kept@, i) == (if i < index {
                    lookup(before, i)
                } else {
                    None
                }) by {
                if i < 0 {
                    lemma_lookup_outside(before, i);
                }
            }
            assert forall|i: int|
                #[trigger] lookup(rest@, i) == (if i >= 0 {
                    lookup(before, i + index)
                } else {
                    None
                }) by {
                if i >= usize::MAX - index {
                    lemma_lookup_outside(before, i + index);
                }
            }
        }
        self.spans = kept;
        AttrsList { defaults: self.defaults, spans: rest }
    }
}

impl PartialEq for AttrsList {
    /// True when the two lists have equal defaults and equal spans.
    fn eq(&self, other: &Self) -> (r: bool) {
        if self.defaults != other.defaults {
            return false;
        }
        let n = self.spans.len();
        if n != other.spans.len() {
            return false;
        }
        let mut k: usize = 0;
        while k < n
            invariant
                n == self.spans@.len(),
                n == other.spans@.len(),
                k <= n,
                forall|j: int| 0 <= j < k ==> self.spans@[j] == other.spans@[j],
            decreases n - k,
        {
            if self.spans[k] != other.spans[k] {
                return false;
            }
            k += 1;
        }
        proof {
            assert(self.spans@ =~= other.spans@);
        }
        true
    }
}

impl PartialEqSpecImpl for AttrsList {
    open spec fn obeys_eq_spec() -> bool {
        true
    }

    /// Two lists are equal when their defaults and their spans are.
    open spec fn eq_spec(&self, other: &Self) -> bool {
        self.same_as(other)
    }
}

} // verus!
