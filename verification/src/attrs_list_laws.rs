//! What holds of every span list.
use vstd::prelude::*;
use crate::attrs_list::{
    lemma_lookup_covering, lemma_lookup_found, lookup, ordered, AttrsList, Span,
};

verus! {

/// Without its last span, a list says of every index what it said before,
/// except of those that the last span covers.
proof fn lemma_lookup_drop_last(spans: Seq<Span>, i: int)
    requires
        ordered(spans),
        spans.len() > 0,
    ensures
        lookup(spans.drop_last(), i) == (if spans.last().covers(i) {
            None
        } else {
            lookup(spans, i)
        }),
{
    let rest = spans.drop_last();
    if spans.last().covers(i) && lookup(rest, i) is Some {
        // A span of the rest that covered the index would overlap the last.
        lemma_lookup_found(rest, i);
    }
}

/// The last spans of two lists that say the same of every index are equal.
proof fn lemma_same_last(a: Seq<Span>, b: Seq<Span>)
    requires
        ordered(a),
        ordered(b),
        a.len() > 0,
        b.len() > 0,
        forall|i: int| lookup(a, i) == lookup(b, i),
    ensures
        a.last() == b.last(),
{
    lemma_end_bounded(a, b);
    lemma_end_bounded(b, a);
    lemma_start_bounded(a, b);
    lemma_start_bounded(b, a);
    // Both cover the index at which they start, so they agree on the
    // attributes too.
    lemma_lookup_covering(a, a.len() - 1, a.last().start as int);
}

/// Where two lists say the same of every index, the first does not end
/// after the second.
proof fn lemma_end_bounded(a: Seq<Span>, b: Seq<Span>)
    requires
        ordered(a),
        ordered(b),
        a.len() > 0,
        b.len() > 0,
        forall|i: int| lookup(a, i) == lookup(b, i),
    ensures
        a.last().end <= b.last().end,
{
    // The last index that `a` covers is covered by a span of `b`.
    lemma_lookup_found(b, a.last().end - 1);
}

/// Where two lists say the same of every index and end at the same index,
/// the last span of the first does not start before that of the second.
proof fn lemma_start_bounded(a: Seq<Span>, b: Seq<Span>)
    requires
        ordered(a),
        ordered(b),
        a.len() > 0,
        b.len() > 0,
        a.last().end == b.last().end,
        forall|i: int| lookup(a, i) == lookup(b, i),
    ensures
        a.last().start >= b.last().start,
{
    let la = a.last();
    let lb = b.last();
    if la.start < lb.start {
        // The byte before the last span of `b` lies in the last span of `a`,
        // so `b` has a span there that touches its last one and has the
        // same attributes.
        let i = lb.start - 1;
        lemma_lookup_covering(a, a.len() - 1, lb.start as int);
        let k = lemma_lookup_found(b, i);
        if k < b.len() - 2 {
            assert(b[k].end <= b[k + 1].start);
        }
    }
}

/// Well-formed spans are determined by what they say of every index: two
/// such sequences that assign the same attributes to every index are the
/// same sequence.
pub proof fn lemma_spans_determined(a: Seq<Span>, b: Seq<Span>)
    requires
        ordered(a),
        ordered(b),
        forall|i: int| lookup(a, i) == lookup(b, i),
    ensures
        a == b,
    decreases a.len(),
{
    if a.len() == 0 {
        if b.len() > 0 {
            lemma_lookup_covering(b, b.len() - 1, b.last().start as int);
        }
    } else if b.len() == 0 {
        lemma_lookup_covering(a, a.len() - 1, a.last().start as int);
    } else {
        lemma_same_last(a, b);
        let shorter_a = a.drop_last();
        let shorter_b = b.drop_last();
        assert forall|i: int| lookup(shorter_a, i) == lookup(shorter_b, i) by {
            lemma_lookup_drop_last(a, i);
            lemma_lookup_drop_last(b, i);
        }
        lemma_spans_determined(shorter_a, shorter_b);
        assert(a =~= shorter_a.push(a.last()));
    }
}

/// Two well-formed lists with the same defaults that assign the same
/// attributes to every index are equal.
pub proof fn lemma_lists_determined(a: AttrsList, b: AttrsList)
    requires
        a.wf(),
        b.wf(),
        a.spec_defaults() == b.spec_defaults(),
        forall|i: int| a.attrs_at(i) == b.attrs_at(i),
    ensures
        a.same_as(&b),
{
    assert forall|i: int| lookup(a@, i) == lookup(b@, i) by {
        assert(a.attrs_at(i) == b.attrs_at(i));
    }
    lemma_spans_determined(a@, b@);
}

} // verus!
