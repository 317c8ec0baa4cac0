//! What holds of every paragraph line.
use vstd::prelude::*;
use crate::attrs_list_laws::lemma_lists_determined;
use crate::attrs_list::AttrsList;
use crate::buffer_line::BufferLineView;
use crate::layout::{Align, LineEnding};
use crate::text::lemma_encode_concat;

verus! {

/// Setting the content that a line holds already changes nothing: the
/// caches keep what they hold, valid or not, and so does the metadata.
pub proof fn lemma_set_same_text_changes_nothing(
    line: BufferLineView,
    text: Seq<char>,
    ending: LineEnding,
    attrs_list: AttrsList,
)
    requires
        line.holds(text, ending, attrs_list),
    ensures
        line.with_text(text, ending, attrs_list) == line,
        line.with_text(text, ending, attrs_list).shape == line.shape,
        line.with_text(text, ending, attrs_list).layout == line.layout,
{
}

/// Setting the content is idempotent: setting the same content a second
/// time changes nothing.
pub proof fn lemma_set_text_idempotent(
    line: BufferLineView,
    text: Seq<char>,
    ending: LineEnding,
    attrs_list: AttrsList,
)
    ensures
        line.with_text(text, ending, attrs_list).with_text(text, ending, attrs_list)
            == line.with_text(text, ending, attrs_list),
{
}

/// The other setters are idempotent too, and each leaves a line alone that
/// has the value already.
pub proof fn lemma_setters_idempotent(
    line: BufferLineView,
    ending: LineEnding,
    attrs_list: AttrsList,
    align: Option<Align>,
)
    ensures
        line.with_ending(ending).with_ending(ending) == line.with_ending(ending),
        line.with_attrs_list(attrs_list).with_attrs_list(attrs_list) == line.with_attrs_list(
            attrs_list,
        ),
        line.with_align(align).with_align(align) == line.with_align(align),
        line.with_ending(line.ending) == line,
        line.with_attrs_list(line.attrs_list) == line,
        line.with_align(line.align) == line,
{
}

/// Each mutation invalidates its own tier of caches and no other: a new
/// alignment leaves a valid shape valid; a new ending or new spans
/// invalidate both caches; none of them makes a cache valid.
pub proof fn lemma_setters_invalidate_their_tier(
    line: BufferLineView,
    ending: LineEnding,
    attrs_list: AttrsList,
    align: Option<Align>,
)
    ensures
        line.with_align(align).shape == line.shape,
        align != line.align ==> line.with_align(align).layout.value() is None,
        ending != line.ending ==> line.with_ending(ending).shape.value() is None
            && line.with_ending(ending).layout.value() is None,
        !attrs_list.same_as(&line.attrs_list) ==> line.with_attrs_list(attrs_list).shape.value()
            is None && line.with_attrs_list(attrs_list).layout.value() is None,
        line.reset().shape.value() is None && line.reset().layout.value() is None,
        line.reset_shaping().shape.value() is None && line.reset_shaping().layout.value() is None,
        line.reset_layout().shape == line.shape && line.reset_layout().layout.value() is None,
{
}

/// The metadata never outlives an invalidation: every reset clears it, and
/// a setter that changes the line clears it too, while one that changes
/// nothing keeps it.
pub proof fn lemma_invalidation_clears_metadata(
    line: BufferLineView,
    text: Seq<char>,
    ending: LineEnding,
    attrs_list: AttrsList,
    align: Option<Align>,
)
    ensures
        line.reset().metadata is None,
        line.reset_shaping().metadata is None,
        line.reset_layout().metadata is None,
        line.with_text(text, ending, attrs_list) != line ==> line.with_text(
            text,
            ending,
            attrs_list,
        ).metadata is None,
        line.with_ending(ending) != line ==> line.with_ending(ending).metadata is None,
        line.with_attrs_list(attrs_list) != line ==> line.with_attrs_list(attrs_list).metadata
            is None,
        line.with_align(align) != line ==> line.with_align(align).metadata is None,
{
}

/// A cache is valid only for the content that it was computed from: a
/// setter that changes the text, the ending or the spans of a line leaves
/// neither cache valid, and one that changes the alignment leaves the
/// layout cache invalid.
pub proof fn lemma_change_of_content_invalidates(
    line: BufferLineView,
    text: Seq<char>,
    ending: LineEnding,
    attrs_list: AttrsList,
    align: Option<Align>,
)
    ensures
        ({
            let after = line.with_text(text, ending, attrs_list);
            after.text != line.text || after.ending != line.ending || after.attrs_list
                != line.attrs_list ==> after.shape.value() is None && after.layout.value() is None
        }),
        line.with_ending(ending).ending != line.ending ==> line.with_ending(ending).shape.value()
            is None && line.with_ending(ending).layout.value() is None,
        line.with_attrs_list(attrs_list).attrs_list != line.attrs_list ==> line.with_attrs_list(
            attrs_list,
        ).shape.value() is None && line.with_attrs_list(attrs_list).layout.value() is None,
        line.with_align(align).align != line.align ==> line.with_align(align).layout.value()
            is None,
{
}

/// While a line is well formed, a valid layout comes with a valid shape; so
/// after a layout both caches are populated, and they stay so under every
/// change that leaves the view of the line as it is.
pub proof fn lemma_valid_layout_has_valid_shape(line: BufferLineView)
    requires
        line.wf(),
        line.layout.value() is Some,
    ensures
        line.shape.value() is Some,
{
}

/// Appending undoes splitting: where a line is split at any byte index and
/// the tail is appended to the head again, the result has the text, the
/// ending, the spans, the alignment and the shaping mode of the line before
/// the split.
pub proof fn lemma_split_append_inverse(
    line: BufferLineView,
    index: int,
    head: BufferLineView,
    tail: BufferLineView,
    joined: BufferLineView,
)
    requires
        line.attrs_list.wf(),
        line.split_at(index, head, tail),
        head.appended(tail, joined),
    ensures
        joined.text == line.text,
        joined.ending == line.ending,
        joined.attrs_list.same_as(&line.attrs_list),
        joined.align == line.align,
        joined.shaping == line.shaping,
{
    lemma_lists_determined(joined.attrs_list, line.attrs_list);
}

/// The two parts of a split line hold, byte for byte, the text of the line:
/// the head has the bytes before the index, the tail those from it on.
pub proof fn lemma_split_partitions_bytes(
    line: BufferLineView,
    index: int,
    head: BufferLineView,
    tail: BufferLineView,
)
    requires
        line.split_at(index, head, tail),
    ensures
        0 <= index <= line.bytes().len(),
        head.bytes() == line.bytes().subrange(0, index),
        tail.bytes() == line.bytes().subrange(index, line.bytes().len() as int),
{
    lemma_encode_concat(head.text, tail.text);
}

} // verus!
