//! Positions in a text.
use vstd::prelude::*;

verus! {

/// Which of two visual positions a cursor takes where a byte offset has
/// two, as at a line break or a change of direction.
#[derive(Clone, Copy, Debug, PartialEq, Eq, Hash, PartialOrd, Ord, Structural)]
pub enum Affinity {
    /// The position that belongs to the text before the offset.
    Before,
    /// The position that belongs to the text after the offset.
    After,
}

impl Affinity {
    /// The place of the affinity in their order: `Before` comes first.
    pub open spec fn rank(self) -> int {
        match self {
            Affinity::Before => 0,
            Affinity::After => 1,
        }
    }
}

/// A position in a text: a paragraph, a byte offset in it, and an affinity.
#[derive(Clone, Copy, Debug, PartialEq, Eq, Hash, PartialOrd, Ord, Structural)]
pub struct Cursor {
    /// Index of the paragraph.
    pub line: usize,
    /// Byte offset in the text of the paragraph.
    pub index: usize,
    /// Which side of the offset the cursor belongs to.
    pub affinity: Affinity,
}

impl Cursor {
    /// The cursor with the given fields.
    pub open spec fn spec_new_with_affinity(line: usize, index: usize, affinity: Affinity) -> Self {
        Cursor { line, index, affinity }
    }

    /// True when `self` comes before `other` or is equal to it, in the
    /// order by paragraph, then offset, then affinity.
    pub open spec fn spec_not_after(self, other: Self) -> bool {
        if self.line != other.line {
            self.line < other.line
        } else if self.index != other.index {
            self.index < other.index
        } else {
            self.affinity.rank() <= other.affinity.rank()
        }
    }

    /// True when `self` lies between `start` and `end`, both included.
    pub open spec fn spec_within(self, start: Self, end: Self) -> bool {
        start.spec_not_after(self) && self.spec_not_after(end)
    }

    /// A cursor before the given offset.
    pub fn new(line: usize, index: usize) -> (cursor: Self)
        ensures
            cursor == Self::spec_new_with_affinity(line, index, Affinity::Before),
    {
        Cursor { line, index, affinity: Affinity::Before }
    }

    /// A cursor at the given offset with the given affinity.
    #[verifier::when_used_as_spec(spec_new_with_affinity)]
    pub fn new_with_affinity(line: usize, index: usize, affinity: Affinity) -> (cursor: Self)
        ensures
            cursor == Self::spec_new_with_affinity(line, index, affinity),
    {
        Cursor { line, index, affinity }
    }

    /// True when `self` comes before `other` or is equal to it.
    #[verifier::when_used_as_spec(spec_not_after)]
    pub fn not_after(self, other: Self) -> (r: bool)
        ensures
            r == self.spec_not_after(other),
    {
        if self.line != other.line {
            self.line < other.line
        } else if self.index != other.index {
            self.index < other.index
        } else {
            match self.affinity {
                Affinity::Before => true,
                Affinity::After => other.affinity == Affinity::After,
            }
        }
    }

    /// True when `self` lies between `start` and `end`, both included.
    #[verifier::when_used_as_spec(spec_within)]
    pub fn within(self, start: Self, end: Self) -> (r: bool)
        ensures
            r == self.spec_within(start, end),
    {
        start.not_after(self) && self.not_after(end)
    }
}

} // verus!
