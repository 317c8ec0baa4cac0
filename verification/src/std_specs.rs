//! Contracts for functions of the standard library that the library calls.
//! Nothing here is proved: each states what the documentation of the
//! function says.
use vstd::prelude::*;
use vstd::utf8::{encode_utf8, is_char_boundary};

verus! {

/// `String::clear` of the standard library: the string is empty afterwards.
pub assume_specification[ String::clear ](s: &mut String)
    ensures
        final(s)@ == Seq::<char>::empty(),
;

/// `String::split_off` of the standard library. Where `at` lies on a
/// character boundary of the string, and so within it, the bytes before `at`
/// stay and the bytes from `at` on are returned.
pub assume_specification[ String::split_off ](s: &mut String, at: usize) -> (tail: String)
    requires
        is_char_boundary(encode_utf8(old(s)@), at as int),
    ensures
        encode_utf8(final(s)@) == encode_utf8(old(s)@).subrange(0, at as int),
        encode_utf8(tail@) == encode_utf8(old(s)@).subrange(
            at as int,
            encode_utf8(old(s)@).len() as int,
        ),
;

/// `core::slice::from_ref` of the standard library: the slice of length one
/// that holds the referenced value.
pub assume_specification<T>[ core::slice::from_ref ](s: &T) -> (slice: &[T])
    ensures
        slice@ == seq![*s],
;

} // verus!
