//! Strings as byte sequences: lengths, comparison and splitting.
use vstd::prelude::*;
use vstd::utf8::{encode_utf8, encode_utf8_decode_utf8, is_char_boundary};

verus! {

/// The encoding of a concatenation is the concatenation of the encodings.
pub proof fn lemma_encode_concat(a: Seq<char>, b: Seq<char>)
    ensures
        encode_utf8(a + b) == encode_utf8(a) + encode_utf8(b),
    decreases a.len(),
{
    if a.len() > 0 {
        assert((a + b).drop_first() == a.drop_first() + b);
        lemma_encode_concat(a.drop_first(), b);
    }
}

/// Texts with the same encoding are the same.
pub proof fn lemma_encode_injective(a: Seq<char>, b: Seq<char>)
    requires
        encode_utf8(a) == encode_utf8(b),
    ensures
        a == b,
{
    encode_utf8_decode_utf8(a);
    encode_utf8_decode_utf8(b);
}

/// Two texts whose encodings are the two parts of the encoding of a third
/// make up that third.
pub proof fn lemma_split_rejoins(whole: Seq<char>, head: Seq<char>, tail: Seq<char>, at: int)
    requires
        0 <= at <= encode_utf8(whole).len(),
        encode_utf8(head) == encode_utf8(whole).subrange(0, at),
        encode_utf8(tail) == encode_utf8(whole).subrange(at, encode_utf8(whole).len() as int),
    ensures
        head + tail == whole,
{
    let bytes = encode_utf8(whole);
    lemma_encode_concat(head, tail);
    assert(bytes.subrange(0, at) + bytes.subrange(at, bytes.len() as int) == bytes);
    lemma_encode_injective(head + tail, whole);
}

/// A character boundary of a text lies within its encoding.
pub proof fn lemma_boundary_within(text: Seq<char>, at: int)
    requires
        is_char_boundary(encode_utf8(text), at),
    ensures
        0 <= at <= encode_utf8(text).len(),
{
    vstd::utf8::encode_utf8_valid_utf8(text);
}

/// The length of a string in bytes.
pub fn byte_len(s: &str) -> (n: usize)
    ensures
        n == encode_utf8(s@).len(),
{
    s.as_bytes().len()
}

/// True when the two strings hold the same text.
pub fn same_text(a: &str, b: &str) -> (r: bool)
    ensures
        r == (a@ == b@),
{
    let x = a.as_bytes();
    let y = b.as_bytes();
    if x.len() != y.len() {
        return false;
    }
    let n = x.len();
    let mut k: usize = 0;
    while k < n
        invariant
            n == x@.len(),
            n == y@.len(),
            k <= n,
            forall|j: int| 0 <= j < k ==> x@[j] == y@[j],
            x@ == encode_utf8(a@),
            y@ == encode_utf8(b@),
        decreases n - k,
    {
        if x[k] != y[k] {
            return false;
        }
        k += 1;
    }
    proof {
        assert(x@ =~= y@);
        lemma_encode_injective(a@, b@);
    }
    true
}

} // verus!
