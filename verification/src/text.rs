//! Prefix tests on strings, carried out on their UTF-8 bytes.

use vstd::prelude::*;
use vstd::utf8::*;

verus! {

/// Encoding distributes over concatenation.
proof fn lemma_encode_concat(a: Seq<char>, b: Seq<char>)
    ensures
        encode_utf8(a + b) == encode_utf8(a) + encode_utf8(b),
    decreases a.len(),
{
    if a.len() == 0 {
        assert(a + b == b);
        assert(encode_utf8(a) + encode_utf8(b) == encode_utf8(b));
    } else {
        assert((a + b).drop_first() == a.drop_first() + b);
        lemma_encode_concat(a.drop_first(), b);
        assert(encode_utf8(a + b) == encode_scalar(a[0] as u32) + (encode_utf8(a.drop_first())
            + encode_utf8(b)));
        assert(encode_scalar(a[0] as u32) + (encode_utf8(a.drop_first()) + encode_utf8(b)) == (
        encode_scalar(a[0] as u32) + encode_utf8(a.drop_first())) + encode_utf8(b));
    }
}

/// In valid UTF-8, the end of a run of ASCII bytes at the start is a
/// character boundary.
proof fn lemma_ascii_run_ends_on_boundary(bytes: Seq<u8>, n: int)
    requires
        valid_utf8(bytes),
        0 <= n <= bytes.len(),
        forall|i: int| 0 <= i < n ==> bytes[i] <= 0x7f,
    ensures
        is_char_boundary(bytes, n),
    decreases n,
{
    if n > 0 {
        assert(bytes[0] <= 0x7f);
        assert(is_leading_byte_width_1(bytes[0]));
        let rest = pop_first_scalar(bytes);
        assert(rest == bytes.subrange(1, bytes.len() as int));
        assert forall|i: int| 0 <= i < n - 1 implies rest[i] <= 0x7f by {
            assert(rest[i] == bytes[i + 1]);
        }
        lemma_ascii_run_ends_on_boundary(rest, n - 1);
    }
}

/// Strings are equal exactly when their encodings are.
proof fn lemma_encode_injective(a: Seq<char>, b: Seq<char>)
    ensures
        (encode_utf8(a) == encode_utf8(b)) <==> a == b,
{
    encode_utf8_decode_utf8(a);
    encode_utf8_decode_utf8(b);
}

/// Whether two byte slices hold the same bytes.
pub fn bytes_equal(a: &[u8], b: &[u8]) -> (same: bool)
    ensures
        same == (a@ == b@),
{
    if a.len() != b.len() {
        return false;
    }
    let mut i: usize = 0;
    while i < a.len()
        invariant
            a@.len() == b@.len(),
            i <= a@.len(),
            forall|k: int| 0 <= k < i ==> a@[k] == b@[k],
        decreases a@.len() - i,
    {
        if a[i] != b[i] {
            return false;
        }
        i = i + 1;
    }
    assert(a@ =~= b@);
    true
}

/// Whether two strings hold the same characters.
pub fn str_equal(a: &str, b: &str) -> (same: bool)
    ensures
        same == (a@ == b@),
{
    proof {
        lemma_encode_injective(a@, b@);
    }
    bytes_equal(a.as_bytes(), b.as_bytes())
}

/// Whether `bytes` begins with `prefix`.
pub fn bytes_start_with(bytes: &[u8], prefix: &[u8]) -> (yes: bool)
    ensures
        yes == prefix@.is_prefix_of(bytes@),
{
    if bytes.len() < prefix.len() {
        return false;
    }
    let mut i: usize = 0;
    while i < prefix.len()
        invariant
            prefix@.len() <= bytes@.len(),
            i <= prefix@.len(),
            forall|k: int| 0 <= k < i ==> bytes@[k] == prefix@[k],
        decreases prefix@.len() - i,
    {
        if bytes[i] != prefix[i] {
            assert(bytes@.subrange(0, prefix@.len() as int)[i as int] != prefix@[i as int]);
            return false;
        }
        i = i + 1;
    }
    assert(prefix@ =~= bytes@.subrange(0, prefix@.len() as int));
    true
}

/// Removes the ASCII text `prefix` from the front of `s`. The result is what
/// follows the prefix, or `None` where `s` does not begin with it.
pub fn strip_ascii_prefix<'a>(s: &'a str, prefix: &str) -> (rest: Option<&'a str>)
    requires
        is_ascii_chars(prefix@),
    ensures
        match rest {
            Some(tail) => prefix@.is_prefix_of(s@) && tail@ == s@.skip(prefix@.len() as int),
            None => !prefix@.is_prefix_of(s@),
        },
{
    let bytes = s.as_bytes();
    let prefix_bytes = prefix.as_bytes();
    let ghost n = prefix@.len() as int;
    proof {
        is_ascii_chars_encode_utf8(prefix@);
        encode_utf8_valid_utf8(s@);
        if prefix@.is_prefix_of(s@) {
            assert(s@ == prefix@ + s@.skip(n));
            lemma_encode_concat(prefix@, s@.skip(n));
            assert(prefix_bytes@ =~= bytes@.subrange(0, n));
        }
    }
    if !bytes_start_with(bytes, prefix_bytes) {
        return None;
    }
    proof {
        assert forall|i: int| 0 <= i < n implies bytes@[i] <= 0x7f by {
            assert(bytes@[i] == bytes@.subrange(0, n)[i]);
            assert(prefix_bytes@[i] == prefix@[i] as u8);
        }
        lemma_ascii_run_ends_on_boundary(bytes@, n);
    }
    let (_, tail) = s.split_at(prefix_bytes.len());
    proof {
        decode_utf8_split(bytes@, n);
        encode_utf8_decode_utf8(s@);
        encode_utf8_decode_utf8(prefix@);
        encode_utf8_decode_utf8(tail@);
        assert(bytes@.subrange(0, n) == prefix_bytes@);
        assert(s@ == prefix@ + tail@);
        assert(tail@ == s@.skip(n));
        assert(prefix@ =~= s@.subrange(0, n));
    }
    Some(tail)
}

} // verus!
