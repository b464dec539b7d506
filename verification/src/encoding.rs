use vstd::prelude::*;
use vstd::bytes::{lemma_auto_spec_u64_to_from_le_bytes, spec_u64_to_le_bytes};
use vstd::utf8::{decode_utf8, encode_utf8, encode_utf8_decode_utf8};

verus! {

/// The longest byte string that a two-byte length can announce.
pub const MAX_SUFFIX_LEN: usize = 0xFFFF;

/// `bytes` behind its own length, written as two bytes, high byte first.
pub open spec fn length_prefixed(bytes: Seq<u8>) -> Seq<u8> {
    seq![(bytes.len() / 256) as u8, (bytes.len() % 256) as u8] + bytes
}

/// A text as the default binary serializer writes it: the length of its
/// UTF-8 form as eight bytes, low byte first, then that form.
pub open spec fn bincode_text(text: Seq<char>) -> Seq<u8> {
    spec_u64_to_le_bytes(encode_utf8(text).len() as u64) + encode_utf8(text)
}

/// A flag as the default binary serializer writes it: one byte, 1 for
/// `true` and 0 for `false`.
pub open spec fn bincode_flag(flag: bool) -> Seq<u8> {
    if flag {
        seq![1u8]
    } else {
        seq![0u8]
    }
}

/// Three texts as the default binary serializer writes a triple of them:
/// one after the other.
pub open spec fn bincode_record(name: Seq<char>, address: Seq<char>, phone: Seq<char>) -> Seq<u8> {
    bincode_text(name) + bincode_text(address) + bincode_text(phone)
}

/// Appends `bytes` to `out`.
pub fn append(out: &mut Vec<u8>, bytes: &[u8])
    ensures
        final(out)@ == old(out)@ + bytes@,
{
    let ghost start = out@;
    let mut i: usize = 0;
    while i < bytes.len()
        invariant
            i <= bytes@.len(),
            out@ == start + bytes@.subrange(0, i as int),
        decreases bytes@.len() - i,
    {
        out.push(bytes[i]);
        i += 1;
        assert(out@ =~= start + bytes@.subrange(0, i as int));
    }
    assert(bytes@.subrange(0, i as int) =~= bytes@);
}

/// `bytes` behind its two-byte length.
pub fn to_length_prefixed(bytes: &[u8]) -> (out: Vec<u8>)
    requires
        bytes@.len() <= MAX_SUFFIX_LEN,
    ensures
        out@ == length_prefixed(bytes@),
{
    let len: usize = bytes.len();
    let mut out: Vec<u8> = Vec::new();
    out.push((len / 256) as u8);
    out.push((len % 256) as u8);
    assert(out@ =~= seq![(bytes@.len() / 256) as u8, (bytes@.len() % 256) as u8]);
    append(&mut out, bytes);
    out
}

/// A common front can be struck from both sides of an equation.
pub proof fn lemma_cancel_front(front: Seq<u8>, x: Seq<u8>, y: Seq<u8>)
    requires
        front + x == front + y,
    ensures
        x == y,
{
    assert(x =~= (front + x).subrange(front.len() as int, (front + x).len() as int));
    assert(y =~= (front + y).subrange(front.len() as int, (front + y).len() as int));
}

/// A length-prefixed string ends where its length says: two strings that
/// agree once each is followed by something are the same string, followed
/// by the same thing.
pub proof fn lemma_length_prefixed_cancel(a: Seq<u8>, x: Seq<u8>, b: Seq<u8>, y: Seq<u8>)
    requires
        a.len() <= MAX_SUFFIX_LEN,
        b.len() <= MAX_SUFFIX_LEN,
        length_prefixed(a) + x == length_prefixed(b) + y,
    ensures
        a == b,
        x == y,
{
    let left = length_prefixed(a) + x;
    let right = length_prefixed(b) + y;
    assert(left[0] == (a.len() / 256) as u8);
    assert(left[1] == (a.len() % 256) as u8);
    assert(right[0] == (b.len() / 256) as u8);
    assert(right[1] == (b.len() % 256) as u8);
    assert(a.len() == b.len());
    assert(a =~= left.subrange(2, 2 + a.len() as int));
    assert(b =~= right.subrange(2, 2 + b.len() as int));
    assert(x =~= left.subrange(2 + a.len() as int, left.len() as int));
    assert(y =~= right.subrange(2 + b.len() as int, right.len() as int));
}

/// Two texts with the same UTF-8 form are the same text.
pub proof fn lemma_utf8_injective(a: Seq<char>, b: Seq<char>)
    requires
        encode_utf8(a) == encode_utf8(b),
    ensures
        a == b,
{
    encode_utf8_decode_utf8(a);
    encode_utf8_decode_utf8(b);
    assert(decode_utf8(encode_utf8(a)) == a);
    assert(decode_utf8(encode_utf8(b)) == b);
}

/// Two texts that the binary serializer writes alike are the same text.
pub proof fn lemma_bincode_text_injective(a: Seq<char>, b: Seq<char>)
    requires
        bincode_text(a) == bincode_text(b),
    ensures
        a == b,
{
    lemma_auto_spec_u64_to_from_le_bytes();
    let ea = encode_utf8(a);
    let eb = encode_utf8(b);
    assert(ea =~= bincode_text(a).subrange(8, bincode_text(a).len() as int));
    assert(eb =~= bincode_text(b).subrange(8, bincode_text(b).len() as int));
    lemma_utf8_injective(a, b);
}

} // verus!
