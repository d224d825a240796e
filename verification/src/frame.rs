//! Unambiguous byte framing of texts that are hashed together.

use vstd::prelude::*;
use vstd::string::*;
use vstd::utf8::*;

verus! {

/// The low `width` bytes of `value`, most significant first.
pub open spec fn be_bytes(value: nat, width: nat) -> Seq<u8>
    decreases width,
{
    if width == 0 {
        Seq::empty()
    } else {
        be_bytes(value / 256, (width - 1) as nat).push((value % 256) as u8)
    }
}

/// Whether `width` bytes are enough to write `value`.
pub open spec fn fits_bytes(value: nat, width: nat) -> bool
    decreases width,
{
    if width == 0 {
        value == 0
    } else {
        fits_bytes(value / 256, (width - 1) as nat)
    }
}

proof fn lemma_be_bytes_len(value: nat, width: nat)
    ensures
        be_bytes(value, width).len() == width,
    decreases width,
{
    if width > 0 {
        lemma_be_bytes_len(value / 256, (width - 1) as nat);
    }
}

proof fn lemma_be_bytes_injective(a: nat, b: nat, width: nat)
    requires
        fits_bytes(a, width),
        fits_bytes(b, width),
        be_bytes(a, width) == be_bytes(b, width),
    ensures
        a == b,
    decreases width,
{
    if width > 0 {
        let less = (width - 1) as nat;
        lemma_be_bytes_len(a / 256, less);
        lemma_be_bytes_len(b / 256, less);
        let left = be_bytes(a, width);
        let right = be_bytes(b, width);
        assert(left.last() == right.last());
        assert(left.drop_last() =~= be_bytes(a / 256, less));
        assert(right.drop_last() =~= be_bytes(b / 256, less));
        assert(a % 256 == b % 256);
        lemma_be_bytes_injective(a / 256, b / 256, less);
    }
}

proof fn lemma_u64_fits(value: nat)
    requires
        value <= u64::MAX,
    ensures
        fits_bytes(value, 8),
{
    reveal_with_fuel(fits_bytes, 9);
    let b1 = value / 256;
    let b2 = b1 / 256;
    let b3 = b2 / 256;
    let b4 = b3 / 256;
    let b5 = b4 / 256;
    let b6 = b5 / 256;
    let b7 = b6 / 256;
    assert(b7 / 256 == 0);
}

/// The eight bytes of `value`, most significant first.
pub open spec fn be64(value: nat) -> Seq<u8> {
    be_bytes(value, 8)
}

fn push_be_bytes(out: &mut Vec<u8>, value: u64, width: u8)
    ensures
        final(out)@ == old(out)@ + be_bytes(value as nat, width as nat),
    decreases width,
{
    if width > 0 {
        push_be_bytes(out, value / 256, width - 1);
        out.push((value % 256) as u8);
    }
    assert(out@ =~= old(out)@ + be_bytes(value as nat, width as nat));
}

/// Appends the eight bytes of `value`, most significant first.
pub fn push_be64(out: &mut Vec<u8>, value: u64)
    ensures
        final(out)@ == old(out)@ + be64(value as nat),
{
    push_be_bytes(out, value, 8);
}

/// Appends `bytes`.
pub fn push_bytes(out: &mut Vec<u8>, bytes: &[u8])
    ensures
        final(out)@ == old(out)@ + bytes@,
{
    let ghost before = out@;
    let mut i: usize = 0;
    while i < bytes.len()
        invariant
            i <= bytes@.len(),
            out@ == before + bytes@.take(i as int),
        decreases bytes@.len() - i,
    {
        out.push(bytes[i]);
        i = i + 1;
        assert(out@ =~= before + bytes@.take(i as int));
    }
    assert(bytes@.take(bytes@.len() as int) =~= bytes@);
}

/// A text whose length in bytes can be written in eight bytes.
pub open spec fn frameable(text: Seq<char>) -> bool {
    encode_utf8(text).len() <= u64::MAX
}

/// A text as its length in bytes and then the bytes.
pub open spec fn text_frame(text: Seq<char>) -> Seq<u8> {
    be64(encode_utf8(text).len()) + encode_utf8(text)
}

/// Appends `text` as its length in bytes and then the bytes.
pub fn push_text_frame(out: &mut Vec<u8>, text: &str)
    ensures
        final(out)@ == old(out)@ + text_frame(text@),
        frameable(text@),
{
    let bytes = text.as_bytes();
    let length: usize = bytes.len();
    push_be64(out, length as u64);
    push_bytes(out, bytes);
    assert(out@ =~= old(out)@ + text_frame(text@));
}

/// Equal sums of equally long heads have equal heads and equal tails.
proof fn lemma_split(a: Seq<u8>, x: Seq<u8>, b: Seq<u8>, y: Seq<u8>)
    requires
        a + x == b + y,
        a.len() == b.len(),
    ensures
        a == b,
        x == y,
{
    let whole = a + x;
    assert(whole.take(a.len() as int) =~= a);
    assert(whole.skip(a.len() as int) =~= x);
    assert((b + y).take(b.len() as int) =~= b);
    assert((b + y).skip(b.len() as int) =~= y);
}

/// Two numbers framed in front of anything can be told apart.
pub proof fn lemma_be64_prefix(a: nat, x: Seq<u8>, b: nat, y: Seq<u8>)
    requires
        a <= u64::MAX,
        b <= u64::MAX,
        be64(a) + x == be64(b) + y,
    ensures
        a == b,
        x == y,
{
    lemma_be_bytes_len(a, 8);
    lemma_be_bytes_len(b, 8);
    lemma_split(be64(a), x, be64(b), y);
    lemma_u64_fits(a);
    lemma_u64_fits(b);
    lemma_be_bytes_injective(a, b, 8);
}

/// Two framed texts in front of anything can be told apart.
pub proof fn lemma_text_frame_prefix(a: Seq<char>, x: Seq<u8>, b: Seq<char>, y: Seq<u8>)
    requires
        frameable(a),
        frameable(b),
        text_frame(a) + x == text_frame(b) + y,
    ensures
        a == b,
        x == y,
{
    let left = encode_utf8(a);
    let right = encode_utf8(b);
    assert(text_frame(a) + x =~= be64(left.len()) + (left + x));
    assert(text_frame(b) + y =~= be64(right.len()) + (right + y));
    lemma_be64_prefix(left.len(), left + x, right.len(), right + y);
    lemma_split(left, x, right, y);
    encode_utf8_decode_utf8(a);
    encode_utf8_decode_utf8(b);
}

} // verus!
