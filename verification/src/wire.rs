//! Big-endian fields, tags and length-prefixed blocks: the pieces every
//! message is made of.

use vstd::prelude::*;

verus! {

/// The two-byte big-endian integer that `s` holds at offset `i`.
pub open spec fn u16_at(s: Seq<u8>, i: int) -> u16 {
    (s[i] as int * 0x100 + s[i + 1] as int) as u16
}

/// The four-byte big-endian integer that `s` holds at offset `i`.
pub open spec fn u32_at(s: Seq<u8>, i: int) -> u32 {
    (s[i] as int * 0x100_0000 + s[i + 1] as int * 0x1_0000 + s[i + 2] as int * 0x100
        + s[i + 3] as int) as u32
}

/// The two bytes of `x`, most significant first.
pub open spec fn u16_bytes(x: u16) -> Seq<u8> {
    seq![(x / 0x100) as u8, (x % 0x100) as u8]
}

/// The four bytes of `x`, most significant first.
pub open spec fn u32_bytes(x: u32) -> Seq<u8> {
    seq![
        (x / 0x100_0000) as u8,
        (x / 0x1_0000 % 0x100) as u8,
        (x / 0x100 % 0x100) as u8,
        (x % 0x100) as u8,
    ]
}

/// The bytes of a two-byte integer are its two digits to the base 256.
pub proof fn lemma_u16_digits(b0: u8, b1: u8, x: u16)
    by (bit_vector)
    requires
        x == b0 as u16 * 0x100 + b1 as u16,
    ensures
        x / 0x100 == b0,
        x % 0x100 == b1,
{
}

/// The bytes of a four-byte integer are its four digits to the base 256.
pub proof fn lemma_u32_digits(b0: u8, b1: u8, b2: u8, b3: u8, x: u32)
    by (bit_vector)
    requires
        x == b0 as u32 * 0x100_0000 + b1 as u32 * 0x1_0000 + b2 as u32 * 0x100 + b3 as u32,
    ensures
        x / 0x100_0000 == b0,
        x / 0x1_0000 % 0x100 == b1,
        x / 0x100 % 0x100 == b2,
        x % 0x100 == b3,
{
}

/// A two-byte integer is the sum of its digits to the base 256.
pub proof fn lemma_u16_sum(x: u16)
    by (bit_vector)
    ensures
        x / 0x100 < 0x100,
        (x / 0x100) * 0x100 + x % 0x100 == x,
{
}

/// A four-byte integer is the sum of its digits to the base 256.
pub proof fn lemma_u32_sum(x: u32)
    by (bit_vector)
    ensures
        x / 0x100_0000 < 0x100,
        (x / 0x100_0000) * 0x100_0000 + (x / 0x1_0000 % 0x100) * 0x1_0000 + (x / 0x100 % 0x100)
            * 0x100 + x % 0x100 == x,
{
}

/// What is written for the integer read at offset `i` is the two bytes
/// that it was read from.
pub proof fn lemma_u16_written(s: Seq<u8>, i: int)
    requires
        0 <= i,
        i + 2 <= s.len(),
    ensures
        u16_bytes(u16_at(s, i)) == s.subrange(i, i + 2),
{
    lemma_u16_digits(s[i], s[i + 1], u16_at(s, i));
    assert(u16_bytes(u16_at(s, i)) =~= s.subrange(i, i + 2));
}

/// What is written for the integer read at offset `i` is the four bytes
/// that it was read from.
pub proof fn lemma_u32_written(s: Seq<u8>, i: int)
    requires
        0 <= i,
        i + 4 <= s.len(),
    ensures
        u32_bytes(u32_at(s, i)) == s.subrange(i, i + 4),
{
    lemma_u32_digits(s[i], s[i + 1], s[i + 2], s[i + 3], u32_at(s, i));
    assert(u32_bytes(u32_at(s, i)) =~= s.subrange(i, i + 4));
}

/// Where the two bytes written for `x` stand at offset `i`, `x` is read
/// there.
pub proof fn lemma_u16_read(s: Seq<u8>, i: int, x: u16)
    requires
        0 <= i,
        i + 2 <= s.len(),
        s.subrange(i, i + 2) == u16_bytes(x),
    ensures
        u16_at(s, i) == x,
{
    lemma_u16_sum(x);
    assert(s.subrange(i, i + 2)[0] == s[i]);
    assert(s.subrange(i, i + 2)[1] == s[i + 1]);
}

/// Where the four bytes written for `x` stand at offset `i`, `x` is read
/// there.
pub proof fn lemma_u32_read(s: Seq<u8>, i: int, x: u32)
    requires
        0 <= i,
        i + 4 <= s.len(),
        s.subrange(i, i + 4) == u32_bytes(x),
    ensures
        u32_at(s, i) == x,
{
    lemma_u32_sum(x);
    assert(s.subrange(i, i + 4)[0] == s[i]);
    assert(s.subrange(i, i + 4)[1] == s[i + 1]);
    assert(s.subrange(i, i + 4)[2] == s[i + 2]);
    assert(s.subrange(i, i + 4)[3] == s[i + 3]);
}

/// `nom::number::complete::be_u8`: takes one byte off the front of the
/// input. Fails exactly when the input is empty.
#[verifier::external_body]
pub(crate) fn be_u8(input: &[u8]) -> (r: Option<(&[u8], u8)>)
    ensures
        r is Some <==> input@.len() >= 1,
        r matches Some((rest, value)) ==> rest@ == input@.skip(1) && value == input@[0],
{
    nom::number::complete::be_u8::<&[u8], (&[u8], nom::error::ErrorKind)>(input).ok()
}

/// `nom::number::complete::be_u16`: takes a two-byte big-endian integer off
/// the front of the input. Fails exactly when fewer than two bytes are left.
#[verifier::external_body]
pub(crate) fn be_u16(input: &[u8]) -> (r: Option<(&[u8], u16)>)
    ensures
        r is Some <==> input@.len() >= 2,
        r matches Some((rest, value)) ==> rest@ == input@.skip(2) && value == u16_at(input@, 0),
{
    nom::number::complete::be_u16::<&[u8], (&[u8], nom::error::ErrorKind)>(input).ok()
}

/// `nom::number::complete::be_u32`: takes a four-byte big-endian integer off
/// the front of the input. Fails exactly when fewer than four bytes are left.
#[verifier::external_body]
pub(crate) fn be_u32(input: &[u8]) -> (r: Option<(&[u8], u32)>)
    ensures
        r is Some <==> input@.len() >= 4,
        r matches Some((rest, value)) ==> rest@ == input@.skip(4) && value == u32_at(input@, 0),
{
    nom::number::complete::be_u32::<&[u8], (&[u8], nom::error::ErrorKind)>(input).ok()
}

/// `nom::bytes::complete::tag`: succeeds exactly when the input begins with
/// the bytes of `literal`, and then hands back the input after them.
#[verifier::external_body]
pub(crate) fn tag<'a>(literal: &[u8], input: &'a [u8]) -> (r: Option<&'a [u8]>)
    ensures
        r is Some <==> literal@.is_prefix_of(input@),
        r matches Some(rest) ==> rest@ == input@.skip(literal@.len() as int),
{
    nom::bytes::complete::tag::<&[u8], &[u8], (&[u8], nom::error::ErrorKind)>(literal)(input)
        .ok()
        .map(|found| found.0)
}

/// `nom::multi::length_data` over `be_u32`: reads a four-byte big-endian
/// length, then takes that many bytes. Succeeds exactly when the length
/// field is complete and no larger than what follows it; hands back the
/// input after the block and the block itself.
#[verifier::external_body]
pub(crate) fn length_data(input: &[u8]) -> (r: Option<(&[u8], &[u8])>)
    ensures
        r is Some <==> (input@.len() >= 4 && u32_at(input@, 0) <= input@.len() - 4),
        r matches Some((rest, block)) ==> {
            &&& block@ == input@.subrange(4, 4 + u32_at(input@, 0))
            &&& rest@ == input@.skip(4 + u32_at(input@, 0))
        },
{
    nom::multi::length_data(
        nom::number::complete::be_u32::<&[u8], (&[u8], nom::error::ErrorKind)>,
    )(input).ok()
}


/// Appends the two bytes of `x`, most significant first.
pub fn push_u16(out: &mut Vec<u8>, x: u16)
    ensures
        final(out)@ == old(out)@ + u16_bytes(x),
{
    out.push((x / 0x100) as u8);
    out.push((x % 0x100) as u8);
    assert(out@ =~= old(out)@ + u16_bytes(x));
}

/// Appends the four bytes of `x`, most significant first.
pub fn push_u32(out: &mut Vec<u8>, x: u32)
    ensures
        final(out)@ == old(out)@ + u32_bytes(x),
{
    out.push((x / 0x100_0000) as u8);
    out.push((x / 0x1_0000 % 0x100) as u8);
    out.push((x / 0x100 % 0x100) as u8);
    out.push((x % 0x100) as u8);
    assert(out@ =~= old(out)@ + u32_bytes(x));
}

/// Appends `bytes` as they are.
pub fn push_bytes(out: &mut Vec<u8>, bytes: &[u8])
    ensures
        final(out)@ == old(out)@ + bytes@,
{
    let mut i: usize = 0;
    while i < bytes.len()
        invariant
            i <= bytes@.len(),
            out@ == old(out)@ + bytes@.take(i as int),
        decreases bytes@.len() - i,
    {
        out.push(bytes[i]);
        i += 1;
        assert(out@ =~= old(out)@ + bytes@.take(i as int));
    }
    assert(bytes@.take(i as int) =~= bytes@);
}

} // verus!
