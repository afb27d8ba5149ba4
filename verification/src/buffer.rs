//! Little-endian byte sequences, and the `bytes::BytesMut` operations that the
//! codecs are built on.

use bytes::{Buf, BufMut, BytesMut};
use vstd::prelude::*;

verus! {

/// The two bytes of `x`, low byte first.
pub open spec fn le16(x: u16) -> Seq<u8> {
    seq![(x % 256) as u8, (x / 256) as u8]
}

/// The four bytes of `x`, low byte first.
pub open spec fn le32(x: u32) -> Seq<u8> {
    seq![
        (x % 256) as u8,
        ((x / 0x100) % 256) as u8,
        ((x / 0x1_0000) % 256) as u8,
        (x / 0x100_0000) as u8,
    ]
}

/// The eight bytes of `x`: its low word, then its high word.
pub open spec fn le64(x: u64) -> Seq<u8> {
    le32((x % 0x1_0000_0000) as u32) + le32((x / 0x1_0000_0000) as u32)
}

/// The unsigned word that shares its bits with `x`.
pub open spec fn i32_bits(x: i32) -> u32 {
    if x >= 0 {
        x as u32
    } else {
        (x + 0x1_0000_0000) as u32
    }
}

/// The four bytes of `x` in two's complement, low byte first.
pub open spec fn le_i32(x: i32) -> Seq<u8> {
    le32(i32_bits(x))
}

/// The 16-bit integer stored at offset `i`, low byte first.
pub open spec fn u16_at(s: Seq<u8>, i: int) -> u16 {
    (s[i] + 0x100 * s[i + 1]) as u16
}

/// The 32-bit integer stored at offset `i`, low byte first.
pub open spec fn u32_at(s: Seq<u8>, i: int) -> u32 {
    (s[i] + 0x100 * s[i + 1] + 0x1_0000 * s[i + 2] + 0x100_0000 * s[i + 3]) as u32
}

/// The 64-bit integer stored at offset `i`, low byte first.
pub open spec fn u64_at(s: Seq<u8>, i: int) -> u64 {
    (u32_at(s, i) + 0x1_0000_0000 * u32_at(s, i + 4)) as u64
}

/// The signed 32-bit integer stored at offset `i` in two's complement.
pub open spec fn i32_at(s: Seq<u8>, i: int) -> i32 {
    let bits = u32_at(s, i);
    if bits < 0x8000_0000 {
        bits as i32
    } else {
        (bits - 0x1_0000_0000) as i32
    }
}

/// A 16-bit integer reads back as it was written.
pub proof fn le16_reads_back(x: u16)
    ensures
        u16_at(le16(x), 0) == x,
        le16(x).len() == 2,
{
}

/// A 32-bit integer reads back as it was written.
pub proof fn le32_reads_back(x: u32)
    ensures
        u32_at(le32(x), 0) == x,
        le32(x).len() == 4,
{
}

/// A 64-bit integer reads back as it was written.
pub proof fn le64_reads_back(x: u64)
    ensures
        u64_at(le64(x), 0) == x,
        le64(x).len() == 8,
{
    let lo = (x % 0x1_0000_0000) as u32;
    let hi = (x / 0x1_0000_0000) as u32;
    le32_reads_back(lo);
    le32_reads_back(hi);
    assert(u32_at(le64(x), 0) == u32_at(le32(lo), 0));
    assert(u32_at(le64(x), 4) == u32_at(le32(hi), 0));
}

/// A signed 32-bit integer reads back as it was written.
pub proof fn le_i32_reads_back(x: i32)
    ensures
        i32_at(le_i32(x), 0) == x,
        le_i32(x).len() == 4,
{
    le32_reads_back(i32_bits(x));
}

/// The bytes of a list of words, each low byte first.
pub open spec fn words_bytes(words: Seq<u32>) -> Seq<u8>
    decreases words.len(),
{
    if words.len() == 0 {
        seq![]
    } else {
        words_bytes(words.drop_last()) + le32(words.last())
    }
}

/// A list of words takes four bytes for each.
pub proof fn words_bytes_len(words: Seq<u32>)
    ensures
        words_bytes(words).len() == 4 * words.len(),
    decreases words.len(),
{
    if words.len() > 0 {
        words_bytes_len(words.drop_last());
    }
}

/// Word `i` of a list stands at offset `4 * i`.
pub proof fn words_read_back(words: Seq<u32>, i: int)
    requires
        0 <= i < words.len(),
    ensures
        u32_at(words_bytes(words), 4 * i) == words[i],
    decreases words.len(),
{
    let before = words.drop_last();
    words_bytes_len(before);
    if i < words.len() - 1 {
        words_read_back(before, i);
        assert(u32_at(words_bytes(words), 4 * i) == u32_at(words_bytes(before), 4 * i));
    } else {
        le32_reads_back(words[i]);
        assert(u32_at(words_bytes(words), 4 * i) == u32_at(le32(words[i]), 0));
    }
}

#[verifier::external_type_specification]
#[verifier::external_body]
pub struct ExBytesMut(BytesMut);

/// The bytes that a buffer holds, from its read position to its end.
pub uninterp spec fn buffered(buf: BytesMut) -> Seq<u8>;

/// `BytesMut::from` of a byte slice: a buffer that holds the slice's bytes.
#[verifier::external_body]
pub(crate) fn from_slice(src: &[u8]) -> (buf: BytesMut)
    ensures
        buffered(buf) == src@,
{
    BytesMut::from(src)
}

/// `Buf::remaining` of `BytesMut`: the number of bytes held.
#[verifier::external_body]
pub(crate) fn remaining(buf: &BytesMut) -> (n: usize)
    ensures
        n == buffered(*buf).len(),
{
    buf.remaining()
}

/// `Buf::get_u8`: takes the first byte off the buffer.
#[verifier::external_body]
pub(crate) fn get_u8(buf: &mut BytesMut) -> (x: u8)
    requires
        buffered(*old(buf)).len() >= 1,
    ensures
        x == buffered(*old(buf))[0],
        buffered(*final(buf)) == buffered(*old(buf)).skip(1),
{
    buf.get_u8()
}

/// `Buf::get_u16_le`: takes a little-endian 16-bit integer off the buffer.
#[verifier::external_body]
pub(crate) fn get_u16_le(buf: &mut BytesMut) -> (x: u16)
    requires
        buffered(*old(buf)).len() >= 2,
    ensures
        x == u16_at(buffered(*old(buf)), 0),
        buffered(*final(buf)) == buffered(*old(buf)).skip(2),
{
    buf.get_u16_le()
}

/// `Buf::get_u32_le`: takes a little-endian 32-bit integer off the buffer.
#[verifier::external_body]
pub(crate) fn get_u32_le(buf: &mut BytesMut) -> (x: u32)
    requires
        buffered(*old(buf)).len() >= 4,
    ensures
        x == u32_at(buffered(*old(buf)), 0),
        buffered(*final(buf)) == buffered(*old(buf)).skip(4),
{
    buf.get_u32_le()
}

/// `Buf::get_u64_le`: takes a little-endian 64-bit integer off the buffer.
#[verifier::external_body]
pub(crate) fn get_u64_le(buf: &mut BytesMut) -> (x: u64)
    requires
        buffered(*old(buf)).len() >= 8,
    ensures
        x == u64_at(buffered(*old(buf)), 0),
        buffered(*final(buf)) == buffered(*old(buf)).skip(8),
{
    buf.get_u64_le()
}

/// `Buf::get_i32_le`: takes a little-endian signed 32-bit integer off the buffer.
#[verifier::external_body]
pub(crate) fn get_i32_le(buf: &mut BytesMut) -> (x: i32)
    requires
        buffered(*old(buf)).len() >= 4,
    ensures
        x == i32_at(buffered(*old(buf)), 0),
        buffered(*final(buf)) == buffered(*old(buf)).skip(4),
{
    buf.get_i32_le()
}

/// `Buf::advance`: drops the first `n` bytes of the buffer.
#[verifier::external_body]
pub(crate) fn advance(buf: &mut BytesMut, n: usize)
    requires
        n <= buffered(*old(buf)).len(),
    ensures
        buffered(*final(buf)) == buffered(*old(buf)).skip(n as int),
{
    buf.advance(n)
}

/// `BytesMut::split_to`: takes the first `n` bytes off the buffer, as a buffer.
#[verifier::external_body]
pub(crate) fn split_to(buf: &mut BytesMut, n: usize) -> (head: BytesMut)
    requires
        n <= buffered(*old(buf)).len(),
    ensures
        buffered(head) == buffered(*old(buf)).take(n as int),
        buffered(*final(buf)) == buffered(*old(buf)).skip(n as int),
{
    buf.split_to(n)
}

/// `Buf::copy_to_bytes`: takes the first `n` bytes off the buffer; the `Bytes`
/// that it returns is handed on as a vector of the same bytes.
#[verifier::external_body]
pub(crate) fn copy_to_bytes(buf: &mut BytesMut, n: usize) -> (head: Vec<u8>)
    requires
        n <= buffered(*old(buf)).len(),
    ensures
        head@ == buffered(*old(buf)).take(n as int),
        buffered(*final(buf)) == buffered(*old(buf)).skip(n as int),
{
    buf.copy_to_bytes(n).to_vec()
}

/// `BufMut::put_u8`: appends one byte. It panics only where the grown buffer
/// would pass the largest allocation, `isize::MAX` bytes.
#[verifier::external_body]
pub(crate) fn put_u8(buf: &mut BytesMut, x: u8)
    requires
        buffered(*old(buf)).len() + 1 <= isize::MAX,
    ensures
        buffered(*final(buf)) == buffered(*old(buf)) + seq![x],
{
    buf.put_u8(x)
}

/// `BufMut::put_u16_le`: appends a 16-bit integer, low byte first.
#[verifier::external_body]
pub(crate) fn put_u16_le(buf: &mut BytesMut, x: u16)
    requires
        buffered(*old(buf)).len() + 2 <= isize::MAX,
    ensures
        buffered(*final(buf)) == buffered(*old(buf)) + le16(x),
{
    buf.put_u16_le(x)
}

/// `BufMut::put_u32_le`: appends a 32-bit integer, low byte first.
#[verifier::external_body]
pub(crate) fn put_u32_le(buf: &mut BytesMut, x: u32)
    requires
        buffered(*old(buf)).len() + 4 <= isize::MAX,
    ensures
        buffered(*final(buf)) == buffered(*old(buf)) + le32(x),
{
    buf.put_u32_le(x)
}

/// `BufMut::put_u64_le`: appends a 64-bit integer, low byte first.
#[verifier::external_body]
pub(crate) fn put_u64_le(buf: &mut BytesMut, x: u64)
    requires
        buffered(*old(buf)).len() + 8 <= isize::MAX,
    ensures
        buffered(*final(buf)) == buffered(*old(buf)) + le64(x),
{
    buf.put_u64_le(x)
}

/// `BufMut::put_i32_le`: appends a signed 32-bit integer in two's complement,
/// low byte first.
#[verifier::external_body]
pub(crate) fn put_i32_le(buf: &mut BytesMut, x: i32)
    requires
        buffered(*old(buf)).len() + 4 <= isize::MAX,
    ensures
        buffered(*final(buf)) == buffered(*old(buf)) + le_i32(x),
{
    buf.put_i32_le(x)
}

/// `BufMut::put_slice` of `BytesMut`: appends the bytes of `src`.
#[verifier::external_body]
pub(crate) fn put_slice(buf: &mut BytesMut, src: &[u8])
    requires
        buffered(*old(buf)).len() + src@.len() <= isize::MAX,
    ensures
        buffered(*final(buf)) == buffered(*old(buf)) + src@,
{
    buf.put_slice(src)
}

/// Concatenation is associative.
pub proof fn concat_assoc(a: Seq<u8>, b: Seq<u8>, c: Seq<u8>)
    ensures
        (a + b) + c == a + (b + c),
{
    assert((a + b) + c =~= a + (b + c));
}

/// The buffer `new` is the buffer `old` with `x` behind it; however the old
/// bytes are split in two, `x` joins the second part.
pub open spec fn appended(old_bytes: Seq<u8>, new_bytes: Seq<u8>, x: Seq<u8>) -> bool {
    &&& new_bytes == old_bytes + x
    &&& forall|a: Seq<u8>, b: Seq<u8>|
        old_bytes == #[trigger] (a + b) ==> new_bytes == a + (b + x)
}

proof fn append_splits(old_bytes: Seq<u8>, x: Seq<u8>)
    ensures
        appended(old_bytes, old_bytes + x, x),
{
    assert forall|a: Seq<u8>, b: Seq<u8>| old_bytes == #[trigger] (a + b) implies old_bytes + x
        == a + (b + x) by {
        concat_assoc(a, b, x);
    }
}

pub(crate) fn append_u8(buf: &mut BytesMut, x: u8)
    requires
        buffered(*old(buf)).len() + 1 <= isize::MAX,
    ensures
        appended(buffered(*old(buf)), buffered(*final(buf)), seq![x]),
{
    proof {
        append_splits(buffered(*buf), seq![x]);
    }
    put_u8(buf, x);
}

pub(crate) fn append_u16(buf: &mut BytesMut, x: u16)
    requires
        buffered(*old(buf)).len() + 2 <= isize::MAX,
    ensures
        appended(buffered(*old(buf)), buffered(*final(buf)), le16(x)),
{
    proof {
        append_splits(buffered(*buf), le16(x));
    }
    put_u16_le(buf, x);
}

pub(crate) fn append_u32(buf: &mut BytesMut, x: u32)
    requires
        buffered(*old(buf)).len() + 4 <= isize::MAX,
    ensures
        appended(buffered(*old(buf)), buffered(*final(buf)), le32(x)),
{
    proof {
        append_splits(buffered(*buf), le32(x));
    }
    put_u32_le(buf, x);
}

pub(crate) fn append_u64(buf: &mut BytesMut, x: u64)
    requires
        buffered(*old(buf)).len() + 8 <= isize::MAX,
    ensures
        appended(buffered(*old(buf)), buffered(*final(buf)), le64(x)),
{
    proof {
        append_splits(buffered(*buf), le64(x));
    }
    put_u64_le(buf, x);
}

pub(crate) fn append_i32(buf: &mut BytesMut, x: i32)
    requires
        buffered(*old(buf)).len() + 4 <= isize::MAX,
    ensures
        appended(buffered(*old(buf)), buffered(*final(buf)), le_i32(x)),
{
    proof {
        append_splits(buffered(*buf), le_i32(x));
    }
    put_i32_le(buf, x);
}

pub(crate) fn append_slice(buf: &mut BytesMut, src: &[u8])
    requires
        buffered(*old(buf)).len() + src@.len() <= isize::MAX,
    ensures
        appended(buffered(*old(buf)), buffered(*final(buf)), src@),
{
    proof {
        append_splits(buffered(*buf), src@);
    }
    put_slice(buf, src);
}

} // verus!
