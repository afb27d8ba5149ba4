//! The bytes that a producer and a consumer of a canvas exchange: the consumer's
//! process, and the handle of the surface with the canvas's sizes.

use vstd::prelude::*;
use vstd::slice::slice_subrange;

use crate::buffer;
use crate::text;
use crate::text::parse_u32;

verus! {

/// The pipe between producer and consumer.
pub const PIPE_PATH: &'static str = "\\\\.\\pipe\\overlay-spike-dcomp";

/// The sizes of a canvas.
#[derive(Debug, Clone, Copy, PartialEq, Eq, Structural)]
pub struct CanvasMeta {
    pub logical_w: u32,
    pub logical_h: u32,
    pub render_w: u32,
    pub render_h: u32,
}

fn word_at(buf: &[u8], at: usize) -> (r: u32)
    requires
        at + 4 <= buf@.len(),
    ensures
        r == buffer::u32_at(buf@, at as int),
{
    buf[at] as u32 + 0x100 * (buf[at + 1] as u32) + 0x1_0000 * (buf[at + 2] as u32) + 0x100_0000 * (
    buf[at + 3] as u32)
}

/// The four bytes of a word, low byte first.
fn word_bytes(x: u32) -> (r: [u8; 4])
    ensures
        r@ == buffer::le32(x),
{
    let r: [u8; 4] = [
        (x % 256) as u8,
        ((x / 0x100) % 256) as u8,
        ((x / 0x1_0000) % 256) as u8,
        (x / 0x100_0000) as u8,
    ];
    assert(r@ =~= buffer::le32(x));
    r
}

/// The eight bytes of a double word, low byte first.
fn double_bytes(x: u64) -> (r: [u8; 8])
    ensures
        r@ == buffer::le64(x),
{
    let low = word_bytes((x % 0x1_0000_0000) as u32);
    let high = word_bytes((x / 0x1_0000_0000) as u32);
    let r: [u8; 8] = [low[0], low[1], low[2], low[3], high[0], high[1], high[2], high[3]];
    assert(r@ =~= buffer::le64(x));
    r
}

/// What reading a process identifier from the front of bytes gives: the identifier
/// and the bytes behind it, and nothing where there are fewer than four bytes.
pub open spec fn pid_read(r: Seq<u8>) -> Option<(u32, Seq<u8>)> {
    if r.len() < 4 {
        None
    } else {
        Some((buffer::u32_at(r, 0), r.skip(4)))
    }
}

/// What reading a handle from the front of bytes gives: the handle and the bytes
/// behind it, and nothing where there are fewer than eight bytes.
pub open spec fn handle_read(r: Seq<u8>) -> Option<(u64, Seq<u8>)> {
    if r.len() < 8 {
        None
    } else {
        Some((buffer::u64_at(r, 0), r.skip(8)))
    }
}

/// Reads a process identifier from the front of bytes; gives it and the bytes behind
/// it.
pub fn read_pid<'a>(r: &'a [u8]) -> (x: Option<(u32, &'a [u8])>)
    ensures
        match x {
            Some((pid, rest)) => pid_read(r@) == Some((pid, rest@)),
            None => pid_read(r@) is None,
        },
{
    if r.len() < 4 {
        None
    } else {
        Some((word_at(r, 0), slice_subrange(r, 4, r.len())))
    }
}

/// Writes a process identifier behind bytes.
pub fn write_pid(w: &mut Vec<u8>, pid: u32)
    ensures
        final(w)@ == old(w)@ + buffer::le32(pid),
{
    let bytes = word_bytes(pid);
    w.push(bytes[0]);
    w.push(bytes[1]);
    w.push(bytes[2]);
    w.push(bytes[3]);
    assert(w@ =~= old(w)@ + bytes@);
}

/// Reads a handle from the front of bytes; gives it and the bytes behind it.
pub fn read_handle_u64<'a>(r: &'a [u8]) -> (x: Option<(u64, &'a [u8])>)
    ensures
        match x {
            Some((handle, rest)) => handle_read(r@) == Some((handle, rest@)),
            None => handle_read(r@) is None,
        },
{
    if r.len() < 8 {
        None
    } else {
        let handle: u64 = word_at(r, 0) as u64 + 0x1_0000_0000 * (word_at(r, 4) as u64);
        Some((handle, slice_subrange(r, 8, r.len())))
    }
}

/// Writes a handle behind bytes.
pub fn write_handle_u64(w: &mut Vec<u8>, value: u64)
    ensures
        final(w)@ == old(w)@ + buffer::le64(value),
{
    write_pid(w, (value % 0x1_0000_0000) as u32);
    write_pid(w, (value / 0x1_0000_0000) as u32);
    assert(w@ =~= old(w)@ + buffer::le64(value));
}

/// A process identifier that was written reads back, whatever follows it, and
/// exactly what follows is left.
pub proof fn pids_read_back(pid: u32, rest: Seq<u8>)
    ensures
        pid_read(buffer::le32(pid) + rest) == Some((pid, rest)),
{
    let bytes = buffer::le32(pid) + rest;
    buffer::le32_reads_back(pid);
    assert(buffer::u32_at(bytes, 0) == buffer::u32_at(buffer::le32(pid), 0));
    assert(bytes.skip(4) =~= rest);
}

/// A handle that was written reads back, whatever follows it, and exactly what
/// follows is left.
pub proof fn handles_read_back(value: u64, rest: Seq<u8>)
    ensures
        handle_read(buffer::le64(value) + rest) == Some((value, rest)),
{
    let bytes = buffer::le64(value) + rest;
    buffer::le64_reads_back(value);
    assert(buffer::u64_at(bytes, 0) == buffer::u64_at(buffer::le64(value), 0));
    assert(bytes.skip(8) =~= rest);
}

/// Fewer bytes than a process identifier or a handle takes are none.
pub proof fn short_reads_give_nothing(r: Seq<u8>)
    ensures
        r.len() < 4 ==> pid_read(r) is None,
        r.len() < 8 ==> handle_read(r) is None,
{
}

impl CanvasMeta {
    /// The bytes of the sizes, behind those of a handle.
    pub open spec fn payload(self, handle: u64) -> Seq<u8> {
        buffer::le64(handle) + buffer::le32(self.logical_w) + buffer::le32(self.logical_h)
            + buffer::le32(self.render_w) + buffer::le32(self.render_h)
    }

    /// The handle and the sizes that bytes hold.
    pub open spec fn parse(buf: Seq<u8>) -> (u64, CanvasMeta) {
        (
            buffer::u64_at(buf, 0),
            CanvasMeta {
                logical_w: buffer::u32_at(buf, 8),
                logical_h: buffer::u32_at(buf, 12),
                render_w: buffer::u32_at(buf, 16),
                render_h: buffer::u32_at(buf, 20),
            },
        )
    }

    /// The bytes of the sizes, behind those of a handle.
    pub fn to_payload(self, handle: u64) -> (r: [u8; 24])
        ensures
            r@ == self.payload(handle),
    {
        let h = double_bytes(handle);
        let a = word_bytes(self.logical_w);
        let b = word_bytes(self.logical_h);
        let c = word_bytes(self.render_w);
        let d = word_bytes(self.render_h);
        let r: [u8; 24] = [
            h[0], h[1], h[2], h[3], h[4], h[5], h[6], h[7],
            a[0], a[1], a[2], a[3],
            b[0], b[1], b[2], b[3],
            c[0], c[1], c[2], c[3],
            d[0], d[1], d[2], d[3],
        ];
        assert(r@ =~= self.payload(handle));
        r
    }

    /// The handle and the sizes that bytes hold.
    pub fn from_payload(buf: [u8; 24]) -> (r: (u64, CanvasMeta))
        ensures
            r == Self::parse(buf@),
    {
        let handle: u64 = word_at(&buf, 0) as u64 + 0x1_0000_0000 * (word_at(&buf, 4) as u64);
        (
            handle,
            CanvasMeta {
                logical_w: word_at(&buf, 8),
                logical_h: word_at(&buf, 12),
                render_w: word_at(&buf, 16),
                render_h: word_at(&buf, 20),
            },
        )
    }
}

/// The number that a word writes, and `fallback` where it writes none.
pub open spec fn number_or(word: Seq<char>, fallback: u32) -> u32 {
    match text::u32_value(word) {
        Some(n) => n,
        None => fallback,
    }
}

fn read_number(word: &str, fallback: u32) -> (r: u32)
    ensures
        r == number_or(word@, fallback),
{
    match parse_u32(word) {
        Some(n) => n,
        None => fallback,
    }
}

/// The sizes that a command line gives: both, the logical ones, or none. What is not
/// given is the screen's size, and the logical size for the one in pixels.
pub open spec fn sizes_given(words: Seq<Seq<char>>, screen_w: u32, screen_h: u32) -> CanvasMeta {
    if words.len() == 5 {
        let logical_w = number_or(words[1], screen_w);
        let logical_h = number_or(words[2], screen_h);
        CanvasMeta {
            logical_w,
            logical_h,
            render_w: number_or(words[3], logical_w),
            render_h: number_or(words[4], logical_h),
        }
    } else if words.len() == 3 {
        let logical_w = number_or(words[1], screen_w);
        let logical_h = number_or(words[2], screen_h);
        CanvasMeta { logical_w, logical_h, render_w: logical_w, render_h: logical_h }
    } else {
        CanvasMeta {
            logical_w: screen_w,
            logical_h: screen_h,
            render_w: screen_w,
            render_h: screen_h,
        }
    }
}

/// The sizes that a command line gives. The first word is the program.
pub fn parse_meta(args: &[String], screen_w: u32, screen_h: u32) -> (r: CanvasMeta)
    ensures
        r == sizes_given(text::string_contents(args@), screen_w, screen_h),
{
    if args.len() == 5 {
        let logical_w: u32 = read_number(args[1].as_str(), screen_w);
        let logical_h: u32 = read_number(args[2].as_str(), screen_h);
        let render_w: u32 = read_number(args[3].as_str(), logical_w);
        let render_h: u32 = read_number(args[4].as_str(), logical_h);
        CanvasMeta { logical_w, logical_h, render_w, render_h }
    } else if args.len() == 3 {
        let logical_w: u32 = read_number(args[1].as_str(), screen_w);
        let logical_h: u32 = read_number(args[2].as_str(), screen_h);
        CanvasMeta { logical_w, logical_h, render_w: logical_w, render_h: logical_h }
    } else {
        CanvasMeta {
            logical_w: screen_w,
            logical_h: screen_h,
            render_w: screen_w,
            render_h: screen_h,
        }
    }
}

/// A handle and sizes read back as they were written.
pub proof fn payloads_read_back(meta: CanvasMeta, handle: u64)
    ensures
        CanvasMeta::parse(meta.payload(handle)) == (handle, meta),
        meta.payload(handle).len() == 24,
{
    let p = meta.payload(handle);
    buffer::le64_reads_back(handle);
    buffer::le32_reads_back(meta.logical_w);
    buffer::le32_reads_back(meta.logical_h);
    buffer::le32_reads_back(meta.render_w);
    buffer::le32_reads_back(meta.render_h);
    let h = buffer::le64(handle);
    assert(p[0] == h[0] && p[1] == h[1] && p[2] == h[2] && p[3] == h[3]);
    assert(p[4] == h[4] && p[5] == h[5] && p[6] == h[6] && p[7] == h[7]);
    assert(buffer::u64_at(p, 0) == buffer::u64_at(h, 0));
    assert(buffer::u32_at(p, 8) == buffer::u32_at(buffer::le32(meta.logical_w), 0));
    assert(buffer::u32_at(p, 12) == buffer::u32_at(buffer::le32(meta.logical_h), 0));
    assert(buffer::u32_at(p, 16) == buffer::u32_at(buffer::le32(meta.render_w), 0));
    assert(buffer::u32_at(p, 20) == buffer::u32_at(buffer::le32(meta.render_h), 0));
}

} // verus!
