//! The command region that an app shares with the server: a header, then the
//! bytes of the frames' commands.

use vstd::prelude::*;
use vstd::slice::slice_subrange;

use crate::buffer;
use crate::cmd_writer;
use crate::cmd_writer::write_u32;
use crate::text;
use crate::text::append_decimal;

verus! {

/// The bytes that the header takes at the start of the region.
pub const RINGBUFFER_HEADER_SIZE: usize = 24;

/// The size of an app's command region.
pub const COMMAND_REGION_SIZE: usize = 0x100_0000;

/// The most bytes that the commands of one frame may take.
pub const MAX_FRAME_COMMANDS: usize = 0x1_0000;

/// The header of a command region.
#[derive(Debug, Clone, Copy, PartialEq, Eq, Structural)]
pub struct RingbufferHeader {
    pub write_offset: u32,
    pub read_offset: u32,
    pub capacity: u32,
    pub frame_counter: u64,
}

impl RingbufferHeader {
    /// The header that the bytes `s` start with.
    pub open spec fn stored(s: Seq<u8>) -> RingbufferHeader {
        RingbufferHeader {
            write_offset: buffer::u32_at(s, 0),
            read_offset: buffer::u32_at(s, 4),
            capacity: buffer::u32_at(s, 8),
            frame_counter: buffer::u64_at(s, 16),
        }
    }

    /// The bytes `s` with this header at their start. Bytes 12 to 15 belong to no
    /// field and stay as they are.
    pub open spec fn written(self, s: Seq<u8>) -> Seq<u8> {
        let fields = buffer::le32(self.write_offset) + buffer::le32(self.read_offset)
            + buffer::le32(self.capacity);
        cmd_writer::overwritten(
            cmd_writer::overwritten(s, 0, fields),
            16,
            buffer::le64(self.frame_counter),
        )
    }

    /// The header of a fresh region of `size` bytes: nothing written, nothing read.
    pub open spec fn fresh(size: nat) -> RingbufferHeader {
        RingbufferHeader {
            write_offset: 24,
            read_offset: 24,
            capacity: (size % 0x1_0000_0000) as u32,
            frame_counter: 0,
        }
    }

    /// The header of a fresh region of `size` bytes.
    pub fn initial(size: usize) -> (r: Self)
        ensures
            r == Self::fresh(size as nat),
    {
        RingbufferHeader {
            write_offset: 24,
            read_offset: 24,
            capacity: (size as u64 % 0x1_0000_0000) as u32,
            frame_counter: 0,
        }
    }

    /// Writes the header at the start of a region.
    pub fn write(&self, data: &mut [u8])
        requires
            old(data)@.len() >= 24,
        ensures
            final(data)@ == self.written(old(data)@),
    {
        let mut pos: usize = 0;
        write_u32(data, &mut pos, self.write_offset);
        write_u32(data, &mut pos, self.read_offset);
        write_u32(data, &mut pos, self.capacity);
        let ghost fields = buffer::le32(self.write_offset) + buffer::le32(self.read_offset)
            + buffer::le32(self.capacity);
        assert(data@ =~= cmd_writer::overwritten(old(data)@, 0, fields));
        let mut tail: usize = 16;
        write_u32(data, &mut tail, (self.frame_counter % 0x1_0000_0000) as u32);
        write_u32(data, &mut tail, (self.frame_counter / 0x1_0000_0000) as u32);
        assert(data@ =~= self.written(old(data)@));
    }
}

/// Why a frame's commands cannot be read from the region.
#[derive(Debug, Clone, Copy, PartialEq, Eq, Structural)]
pub enum CommandSliceError {
    OverlapsHeader { offset: usize },
    TooLong { length: usize, max_len: usize },
    Overflow,
    PastMapping { end: usize, size: usize },
    CapacityPastMapping { capacity: usize, size: usize },
    PastCapacity { end: usize, capacity: usize },
}

impl CommandSliceError {
    /// What the error says.
    pub open spec fn wording(self) -> Seq<char> {
        match self {
            CommandSliceError::OverlapsHeader { offset } => "command offset "@ + text::decimal(
                offset as nat,
            ) + " overlaps ringbuffer header"@,
            CommandSliceError::TooLong { length, max_len } => "command length "@ + text::decimal(
                length as nat,
            ) + " exceeds max "@ + text::decimal(max_len as nat),
            CommandSliceError::Overflow => "command offset + length overflow"@,
            CommandSliceError::PastMapping { end, size } => "command slice end "@ + text::decimal(
                end as nat,
            ) + " exceeds mapping size "@ + text::decimal(size as nat),
            CommandSliceError::CapacityPastMapping { capacity, size } => "ringbuffer capacity "@
                + text::decimal(capacity as nat) + " exceeds mapping size "@ + text::decimal(
                size as nat,
            ),
            CommandSliceError::PastCapacity { end, capacity } => "command slice end "@
                + text::decimal(end as nat) + " exceeds ringbuffer capacity "@ + text::decimal(
                capacity as nat,
            ),
        }
    }

    /// What the error says, for a log.
    pub fn message(&self) -> (r: String)
        ensures
            r@ == self.wording(),
    {
        let mut out = String::new();
        match *self {
            CommandSliceError::OverlapsHeader { offset } => {
                out.append("command offset ");
                append_decimal(&mut out, offset as u64);
                out.append(" overlaps ringbuffer header");
            },
            CommandSliceError::TooLong { length, max_len } => {
                out.append("command length ");
                append_decimal(&mut out, length as u64);
                out.append(" exceeds max ");
                append_decimal(&mut out, max_len as u64);
            },
            CommandSliceError::Overflow => {
                out.append("command offset + length overflow");
            },
            CommandSliceError::PastMapping { end, size } => {
                out.append("command slice end ");
                append_decimal(&mut out, end as u64);
                out.append(" exceeds mapping size ");
                append_decimal(&mut out, size as u64);
            },
            CommandSliceError::CapacityPastMapping { capacity, size } => {
                out.append("ringbuffer capacity ");
                append_decimal(&mut out, capacity as u64);
                out.append(" exceeds mapping size ");
                append_decimal(&mut out, size as u64);
            },
            CommandSliceError::PastCapacity { end, capacity } => {
                out.append("command slice end ");
                append_decimal(&mut out, end as u64);
                out.append(" exceeds ringbuffer capacity ");
                append_decimal(&mut out, capacity as u64);
            },
        }
        assert(out@ =~= self.wording());
        out
    }
}

/// What keeps a frame of `length` bytes at `offset` from being read, where a frame
/// may have `max_len` bytes, the region `size` and its header says `capacity`.
pub open spec fn slice_error(
    offset: u32,
    length: u32,
    max_len: usize,
    size: usize,
    capacity: u32,
) -> Option<CommandSliceError> {
    let end = (offset + length) as usize;
    if offset < 24 {
        Some(CommandSliceError::OverlapsHeader { offset: offset as usize })
    } else if length > max_len {
        Some(CommandSliceError::TooLong { length: length as usize, max_len })
    } else if offset + length > usize::MAX {
        Some(CommandSliceError::Overflow)
    } else if offset + length > size {
        Some(CommandSliceError::PastMapping { end, size })
    } else if capacity > size {
        Some(CommandSliceError::CapacityPastMapping { capacity: capacity as usize, size })
    } else if offset + length > capacity {
        Some(CommandSliceError::PastCapacity { end, capacity: capacity as usize })
    } else {
        None
    }
}

/// A command region that is mapped into memory.
#[derive(Debug, Clone, Copy)]
pub struct SharedMemory<'a> {
    bytes: &'a [u8],
}

impl<'a> View for SharedMemory<'a> {
    type V = Seq<u8>;

    closed spec fn view(&self) -> Seq<u8> {
        self.bytes@
    }
}

fn u32_from(data: &[u8], at: usize) -> (r: u32)
    requires
        at + 4 <= data@.len(),
    ensures
        r == buffer::u32_at(data@, at as int),
{
    data[at] as u32 + 0x100 * (data[at + 1] as u32) + 0x1_0000 * (data[at + 2] as u32) + 0x100_0000
        * (data[at + 3] as u32)
}

impl<'a> SharedMemory<'a> {
    /// The region whose bytes are `bytes`.
    pub fn new(bytes: &'a [u8]) -> (r: Self)
        requires
            bytes@.len() >= 24,
        ensures
            r@ == bytes@,
    {
        SharedMemory { bytes }
    }

    /// The region's header.
    pub fn header(&self) -> (r: RingbufferHeader)
        requires
            self@.len() >= 24,
        ensures
            r == RingbufferHeader::stored(self@),
    {
        RingbufferHeader {
            write_offset: u32_from(self.bytes, 0),
            read_offset: u32_from(self.bytes, 4),
            capacity: u32_from(self.bytes, 8),
            frame_counter: u32_from(self.bytes, 16) as u64 + 0x1_0000_0000 * (u32_from(
                self.bytes,
                20,
            ) as u64),
        }
    }

    /// The region's bytes, the header included.
    pub fn data(&self) -> (r: &'a [u8])
        ensures
            r@ == self@,
    {
        self.bytes
    }

    /// The bytes of a frame's commands. The region's other side writes the header,
    /// so that what it says is held against the region's size.
    pub fn command_slice(&self, offset: u32, length: u32, max_len: usize) -> (r: Result<
        &'a [u8],
        CommandSliceError,
    >)
        requires
            self@.len() >= 24,
        ensures
            ({
                let error = slice_error(
                    offset,
                    length,
                    max_len,
                    self@.len() as usize,
                    RingbufferHeader::stored(self@).capacity,
                );
                match r {
                    Ok(slice) => error is None && slice@ == self@.subrange(
                        offset as int,
                        offset + length,
                    ),
                    Err(e) => error == Some(e),
                }
            }),
    {
        let offset: usize = offset as usize;
        let length: usize = length as usize;
        let size: usize = self.bytes.len();
        if offset < RINGBUFFER_HEADER_SIZE {
            return Err(CommandSliceError::OverlapsHeader { offset });
        }
        if length > max_len {
            return Err(CommandSliceError::TooLong { length, max_len });
        }
        let end: usize = match offset.checked_add(length) {
            Some(end) => end,
            None => {
                return Err(CommandSliceError::Overflow);
            },
        };
        if end > size {
            return Err(CommandSliceError::PastMapping { end, size });
        }
        let capacity: usize = self.header().capacity as usize;
        if capacity > size {
            return Err(CommandSliceError::CapacityPastMapping { capacity, size });
        }
        if end > capacity {
            return Err(CommandSliceError::PastCapacity { end, capacity });
        }
        Ok(slice_subrange(self.bytes, offset, end))
    }
}

/// A header reads back as it was written.
pub proof fn header_reads_back(h: RingbufferHeader, s: Seq<u8>)
    requires
        s.len() >= 24,
    ensures
        RingbufferHeader::stored(h.written(s)) == h,
        h.written(s).len() == s.len(),
{
    buffer::le32_reads_back(h.write_offset);
    buffer::le32_reads_back(h.read_offset);
    buffer::le32_reads_back(h.capacity);
    buffer::le64_reads_back(h.frame_counter);
    let w = h.written(s);
    assert(buffer::u32_at(w, 0) == buffer::u32_at(buffer::le32(h.write_offset), 0));
    assert(buffer::u32_at(w, 4) == buffer::u32_at(buffer::le32(h.read_offset), 0));
    assert(buffer::u32_at(w, 8) == buffer::u32_at(buffer::le32(h.capacity), 0));
    let c = buffer::le64(h.frame_counter);
    assert(w.skip(16).take(8) =~= c);
    assert(forall|i: int| 0 <= i < 8 ==> #[trigger] w[16 + i] == c[i]);
    assert(w[16] == c[0] && w[17] == c[1] && w[18] == c[2] && w[19] == c[3]);
    assert(w[20] == c[4] && w[21] == c[5] && w[22] == c[6] && w[23] == c[7]);
}

/// Writing a header leaves the frames' bytes alone.
pub proof fn headers_leave_the_commands_alone(h: RingbufferHeader, s: Seq<u8>)
    requires
        s.len() >= 24,
    ensures
        h.written(s).skip(24) == s.skip(24),
{
    assert(h.written(s).skip(24) =~= s.skip(24));
}

/// Whatever the header says, a frame that can be read lies behind the header,
/// within the region, within the capacity and within the limit of a frame.
pub proof fn frames_stay_in_the_region(
    offset: u32,
    length: u32,
    max_len: usize,
    size: usize,
    capacity: u32,
)
    requires
        slice_error(offset, length, max_len, size, capacity) is None,
    ensures
        24 <= offset,
        offset + length <= size,
        offset + length <= capacity,
        length <= max_len,
{
}

/// In a fresh region, every frame behind the header that ends within the region
/// and is within the limit can be read.
pub proof fn fresh_regions_take_frames(offset: u32, length: u32, max_len: usize, size: usize)
    requires
        size <= u32::MAX,
        24 <= offset,
        offset + length <= size,
        length <= max_len,
    ensures
        slice_error(
            offset,
            length,
            max_len,
            size,
            RingbufferHeader::fresh(size as nat).capacity,
        ) is None,
{
}

/// The name of the command region of the app in process `pid`.
pub open spec fn region_name(pid: u32) -> Seq<char> {
    "overlay-core-cmds-"@ + text::decimal(pid as nat)
}

/// The name of the command region of the app in process `pid`.
pub fn command_region_name(pid: u32) -> (r: String)
    ensures
        r@ == region_name(pid),
{
    let mut out = String::from_str("overlay-core-cmds-");
    append_decimal(&mut out, pid as u64);
    out
}

} // verus!
