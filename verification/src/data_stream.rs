//! A bounds-checked sequential reader over an immutable byte buffer.

use crate::error::WorldLoadError;
use crate::grammar::{as_i16, as_i32, as_i64, le16_at, le32_at, le64_at, lossy_decode, text_of};
use vstd::prelude::*;
use vstd::utf8::{decode_utf8, valid_utf8};

verus! {

/// Mathematical model of a cursor: the underlying bytes and the current
/// read offset.
pub struct StreamModel {
    pub bytes: Seq<u8>,
    pub pos: int,
}

/// A bounds-checked sequential little-endian reader. It owns no semantics
/// about the world format, only binary primitives: every read first checks
/// that the requested bytes exist, advances the offset by exactly the
/// number of bytes consumed, and never wraps or re-reads.
pub struct DataStream {
    buffer: Vec<u8>,
    position: usize,
}

impl View for DataStream {
    type V = StreamModel;

    closed spec fn view(&self) -> StreamModel {
        StreamModel { bytes: self.buffer@, pos: self.position as int }
    }
}

/// Relies on `String::from_utf8_lossy`: the result is a function of the
/// bytes alone, and valid UTF-8 decodes to exactly its characters;
/// malformed sequences are replaced, never rejected.
#[verifier::external_body]
fn bytes_to_string_lossy(v: &[u8]) -> (r: String)
    ensures
        r@ == lossy_decode(v@),
        valid_utf8(v@) ==> r@ == decode_utf8(v@),
{
    String::from_utf8_lossy(v).into_owned()
}

impl DataStream {
    /// The cursor invariant: the read offset never passes the end of the
    /// buffer.
    pub open spec fn wf(&self) -> bool {
        0 <= self@.pos <= self@.bytes.len()
    }

    /// Wrap a buffer, with the cursor at its start.
    pub fn new(buffer: Vec<u8>) -> (r: DataStream)
        ensures
            r.wf(),
            r@.bytes == buffer@,
            r@.pos == 0,
    {
        DataStream { buffer, position: 0 }
    }

    /// Current read offset.
    pub fn position(&self) -> (r: usize)
        ensures
            r == self@.pos,
    {
        self.position
    }

    /// Total length of the underlying buffer.
    pub fn len(&self) -> (r: usize)
        ensures
            r == self@.bytes.len(),
    {
        self.buffer.len()
    }

    /// Whether the underlying buffer is empty.
    pub fn is_empty(&self) -> (r: bool)
        ensures
            r == (self@.bytes.len() == 0),
    {
        self.buffer.len() == 0
    }

    /// Whether at least one byte remains to be read.
    pub fn has_more(&self) -> (r: bool)
        ensures
            r == (self@.pos < self@.bytes.len()),
    {
        self.position < self.buffer.len()
    }

    /// Read one byte and advance past it.
    pub fn read_byte(&mut self) -> (r: Result<u8, WorldLoadError>)
        requires
            old(self).wf(),
        ensures
            final(self).wf(),
            final(self)@.bytes == old(self)@.bytes,
            old(self)@.pos + 1 <= old(self)@.bytes.len() ==> {
                &&& r matches Ok(v)
                &&& v == old(self)@.bytes[old(self)@.pos]
                &&& final(self)@.pos == old(self)@.pos + 1
            },
            old(self)@.pos + 1 > old(self)@.bytes.len() ==> {
                &&& r matches Err(e)
                &&& e matches WorldLoadError::OutOfBounds
                &&& final(self)@.pos == old(self)@.pos
            },
    {
        if self.position < self.buffer.len() {
            let v = self.buffer[self.position];
            self.position = self.position + 1;
            Ok(v)
        } else {
            Err(WorldLoadError::OutOfBounds)
        }
    }

    /// Copy out `count` bytes and advance past them; `count` may be 0.
    pub fn read_bytes(&mut self, count: usize) -> (r: Result<Vec<u8>, WorldLoadError>)
        requires
            old(self).wf(),
        ensures
            final(self).wf(),
            final(self)@.bytes == old(self)@.bytes,
            old(self)@.pos + count <= old(self)@.bytes.len() ==> {
                &&& r matches Ok(v)
                &&& v@ == old(self)@.bytes.subrange(
                    old(self)@.pos,
                    old(self)@.pos + count,
                )
                &&& final(self)@.pos == old(self)@.pos + count
            },
            old(self)@.pos + count > old(self)@.bytes.len() ==> {
                &&& r matches Err(e)
                &&& e matches WorldLoadError::OutOfBounds
                &&& final(self)@.pos == old(self)@.pos
            },
    {
        if count <= self.buffer.len() - self.position {
            let ghost start = self@.pos;
            let mut out: Vec<u8> = Vec::new();
            let mut i: usize = 0;
            while i < count
                invariant
                    i <= count,
                    self@.pos == start,
                    0 <= start,
                    start + count <= self@.bytes.len(),
                    start + count <= usize::MAX,
                    out@ =~= self@.bytes.subrange(start, start + i),
                decreases count - i,
            {
                out.push(self.buffer[self.position + i]);
                i = i + 1;
                assert(out@ =~= self@.bytes.subrange(start, start + i));
            }
            self.position = self.position + count;
            Ok(out)
        } else {
            Err(WorldLoadError::OutOfBounds)
        }
    }

    /// Read a signed 16-bit little-endian value.
    pub fn read_int16(&mut self) -> (r: Result<i16, WorldLoadError>)
        requires
            old(self).wf(),
        ensures
            final(self).wf(),
            final(self)@.bytes == old(self)@.bytes,
            old(self)@.pos + 2 <= old(self)@.bytes.len() ==> {
                &&& r matches Ok(v)
                &&& v as int == as_i16(le16_at(old(self)@.bytes, old(self)@.pos))
                &&& final(self)@.pos == old(self)@.pos + 2
            },
            old(self)@.pos + 2 > old(self)@.bytes.len() ==> {
                &&& r matches Err(e)
                &&& e matches WorldLoadError::OutOfBounds
                &&& final(self)@.pos == old(self)@.pos
            },
    {
        match self.read_uint16() {
            Ok(u) => Ok(i16_from_u16(u)),
            Err(e) => Err(e),
        }
    }

    /// Read an unsigned 16-bit little-endian value.
    pub fn read_uint16(&mut self) -> (r: Result<u16, WorldLoadError>)
        requires
            old(self).wf(),
        ensures
            final(self).wf(),
            final(self)@.bytes == old(self)@.bytes,
            old(self)@.pos + 2 <= old(self)@.bytes.len() ==> {
                &&& r matches Ok(v)
                &&& v as int == le16_at(old(self)@.bytes, old(self)@.pos)
                &&& final(self)@.pos == old(self)@.pos + 2
            },
            old(self)@.pos + 2 > old(self)@.bytes.len() ==> {
                &&& r matches Err(e)
                &&& e matches WorldLoadError::OutOfBounds
                &&& final(self)@.pos == old(self)@.pos
            },
    {
        match self.read_bytes(2) {
            Ok(b) => Ok((b[0] as u16) + 0x100 * (b[1] as u16)),
            Err(e) => Err(e),
        }
    }

    /// Read a signed 32-bit little-endian value.
    pub fn read_int32(&mut self) -> (r: Result<i32, WorldLoadError>)
        requires
            old(self).wf(),
        ensures
            final(self).wf(),
            final(self)@.bytes == old(self)@.bytes,
            old(self)@.pos + 4 <= old(self)@.bytes.len() ==> {
                &&& r matches Ok(v)
                &&& v as int == as_i32(le32_at(old(self)@.bytes, old(self)@.pos))
                &&& final(self)@.pos == old(self)@.pos + 4
            },
            old(self)@.pos + 4 > old(self)@.bytes.len() ==> {
                &&& r matches Err(e)
                &&& e matches WorldLoadError::OutOfBounds
                &&& final(self)@.pos == old(self)@.pos
            },
    {
        match self.read_uint32() {
            Ok(u) => Ok(i32_from_u32(u)),
            Err(e) => Err(e),
        }
    }

    /// Read an unsigned 32-bit little-endian value.
    pub fn read_uint32(&mut self) -> (r: Result<u32, WorldLoadError>)
        requires
            old(self).wf(),
        ensures
            final(self).wf(),
            final(self)@.bytes == old(self)@.bytes,
            old(self)@.pos + 4 <= old(self)@.bytes.len() ==> {
                &&& r matches Ok(v)
                &&& v as int == le32_at(old(self)@.bytes, old(self)@.pos)
                &&& final(self)@.pos == old(self)@.pos + 4
            },
            old(self)@.pos + 4 > old(self)@.bytes.len() ==> {
                &&& r matches Err(e)
                &&& e matches WorldLoadError::OutOfBounds
                &&& final(self)@.pos == old(self)@.pos
            },
    {
        match self.read_bytes(4) {
            Ok(b) => Ok(
                (b[0] as u32) + 0x100 * (b[1] as u32) + 0x1_0000 * (b[2] as u32) + 0x100_0000 * (
                b[3] as u32),
            ),
            Err(e) => Err(e),
        }
    }

    /// Read a signed 64-bit little-endian value.
    pub fn read_int64(&mut self) -> (r: Result<i64, WorldLoadError>)
        requires
            old(self).wf(),
        ensures
            final(self).wf(),
            final(self)@.bytes == old(self)@.bytes,
            old(self)@.pos + 8 <= old(self)@.bytes.len() ==> {
                &&& r matches Ok(v)
                &&& v as int == as_i64(le64_at(old(self)@.bytes, old(self)@.pos))
                &&& final(self)@.pos == old(self)@.pos + 8
            },
            old(self)@.pos + 8 > old(self)@.bytes.len() ==> {
                &&& r matches Err(e)
                &&& e matches WorldLoadError::OutOfBounds
                &&& final(self)@.pos == old(self)@.pos
            },
    {
        match self.read_bytes(8) {
            Ok(b) => {
                let u: u64 = (b[0] as u64) + 0x100 * (b[1] as u64) + 0x1_0000 * (b[2] as u64)
                    + 0x100_0000 * (b[3] as u64) + 0x1_0000_0000 * (b[4] as u64)
                    + 0x100_0000_0000 * (b[5] as u64) + 0x1_0000_0000_0000 * (b[6] as u64)
                    + 0x100_0000_0000_0000 * (b[7] as u64);
                Ok(i64_from_u64(u))
            },
            Err(e) => Err(e),
        }
    }

    /// Read one byte as a boolean: nonzero means true.
    pub fn read_bool(&mut self) -> (r: Result<bool, WorldLoadError>)
        requires
            old(self).wf(),
        ensures
            final(self).wf(),
            final(self)@.bytes == old(self)@.bytes,
            old(self)@.pos + 1 <= old(self)@.bytes.len() ==> {
                &&& r matches Ok(v)
                &&& v == (old(self)@.bytes[old(self)@.pos] != 0)
                &&& final(self)@.pos == old(self)@.pos + 1
            },
            old(self)@.pos + 1 > old(self)@.bytes.len() ==> {
                &&& r matches Err(e)
                &&& e matches WorldLoadError::OutOfBounds
                &&& final(self)@.pos == old(self)@.pos
            },
    {
        match self.read_byte() {
            Ok(v) => Ok(v != 0),
            Err(e) => Err(e),
        }
    }

    /// Read a length-prefixed string: a little-endian 32-bit byte count,
    /// then that many bytes, decoded permissively (malformed sequences are
    /// replaced rather than rejected).
    pub fn read_string(&mut self) -> (r: Result<String, WorldLoadError>)
        requires
            old(self).wf(),
        ensures
            final(self).wf(),
            final(self)@.bytes == old(self)@.bytes,
            ({
                let b = old(self)@.bytes;
                let p = old(self)@.pos;
                if p + 4 > b.len() {
                    &&& r matches Err(e)
                &&& e matches WorldLoadError::OutOfBounds
                    &&& final(self)@.pos == p
                } else if p + 4 + le32_at(b, p) > b.len() {
                    &&& r matches Err(e)
                &&& e matches WorldLoadError::OutOfBounds
                    &&& final(self)@.pos == p + 4
                } else {
                    &&& r matches Ok(s)
                    &&& s@ == text_of(b.subrange(p + 4, p + 4 + le32_at(b, p)))
                    &&& final(self)@.pos == p + 4 + le32_at(b, p)
                }
            }),
    {
        let n = match self.read_uint32() {
            Ok(n) => n,
            Err(e) => {
                return Err(e);
            },
        };
        match self.read_bytes(n as usize) {
            Ok(raw) => Ok(bytes_to_string_lossy(raw.as_slice())),
            Err(e) => Err(e),
        }
    }

    /// Advance the cursor by `count` bytes without producing them.
    pub fn skip(&mut self, count: usize) -> (r: Result<(), WorldLoadError>)
        requires
            old(self).wf(),
        ensures
            final(self).wf(),
            final(self)@.bytes == old(self)@.bytes,
            old(self)@.pos + count <= old(self)@.bytes.len() ==> {
                &&& r matches Ok(v)
                &&& final(self)@.pos == old(self)@.pos + count
            },
            old(self)@.pos + count > old(self)@.bytes.len() ==> {
                &&& r matches Err(e)
                &&& e matches WorldLoadError::OutOfBounds
                &&& final(self)@.pos == old(self)@.pos
            },
    {
        if count <= self.buffer.len() - self.position {
            self.position = self.position + count;
            Ok(())
        } else {
            Err(WorldLoadError::OutOfBounds)
        }
    }

    /// Move the cursor to an absolute offset inside `[0, len]`.
    pub fn seek(&mut self, position: usize) -> (r: Result<(), WorldLoadError>)
        requires
            old(self).wf(),
        ensures
            final(self).wf(),
            final(self)@.bytes == old(self)@.bytes,
            position <= old(self)@.bytes.len() ==> {
                &&& r matches Ok(v)
                &&& final(self)@.pos == position
            },
            position > old(self)@.bytes.len() ==> {
                &&& r matches Err(e)
                &&& e matches WorldLoadError::OutOfBounds
                &&& final(self)@.pos == old(self)@.pos
            },
    {
        if position <= self.buffer.len() {
            self.position = position;
            Ok(())
        } else {
            Err(WorldLoadError::OutOfBounds)
        }
    }
}

/// Two's-complement reinterpretation of an unsigned 16-bit value.
fn i16_from_u16(u: u16) -> (r: i16)
    ensures
        r as int == as_i16(u as int),
{
    if u < 0x8000 {
        u as i16
    } else {
        let d: u16 = 0xFFFF - u;
        -(d as i16) - 1
    }
}

/// Two's-complement reinterpretation of an unsigned 32-bit value.
fn i32_from_u32(u: u32) -> (r: i32)
    ensures
        r as int == as_i32(u as int),
{
    if u < 0x8000_0000 {
        u as i32
    } else {
        let d: u32 = 0xFFFF_FFFF - u;
        -(d as i32) - 1
    }
}

/// Two's-complement reinterpretation of an unsigned 64-bit value.
fn i64_from_u64(u: u64) -> (r: i64)
    ensures
        r as int == as_i64(u as int),
{
    if u < 0x8000_0000_0000_0000 {
        u as i64
    } else {
        let d: u64 = 0xFFFF_FFFF_FFFF_FFFF - u;
        -(d as i64) - 1
    }
}

} // verus!
