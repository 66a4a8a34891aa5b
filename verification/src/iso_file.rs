//! An in-memory loaded file: a byte buffer with a seek cursor, satisfying
//! the minimal read/seek contract an image decoder needs.
use vstd::prelude::*;

verus! {

/// Where a seek starts from.
#[derive(Debug, Clone, Copy, PartialEq, Eq, Structural)]
pub enum SeekFrom {
    /// From the start of the buffer.
    Start(u64),
    /// From the end of the buffer.
    End(i64),
    /// From the current cursor.
    Current(i64),
}

/// A seek that would land before the start of the buffer or beyond the
/// representable range.
#[derive(Debug, Clone, Copy, PartialEq, Eq, Structural)]
pub struct InvalidSeek;

/// Represents an in-memory loaded file: a byte buffer and a seek cursor.
/// The cursor may point past the end of the buffer; reads there yield
/// nothing.
#[derive(Debug)]
pub struct IsoFile {
    /// In-memory file buffer.
    pub data: Vec<u8>,
    /// The current seek position.
    pub seek: u64,
}

/// What a read of `count` bytes at cursor `seek` yields: the bytes from the
/// cursor up to `count` or the end of the buffer, whichever comes first.
pub open spec fn spec_read_result(data: Seq<u8>, seek: u64, count: int) -> Seq<u8> {
    if seek as int >= data.len() {
        Seq::empty()
    } else if seek + count <= data.len() {
        data.subrange(seek as int, seek + count)
    } else {
        data.subrange(seek as int, data.len() as int)
    }
}

/// Where a seek request points, as an unbounded integer.
pub open spec fn spec_seek_target(data_len: int, seek: u64, pos: SeekFrom) -> int {
    match pos {
        SeekFrom::Start(o) => o as int,
        SeekFrom::End(o) => data_len + o,
        SeekFrom::Current(o) => seek + o,
    }
}

impl IsoFile {
    /// Read up to `count` bytes at the cursor and advance the cursor by the
    /// bytes actually read. Past the end of the buffer nothing is read.
    pub fn read(&mut self, count: usize) -> (r: Vec<u8>)
        ensures
            r@ == spec_read_result(old(self).data@, old(self).seek, count as int),
            final(self).data == old(self).data,
            final(self).seek == old(self).seek + r@.len(),
    {
        let len = self.data.len();
        if self.seek >= len as u64 {
            return Vec::new();
        }
        let start = self.seek as usize;
        let available = len - start;
        let to_read = if count < available {
            count
        } else {
            available
        };
        let mut out: Vec<u8> = Vec::new();
        let mut i: usize = 0;
        while i < to_read
            invariant
                len == self.data@.len(),
                start + to_read <= len,
                i <= to_read,
                out@ == self.data@.subrange(start as int, start + i),
            decreases to_read - i,
        {
            out.push(self.data[start + i]);
            proof {
                assert(self.data@.subrange(start as int, start + i + 1) =~= self.data@.subrange(
                    start as int,
                    start + i,
                ).push(self.data@[start + i]));
            }
            i = i + 1;
        }
        self.seek = self.seek + to_read as u64;
        proof {
            assert(out@ =~= spec_read_result(self.data@, old(self).seek, count as int));
        }
        out
    }

    /// Move the cursor. A request that lands before the start of the buffer
    /// or beyond the representable range fails and leaves the cursor alone;
    /// landing past the end of the buffer is allowed.
    pub fn seek(&mut self, pos: SeekFrom) -> (r: Result<u64, InvalidSeek>)
        ensures
            final(self).data == old(self).data,
            ({
                let target = spec_seek_target(old(self).data@.len() as int, old(self).seek, pos);
                if 0 <= target <= u64::MAX {
                    r == Ok::<u64, InvalidSeek>(target as u64) && final(self).seek == target
                } else {
                    r == Err::<u64, InvalidSeek>(InvalidSeek) && final(self).seek == old(
                        self,
                    ).seek
                }
            }),
    {
        let len = self.data.len();
        let target: i128 = match pos {
            SeekFrom::Start(o) => o as i128,
            SeekFrom::End(o) => len as i128 + o as i128,
            SeekFrom::Current(o) => self.seek as i128 + o as i128,
        };
        if target < 0 || target > u64::MAX as i128 {
            return Err(InvalidSeek);
        }
        self.seek = target as u64;
        Ok(self.seek)
    }
}

} // verus!
