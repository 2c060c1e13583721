//! A cursor over bytes that reads little-endian integers.
use crate::common::HailoError;
use vstd::prelude::*;
use vstd::string::StringExecFns;

verus! {

/// Bytes with a read position.
pub struct SeekableBytesReader {
    inner: Vec<u8>,
    position: u64,
}

/// The bytes and the read position.
pub struct ReaderView {
    pub bytes: Seq<u8>,
    pub position: nat,
}

impl View for SeekableBytesReader {
    type V = ReaderView;

    closed spec fn view(&self) -> ReaderView {
        ReaderView { bytes: self.inner@, position: self.position as nat }
    }
}

/// The unsigned value of `b`, least significant byte first.
pub open spec fn le_value(b: Seq<u8>) -> nat
    decreases b.len(),
{
    if b.len() == 0 {
        0
    } else {
        b[0] as nat + 0x100 * le_value(b.drop_first())
    }
}

/// `n` bytes can be read at the position of `v`.
pub open spec fn can_read(v: ReaderView, n: nat) -> bool {
    v.position + n <= v.bytes.len()
}

/// The `n` bytes at the position of `v`.
pub open spec fn bytes_at(v: ReaderView, n: nat) -> Seq<u8> {
    v.bytes.subrange(v.position as int, (v.position + n) as int)
}

/// `after` is `before` with the position moved on by `n` on success, and
/// unmoved on failure.
pub open spec fn advanced(before: ReaderView, after: ReaderView, n: nat, ok: bool) -> bool {
    &&& after.bytes == before.bytes
    &&& after.position == if ok {
        before.position + n
    } else {
        before.position
    }
}

impl SeekableBytesReader {
    /// A reader at the start of `inner`.
    pub fn new(inner: Vec<u8>) -> (r: Self)
        ensures
            r@.bytes == inner@,
            r@.position == 0,
    {
        SeekableBytesReader { inner, position: 0 }
    }

    fn start_of_read(&self, n: usize) -> (r: Option<usize>)
        ensures
            r is Some <==> can_read(self@, n as nat),
            r is Some ==> r->Some_0 == self@.position && r->Some_0 + n <= self@.bytes.len(),
            self@.bytes.len() <= usize::MAX,
    {
        let len = self.inner.len();
        assert(self.inner@.len() == len);
        if self.position > len as u64 {
            None
        } else {
            let p = self.position as usize;
            if len - p < n {
                None
            } else {
                Some(p)
            }
        }
    }

    fn short_read() -> (r: HailoError)
        ensures
            r is IoError,
    {
        HailoError::IoError(String::from_str("unexpected end of data"))
    }

    /// The next `length` bytes; an error, with the position kept, when fewer
    /// are left.
    pub fn read_bytes(&mut self, length: usize) -> (r: Result<Vec<u8>, HailoError>)
        ensures
            can_read(old(self)@, length as nat) <==> r is Ok,
            r is Ok ==> r->Ok_0@ == bytes_at(old(self)@, length as nat),
            r is Err ==> r->Err_0 is IoError,
            advanced(old(self)@, final(self)@, length as nat, r is Ok),
    {
        let start = match self.start_of_read(length) {
            Some(p) => p,
            None => return Err(Self::short_read()),
        };
        let mut out: Vec<u8> = Vec::with_capacity(length);
        let mut i: usize = 0;
        while i < length
            invariant
                i <= length,
                start == self@.position,
                start + length <= self@.bytes.len() <= usize::MAX,
                out@ =~= self@.bytes.subrange(start as int, start + i),
            decreases length - i,
        {
            out.push(self.inner[start + i]);
            i = i + 1;
        }
        self.position = (start + length) as u64;
        Ok(out)
    }

    /// Moves to `position`, which may lie past the end; gives it back.
    pub fn seek_to(&mut self, position: u64) -> (r: Result<u64, HailoError>)
        ensures
            r == Ok::<u64, HailoError>(position),
            final(self)@.bytes == old(self)@.bytes,
            final(self)@.position == position,
    {
        self.position = position;
        Ok(position)
    }

    /// The read position.
    pub fn current_position(&mut self) -> (r: Result<u64, HailoError>)
        ensures
            r == Ok::<u64, HailoError>(old(self)@.position as u64),
            final(self)@ == old(self)@,
    {
        Ok(self.position)
    }

    /// The next byte.
    pub fn read_u8(&mut self) -> (r: Result<u8, HailoError>)
        ensures
            can_read(old(self)@, 1) <==> r is Ok,
            r is Ok ==> r->Ok_0 == le_value(bytes_at(old(self)@, 1)),
            r is Err ==> r->Err_0 is IoError,
            advanced(old(self)@, final(self)@, 1, r is Ok),
    {
        let p = match self.start_of_read(1) {
            Some(p) => p,
            None => return Err(Self::short_read()),
        };
        let b = self.inner[p];
        self.position = (p + 1) as u64;
        proof {
            assert(bytes_at(old(self)@, 1) =~= seq![b]);
            reveal_with_fuel(le_value, 2);
        }
        Ok(b)
    }

    /// The next four bytes as a little-endian integer.
    pub fn read_u32(&mut self) -> (r: Result<u32, HailoError>)
        ensures
            can_read(old(self)@, 4) <==> r is Ok,
            r is Ok ==> r->Ok_0 == le_value(bytes_at(old(self)@, 4)),
            r is Err ==> r->Err_0 is IoError,
            advanced(old(self)@, final(self)@, 4, r is Ok),
    {
        let p = match self.start_of_read(4) {
            Some(p) => p,
            None => return Err(Self::short_read()),
        };
        let b = &self.inner;
        let v: u32 = b[p] as u32 + 0x100 * (b[p + 1] as u32 + 0x100 * (b[p + 2] as u32 + 0x100 * (
        b[p + 3] as u32)));
        proof {
            let s = bytes_at(self@, 4);
            reveal_with_fuel(le_value, 5);
            assert(s.drop_first().drop_first().drop_first().drop_first() =~= seq![]);
        }
        self.position = (p + 4) as u64;
        Ok(v)
    }

    /// The next eight bytes as a little-endian integer.
    pub fn read_u64(&mut self) -> (r: Result<u64, HailoError>)
        ensures
            can_read(old(self)@, 8) <==> r is Ok,
            r is Ok ==> r->Ok_0 == le_value(bytes_at(old(self)@, 8)),
            r is Err ==> r->Err_0 is IoError,
            advanced(old(self)@, final(self)@, 8, r is Ok),
    {
        let p = match self.start_of_read(8) {
            Some(p) => p,
            None => return Err(Self::short_read()),
        };
        let b = &self.inner;
        let v: u64 = b[p] as u64 + 0x100 * (b[p + 1] as u64 + 0x100 * (b[p + 2] as u64 + 0x100 * (
        b[p + 3] as u64 + 0x100 * (b[p + 4] as u64 + 0x100 * (b[p + 5] as u64 + 0x100 * (b[p + 6] as u64
            + 0x100 * (b[p + 7] as u64)))))));
        proof {
            let s = bytes_at(self@, 8);
            reveal_with_fuel(le_value, 9);
            assert(s.drop_first().drop_first().drop_first().drop_first().drop_first().drop_first().drop_first().drop_first()
                =~= seq![]);
        }
        self.position = (p + 8) as u64;
        Ok(v)
    }
}

} // verus!
