use vstd::prelude::*;
use vstd::slice::slice_subrange;

verus! {

/// What a cursor is, as far as its behaviour goes: the bytes it reads from
/// and the offset of the next byte to read, which may lie past the end.
pub struct CursorState {
    pub data: Seq<u8>,
    pub pos: usize,
}

/// The state of a cursor rebuilt from a buffer and a raw position.
pub open spec fn parts_state(source: Seq<u8>, position: usize) -> CursorState {
    CursorState { data: source, pos: position }
}

/// The bytes that reading `count` bytes at `pos` yields, or `None` when they
/// do not all lie inside `data`.
pub open spec fn read_outcome(data: Seq<u8>, pos: int, count: int) -> Option<Seq<u8>> {
    if pos + count <= data.len() {
        Some(data.subrange(pos, pos + count))
    } else {
        None
    }
}

/// The state after an attempt to read `count` bytes from `s`: the position
/// moves past them when they are all there, and stays put otherwise.
pub open spec fn state_after_read(s: CursorState, count: int) -> CursorState {
    if read_outcome(s.data, s.pos as int, count) is Some {
        CursorState { data: s.data, pos: (s.pos + count) as usize }
    } else {
        s
    }
}

/// The contents of an optional borrowed slice.
pub open spec fn bytes_of(r: Option<&[u8]>) -> Option<Seq<u8>> {
    match r {
        Some(b) => Some(b@),
        None => None,
    }
}

/// A big-endian 16-bit unsigned value.
pub open spec fn be_u16(b: Seq<u8>) -> int {
    b[0] * 0x100 + b[1]
}

/// A big-endian 16-bit two's-complement value.
pub open spec fn be_i16(b: Seq<u8>) -> int {
    if b[0] >= 0x80 {
        be_u16(b) - 0x10000
    } else {
        be_u16(b)
    }
}

/// A big-endian 24-bit unsigned value.
pub open spec fn be_u24(b: Seq<u8>) -> int {
    b[0] * 0x10000 + b[1] * 0x100 + b[2]
}

/// A big-endian 32-bit unsigned value.
pub open spec fn be_u32(b: Seq<u8>) -> int {
    b[0] * 0x1000000 + b[1] * 0x10000 + b[2] * 0x100 + b[3]
}

/// Where a seek goes: to an absolute offset, by a signed distance from the
/// current position, or by a distance back from the end of the buffer.
#[derive(Clone, Copy, Debug, PartialEq, Eq, Structural)]
pub enum SeekFrom {
    Start(u64),
    Current(i64),
    End(i64),
}

/// Why a seek was refused.
#[derive(Clone, Copy, Debug, PartialEq, Eq, Structural)]
pub enum SeekError {
    /// The target lies before the start of the buffer.
    BeforeStart,
    /// The target is too large to be a position.
    TooFar,
}

/// The offset that a seek aims at, computed exactly.
pub open spec fn seek_target(data_len: int, pos: int, target: SeekFrom) -> int {
    match target {
        SeekFrom::Start(a) => a as int,
        SeekFrom::Current(d) => pos + d,
        SeekFrom::End(d) => data_len - d,
    }
}

/// The new position a seek gives, or why it is refused.
pub open spec fn seek_outcome(data_len: int, pos: int, target: SeekFrom) -> Result<usize, SeekError> {
    let t = seek_target(data_len, pos, target);
    if t < 0 {
        Err(SeekError::BeforeStart)
    } else if t > usize::MAX {
        Err(SeekError::TooFar)
    } else {
        Ok(t as usize)
    }
}

/// A random-access cursor over a borrowed byte buffer.
///
/// The position may lie past the end of the buffer: reads there fail.
pub struct FlvReader<'a> {
    source: &'a [u8],
    position: usize,
}

impl<'a> View for FlvReader<'a> {
    type V = CursorState;

    closed spec fn view(&self) -> CursorState {
        CursorState { data: self.source@, pos: self.position }
    }
}

impl<'a> FlvReader<'a> {
    /// A cursor at the start of `source`.
    pub fn from_source(source: &'a [u8]) -> (r: Self)
        ensures
            r@ == parts_state(source@, 0),
    {
        FlvReader { source, position: 0 }
    }

    /// Rebuilds a cursor from a buffer and a raw position, which may lie past
    /// the end of the buffer.
    pub fn from_parts(source: &'a [u8], position: usize) -> (r: Self)
        ensures
            r@ == parts_state(source@, position),
    {
        FlvReader { source, position }
    }

    /// Breaks the cursor down into its buffer and its position.
    pub fn into_parts(self) -> (r: (&'a [u8], usize))
        ensures
            r.0@ == self@.data,
            r.1 == self@.pos,
    {
        (self.source, self.position)
    }

    /// The offset of the next byte to read.
    pub fn position(&self) -> (r: usize)
        ensures
            r == self@.pos,
    {
        self.position
    }

    /// The length of the underlying buffer fits in a `usize`.
    pub proof fn lemma_data_fits(&self)
        ensures
            self@.data.len() <= usize::MAX,
    {
        assert(self.source@.len() == vstd::slice::spec_slice_len(self.source));
    }

    /// Reads `count` bytes as a slice of the buffer and moves past them.
    ///
    /// Fails, leaving the position unchanged, when fewer than `count` bytes
    /// remain.
    pub fn read(&mut self, count: usize) -> (r: Option<&'a [u8]>)
        ensures
            bytes_of(r) == read_outcome(old(self)@.data, old(self)@.pos as int, count as int),
            final(self)@ == state_after_read(old(self)@, count as int),
    {
        proof {
            self.lemma_data_fits();
        }
        let start = self.position;
        let end = match self.position.checked_add(count) {
            Some(end) => end,
            None => return None,
        };
        if end > self.source.len() {
            return None;
        }
        self.position = end;
        Some(slice_subrange(self.source, start, end))
    }

    /// Reads `count` bytes as `read` does, but leaves the position where it
    /// was.
    pub fn peek(&mut self, count: usize) -> (r: Option<&'a [u8]>)
        ensures
            bytes_of(r) == read_outcome(old(self)@.data, old(self)@.pos as int, count as int),
            final(self)@ == old(self)@,
    {
        let pos = self.position;
        let ret = self.read(count);
        self.position = pos;
        ret
    }

    /// Reads one byte.
    pub fn read_u8(&mut self) -> (r: Option<u8>)
        ensures
            match read_outcome(old(self)@.data, old(self)@.pos as int, 1) {
                Some(b) => r == Some(b[0]),
                None => r is None,
            },
            final(self)@ == state_after_read(old(self)@, 1),
    {
        match self.read(1) {
            Some(b) => Some(b[0]),
            None => None,
        }
    }

    /// Reads a big-endian `u16`.
    pub fn read_u16(&mut self) -> (r: Option<u16>)
        ensures
            match read_outcome(old(self)@.data, old(self)@.pos as int, 2) {
                Some(b) => r == Some(be_u16(b) as u16),
                None => r is None,
            },
            final(self)@ == state_after_read(old(self)@, 2),
    {
        match self.read(2) {
            Some(b) => Some((b[0] as u16) * 0x100 + b[1] as u16),
            None => None,
        }
    }

    /// Reads a big-endian `i16`.
    pub fn read_i16(&mut self) -> (r: Option<i16>)
        ensures
            match read_outcome(old(self)@.data, old(self)@.pos as int, 2) {
                Some(b) => r == Some(be_i16(b) as i16),
                None => r is None,
            },
            final(self)@ == state_after_read(old(self)@, 2),
    {
        match self.read(2) {
            Some(b) => {
                let hi: i32 = b[0] as i32;
                let lo: i32 = b[1] as i32;
                let v: i32 = if hi >= 0x80 {
                    (hi - 0x100) * 0x100 + lo
                } else {
                    hi * 0x100 + lo
                };
                Some(v as i16)
            },
            None => None,
        }
    }

    /// Reads a big-endian 24-bit unsigned value, widened to `u32`.
    pub fn read_u24(&mut self) -> (r: Option<u32>)
        ensures
            match read_outcome(old(self)@.data, old(self)@.pos as int, 3) {
                Some(b) => r == Some(be_u24(b) as u32),
                None => r is None,
            },
            final(self)@ == state_after_read(old(self)@, 3),
    {
        match self.read(3) {
            Some(b) => Some((b[0] as u32) * 0x10000 + (b[1] as u32) * 0x100 + b[2] as u32),
            None => None,
        }
    }

    /// Reads a big-endian 24-bit unsigned value without moving.
    pub fn peek_u24(&mut self) -> (r: Option<u32>)
        ensures
            match read_outcome(old(self)@.data, old(self)@.pos as int, 3) {
                Some(b) => r == Some(be_u24(b) as u32),
                None => r is None,
            },
            final(self)@ == old(self)@,
    {
        match self.peek(3) {
            Some(b) => Some((b[0] as u32) * 0x10000 + (b[1] as u32) * 0x100 + b[2] as u32),
            None => None,
        }
    }

    /// Reads a big-endian `u32`.
    pub fn read_u32(&mut self) -> (r: Option<u32>)
        ensures
            match read_outcome(old(self)@.data, old(self)@.pos as int, 4) {
                Some(b) => r == Some(be_u32(b) as u32),
                None => r is None,
            },
            final(self)@ == state_after_read(old(self)@, 4),
    {
        match self.read(4) {
            Some(b) => Some(
                (b[0] as u32) * 0x1000000 + (b[1] as u32) * 0x10000 + (b[2] as u32) * 0x100
                    + b[3] as u32,
            ),
            None => None,
        }
    }

    /// Moves the cursor and returns the new position.
    ///
    /// A target past the end of the buffer is accepted; a target before its
    /// start, or too large for a position, is refused and the position is
    /// kept.
    pub fn seek(&mut self, target: SeekFrom) -> (r: Result<u64, SeekError>)
        ensures
            final(self)@.data == old(self)@.data,
            match seek_outcome(old(self)@.data.len() as int, old(self)@.pos as int, target) {
                Ok(p) => r == Ok::<u64, SeekError>(p as u64) && final(self)@.pos == p,
                Err(e) => r == Err::<u64, SeekError>(e) && final(self)@.pos == old(self)@.pos,
            },
    {
        proof {
            self.lemma_data_fits();
        }
        let len = self.source.len();
        let t: i128 = match target {
            SeekFrom::Start(a) => a as i128,
            SeekFrom::Current(d) => self.position as i128 + d as i128,
            SeekFrom::End(d) => len as i128 - d as i128,
        };
        if t < 0 {
            return Err(SeekError::BeforeStart);
        }
        if t > usize::MAX as i128 {
            return Err(SeekError::TooFar);
        }
        self.position = t as usize;
        Ok(t as u64)
    }
}

/// The big-endian bytes of a `u16`.
pub open spec fn u16_be_bytes(v: u16) -> Seq<u8> {
    seq![(v / 0x100) as u8, (v % 0x100) as u8]
}

/// The big-endian two's-complement bytes of an `i16`.
pub open spec fn i16_be_bytes(v: i16) -> Seq<u8> {
    u16_be_bytes((if v < 0 { v + 0x10000 } else { v as int }) as u16)
}

/// The three low big-endian bytes of a 24-bit value.
pub open spec fn u24_be_bytes(v: u32) -> Seq<u8> {
    seq![(v / 0x10000) as u8, ((v / 0x100) % 0x100) as u8, (v % 0x100) as u8]
}

/// The big-endian bytes of a `u32`.
pub open spec fn u32_be_bytes(v: u32) -> Seq<u8> {
    seq![
        (v / 0x1000000) as u8,
        ((v / 0x10000) % 0x100) as u8,
        ((v / 0x100) % 0x100) as u8,
        (v % 0x100) as u8,
    ]
}

/// A byte written at the start of a buffer is what a one-byte read there
/// gives back.
pub proof fn lemma_u8_round_trip(v: u8, data: Seq<u8>)
    requires
        data.len() >= 1,
        data[0] == v,
    ensures
        read_outcome(data, 0, 1) is Some,
        read_outcome(data, 0, 1).unwrap()[0] == v,
{
}

/// A `u16` written big-endian at the start of a buffer is what a two-byte
/// read there decodes to.
pub proof fn lemma_u16_round_trip(v: u16, data: Seq<u8>)
    requires
        data.len() >= 2,
        data.subrange(0, 2) == u16_be_bytes(v),
    ensures
        read_outcome(data, 0, 2) is Some,
        be_u16(read_outcome(data, 0, 2).unwrap()) as u16 == v,
{
}

/// An `i16` written big-endian at the start of a buffer is what a two-byte
/// read there decodes to.
pub proof fn lemma_i16_round_trip(v: i16, data: Seq<u8>)
    requires
        data.len() >= 2,
        data.subrange(0, 2) == i16_be_bytes(v),
    ensures
        read_outcome(data, 0, 2) is Some,
        be_i16(read_outcome(data, 0, 2).unwrap()) as i16 == v,
{
}

/// A 24-bit value written big-endian at the start of a buffer is what a
/// three-byte read there decodes to.
pub proof fn lemma_u24_round_trip(v: u32, data: Seq<u8>)
    requires
        v < 0x1000000,
        data.len() >= 3,
        data.subrange(0, 3) == u24_be_bytes(v),
    ensures
        read_outcome(data, 0, 3) is Some,
        be_u24(read_outcome(data, 0, 3).unwrap()) as u32 == v,
{
}

/// A `u32` written big-endian at the start of a buffer is what a four-byte
/// read there decodes to.
pub proof fn lemma_u32_round_trip(v: u32, data: Seq<u8>)
    requires
        data.len() >= 4,
        data.subrange(0, 4) == u32_be_bytes(v),
    ensures
        read_outcome(data, 0, 4) is Some,
        be_u32(read_outcome(data, 0, 4).unwrap()) as u32 == v,
{
}

/// A seek to an absolute offset lands there even past the end of the
/// buffer, and a one-byte read from there then fails.
pub proof fn lemma_seek_past_end(data: Seq<u8>, pos: usize, a: u64)
    requires
        a > data.len(),
        a <= usize::MAX,
    ensures
        seek_outcome(data.len() as int, pos as int, SeekFrom::Start(a)) == Ok::<usize, SeekError>(
            a as usize,
        ),
        read_outcome(data, a as int, 1) is None,
{
}

/// A seek by a distance from the current position succeeds exactly when the
/// target is not negative, and lands on the target.
pub proof fn lemma_seek_current(data_len: int, pos: usize, d: i64)
    requires
        pos + d <= usize::MAX,
    ensures
        seek_outcome(data_len, pos as int, SeekFrom::Current(d)) is Ok <==> pos + d >= 0,
        pos + d >= 0 ==> seek_outcome(data_len, pos as int, SeekFrom::Current(d)) == Ok::<
            usize,
            SeekError,
        >((pos + d) as usize),
{
}

/// A seek by a distance back from the end succeeds exactly when the target
/// is not negative, and lands on the target.
pub proof fn lemma_seek_end(data_len: int, pos: usize, d: i64)
    requires
        data_len - d <= usize::MAX,
    ensures
        seek_outcome(data_len, pos as int, SeekFrom::End(d)) is Ok <==> data_len - d >= 0,
        data_len - d >= 0 ==> seek_outcome(data_len, pos as int, SeekFrom::End(d)) == Ok::<
            usize,
            SeekError,
        >((data_len - d) as usize),
{
}

/// A cursor rebuilt from the buffer and position that it broke down into has
/// the state of the cursor it came from. Every read, peek and seek is
/// specified over that state alone, so the two behave the same from then on.
pub proof fn lemma_parts_round_trip(r: FlvReader, parts: (&[u8], usize))
    requires
        parts.0@ == r@.data,
        parts.1 == r@.pos,
    ensures
        parts_state(parts.0@, parts.1) == r@,
{
}

} // verus!
