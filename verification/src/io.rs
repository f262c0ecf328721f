//! Byte sources and sinks, and one that lives in memory.

use crate::error::{Error, Result};
use vstd::prelude::*;

verus! {

/// A destination that takes bytes in order.
///
/// What a sink does is a matter of the sink: each kind of sink says for
/// itself which outcomes a call may have. Of a sink that says nothing, every
/// outcome is possible.
pub trait Write {
    /// Whether a write that offers `bytes` to this sink may leave the sink as
    /// `after` and answer `r`.
    open spec fn write_outcome(&self, bytes: Seq<u8>, after: &Self, r: Result<usize>) -> bool {
        true
    }

    /// Offers `bytes` to the sink and says how many of them, counted from the
    /// first, it took.
    fn write(&mut self, bytes: &[u8]) -> (r: Result<usize>)
        ensures
            old(self).write_outcome(bytes@, final(self), r),
    ;

    /// Whether a flush of this sink may leave the sink as `after` and answer
    /// `r`.
    open spec fn flush_outcome(&self, after: &Self, r: Result<()>) -> bool {
        true
    }

    /// Pushes everything taken so far through to the final destination.
    fn flush(&mut self) -> (r: Result<()>)
        ensures
            old(self).flush_outcome(final(self), r),
    ;
}

/// An origin that yields bytes in order.
///
/// What a source does is a matter of the source, as it is with a sink.
pub trait Read {
    /// Whether a read of at most `max` bytes from this source may leave the
    /// source as `after` and answer `r`.
    open spec fn read_outcome(&self, max: nat, after: &Self, r: Result<Vec<u8>>) -> bool {
        true
    }

    /// Takes at most `max` bytes from the source. Nothing comes back once the
    /// source is exhausted.
    fn read(&mut self, max: usize) -> (r: Result<Vec<u8>>)
        ensures
            old(self).read_outcome(max as nat, final(self), r),
    ;
}

/// A request to move within a stream, or to learn where it stands.
#[derive(Clone, Copy, Debug, PartialEq, Eq, Structural)]
pub enum SeekFrom {
    /// An offset from the first byte.
    Start(u64),
    /// An offset from one past the last byte.
    End(i64),
    /// An offset from the current position. With offset zero this only asks
    /// for the current position.
    Current(i64),
}

impl SeekFrom {
    /// Whether the request only asks where the stream stands.
    pub open spec fn is_position_query(self) -> bool {
        self == SeekFrom::Current(0)
    }
}

/// A stream in which the position can be moved.
pub trait Seek {
    /// Whether a seek of this stream as `request` asks may leave the stream
    /// as `after` and answer `r`.
    open spec fn seek_outcome(&self, request: SeekFrom, after: &Self, r: Result<u64>) -> bool {
        true
    }

    /// Moves as `request` asks and says where the stream then stands, counted
    /// from the first byte.
    fn seek(&mut self, request: SeekFrom) -> (r: Result<u64>)
        ensures
            old(self).seek_outcome(request, final(self), r),
    ;
}

/// What a cursor is: the bytes it holds and how far into them it stands.
pub struct CursorView {
    pub bytes: Seq<u8>,
    pub pos: nat,
}

impl CursorView {
    /// The position lies within the bytes or right behind them.
    pub open spec fn wf(self) -> bool {
        self.pos <= self.bytes.len()
    }

    /// The cursor after `data` was written at its position: the bytes there
    /// are replaced, the buffer grows where `data` reaches beyond its end,
    /// and the position moves behind what was written.
    pub open spec fn written(self, data: Seq<u8>) -> CursorView {
        let end = self.pos + data.len();
        let tail = if end < self.bytes.len() {
            self.bytes.skip(end as int)
        } else {
            Seq::<u8>::empty()
        };
        CursorView { bytes: self.bytes.take(self.pos as int) + data + tail, pos: end }
    }

    /// How many bytes lie between the position and the end.
    pub open spec fn available(self) -> nat {
        (self.bytes.len() - self.pos) as nat
    }

    /// The bytes that a read of at most `max` bytes yields.
    pub open spec fn taken(self, max: nat) -> Seq<u8> {
        let n = if max < self.available() {
            max
        } else {
            self.available()
        };
        self.bytes.subrange(self.pos as int, (self.pos + n) as int)
    }

    /// The cursor after a read of at most `max` bytes.
    pub open spec fn after_read(self, max: nat) -> CursorView {
        CursorView { bytes: self.bytes, pos: self.pos + self.taken(max).len() }
    }

    /// Where `request` leads, if that lies within the bytes or right behind
    /// them.
    pub open spec fn target(self, request: SeekFrom) -> Option<nat> {
        let t: int = match request {
            SeekFrom::Start(n) => n as int,
            SeekFrom::End(off) => self.bytes.len() + off,
            SeekFrom::Current(off) => self.pos + off,
        };
        if 0 <= t <= self.bytes.len() {
            Some(t as nat)
        } else {
            None
        }
    }

    /// The cursor moved to `pos`.
    pub open spec fn at(self, pos: nat) -> CursorView {
        CursorView { bytes: self.bytes, pos }
    }
}

/// A growable byte buffer with a position: a source, a sink and seekable.
#[derive(Debug)]
pub struct Cursor {
    buf: Vec<u8>,
    pos: usize,
}

impl View for Cursor {
    type V = CursorView;

    closed spec fn view(&self) -> CursorView {
        CursorView { bytes: self.buf@, pos: self.pos as nat }
    }
}

impl Cursor {
    #[verifier::type_invariant]
    closed spec fn inv(self) -> bool {
        self.pos <= self.buf@.len()
    }

    /// A cursor that stands at the start of `buf`.
    pub fn new(buf: Vec<u8>) -> (c: Cursor)
        ensures
            c@ == (CursorView { bytes: buf@, pos: 0 }),
            c@.wf(),
    {
        Cursor { buf, pos: 0 }
    }

    /// Gives the buffer back.
    pub fn into_inner(self) -> (buf: Vec<u8>)
        ensures
            buf@ == self@.bytes,
    {
        self.buf
    }

    /// How far into the buffer the cursor stands.
    pub fn position(&self) -> (pos: u64)
        ensures
            pos == self@.pos,
            self@.wf(),
    {
        proof {
            use_type_invariant(self);
        }
        self.pos as u64
    }
}

/// Writes `bytes` into `buf` from index `pos` on, over what is there and
/// beyond the end where they reach further, and gives the index behind them.
fn put_at(buf: &mut Vec<u8>, pos: usize, bytes: &[u8]) -> (end: usize)
    requires
        pos <= old(buf)@.len(),
    ensures
        end == pos + bytes@.len(),
        (CursorView { bytes: final(buf)@, pos: end as nat }) == (CursorView {
            bytes: old(buf)@,
            pos: pos as nat,
        }).written(bytes@),
{
    let ghost before = CursorView { bytes: buf@, pos: pos as nat };
    let mut at: usize = pos;
    let mut i: usize = 0;
    assert(buf@ =~= before.written(bytes@.take(0)).bytes);
    while i < bytes.len()
        invariant
            i <= bytes@.len(),
            at <= buf@.len(),
            before.wf(),
            (CursorView { bytes: buf@, pos: at as nat }) == before.written(bytes@.take(i as int)),
        decreases bytes@.len() - i,
    {
        let b = bytes[i];
        if at < buf.len() {
            buf.set(at, b);
        } else {
            buf.push(b);
        }
        let len = buf.len();
        at = at + 1;
        proof {
            assert(bytes@.take(i + 1) == bytes@.take(i as int).push(b));
            assert(buf@ =~= before.written(bytes@.take(i + 1)).bytes);
        }
        i = i + 1;
    }
    assert(bytes@.take(i as int) == bytes@);
    at
}

impl Write for Cursor {
    /// A cursor takes all the bytes and holds them at its position.
    open spec fn write_outcome(&self, bytes: Seq<u8>, after: &Self, r: Result<usize>) -> bool {
        r == Ok::<usize, Error>(bytes.len() as usize) && after@ == self@.written(bytes)
    }

    /// A flush leaves a cursor as it is and succeeds.
    open spec fn flush_outcome(&self, after: &Self, r: Result<()>) -> bool {
        r == Ok::<(), Error>(()) && *after == *self
    }

    /// Takes all of `bytes`, as [`CursorView::written`] says.
    fn write(&mut self, bytes: &[u8]) -> (r: Result<usize>)
        ensures
            r == Ok::<usize, Error>(bytes@.len() as usize),
            final(self)@ == old(self)@.written(bytes@),
            final(self)@.wf(),
    {
        proof {
            use_type_invariant(&*self);
        }
        let pos = self.pos;
        let mut buf: Vec<u8> = Vec::new();
        self.pos = 0;
        core::mem::swap(&mut self.buf, &mut buf);
        let end = put_at(&mut buf, pos, bytes);
        core::mem::swap(&mut self.buf, &mut buf);
        self.pos = end;
        Ok(bytes.len())
    }

    /// Has nothing to do: what was written is already in the buffer.
    fn flush(&mut self) -> (r: Result<()>)
        ensures
            r == Ok::<(), Error>(()),
            final(self)@ == old(self)@,
    {
        Ok(())
    }
}

impl Read for Cursor {
    /// A cursor yields its next bytes, as many as asked for or as are left,
    /// and moves behind them.
    open spec fn read_outcome(&self, max: nat, after: &Self, r: Result<Vec<u8>>) -> bool {
        &&& r matches Ok(data) && data@ == self@.taken(max)
        &&& after@ == self@.after_read(max)
    }

    /// Yields the next `max` bytes, or all that are left where those are
    /// fewer, and moves behind them.
    fn read(&mut self, max: usize) -> (r: Result<Vec<u8>>)
        ensures
            r matches Ok(data) && data@ == old(self)@.taken(max as nat),
            final(self)@ == old(self)@.after_read(max as nat),
            final(self)@.wf(),
    {
        proof {
            use_type_invariant(&*self);
        }
        let left = self.buf.len() - self.pos;
        let n = if max < left {
            max
        } else {
            left
        };
        let data = vstd::slice::slice_to_vec(&self.buf.as_slice()[self.pos..self.pos + n]);
        self.pos = self.pos + n;
        Ok(data)
    }
}

impl Seek for Cursor {
    /// A cursor moves to where the request leads, or stays and reports
    /// invalid data where that lies outside its bytes.
    open spec fn seek_outcome(&self, request: SeekFrom, after: &Self, r: Result<u64>) -> bool {
        match self@.target(request) {
            Some(t) => r == Ok::<u64, Error>(t as u64) && after@ == self@.at(t),
            None => r == Err::<u64, Error>(Error::InvalidData) && after@ == self@,
        }
    }

    /// Moves to where `request` leads. A target before the first byte or more
    /// than one past the last is invalid data, and the cursor stays.
    fn seek(&mut self, request: SeekFrom) -> (r: Result<u64>)
        ensures
            match old(self)@.target(request) {
                Some(t) => r == Ok::<u64, Error>(t as u64) && final(self)@ == old(self)@.at(t),
                None => r == Err::<u64, Error>(Error::InvalidData) && final(self)@ == old(self)@,
            },
            final(self)@.wf(),
    {
        proof {
            use_type_invariant(&*self);
        }
        let len = self.buf.len();
        let target: Option<usize> = match request {
            SeekFrom::Start(n) => if n <= len as u64 {
                Some(n as usize)
            } else {
                None
            },
            SeekFrom::End(off) => offset_within(len, len, off),
            SeekFrom::Current(off) => offset_within(self.pos, len, off),
        };
        match target {
            Some(t) => {
                self.pos = t;
                Ok(t as u64)
            },
            None => Err(Error::InvalidData),
        }
    }
}

/// `base + off`, where that lies between zero and `len`.
fn offset_within(base: usize, len: usize, off: i64) -> (t: Option<usize>)
    requires
        base <= len,
    ensures
        t == (if 0 <= base + off <= len {
            Some((base + off) as usize)
        } else {
            None
        }),
{
    let t: i128 = base as i128 + off as i128;
    if 0 <= t && t <= len as i128 {
        Some(t as usize)
    } else {
        None
    }
}

} // verus!
