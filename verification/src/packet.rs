//! Packets definitions.

use crate::error::{Error, Result};
use crate::io::{Cursor, CursorView, Read, Seek, SeekFrom, Write};
use crate::timeinfo::TimeInfo;
use std::sync::Arc;
use vstd::prelude::*;

verus! {

/// Packet with compressed data.
#[derive(Debug, Clone)]
pub struct Packet {
    /// Packet data.
    pub data: Vec<u8>,
    /// Packet position in the stream.
    ///
    /// If `None`, the packet is not associated to a stream.
    pub pos: Option<usize>,
    /// Type of stream the packet is associated to; `-1` while unassigned.
    pub stream_index: isize,
    /// Packet timestamp information.
    pub t: TimeInfo,
    /// Tells whether a packet contains a keyframe.
    pub is_key: bool,
    /// Tells whether a packet is corrupted.
    pub is_corrupted: bool,
}

impl Packet {
    /// Whether the packet belongs to no stream yet and carries no timing and
    /// no flag: everything but its data is as a new packet has it.
    pub open spec fn is_fresh(self) -> bool {
        &&& self.pos is None
        &&& self.stream_index == -1
        &&& self.t == TimeInfo::unset()
        &&& !self.is_key
        &&& !self.is_corrupted
    }

    /// Creates a new empty `Packet` with room for `capacity` bytes.
    pub fn with_capacity(capacity: usize) -> (pkt: Packet)
        ensures
            pkt.data@ == Seq::<u8>::empty(),
            pkt.is_fresh(),
    {
        Packet {
            data: Vec::with_capacity(capacity),
            t: TimeInfo::default(),
            pos: None,
            stream_index: -1,
            is_key: false,
            is_corrupted: false,
        }
    }

    /// Creates a `Packet` whose data are `size` zero bytes.
    pub fn zeroed(size: usize) -> (pkt: Packet)
        ensures
            pkt.data@ == Seq::new(size as nat, |i: int| 0u8),
            pkt.is_fresh(),
    {
        let data: Vec<u8> = vec![0u8; size];
        assert(data@ =~= Seq::new(size as nat, |i: int| 0u8));
        Packet {
            data,
            t: TimeInfo::default(),
            pos: None,
            stream_index: -1,
            is_key: false,
            is_corrupted: false,
        }
    }

    /// Creates a new empty `Packet`.
    pub fn new() -> (pkt: Packet)
        ensures
            pkt.data@ == Seq::<u8>::empty(),
            pkt.is_fresh(),
    {
        Packet::with_capacity(0)
    }
}

impl Default for Packet {
    /// The empty packet of stream zero.
    fn default() -> (pkt: Packet)
        ensures
            pkt.data@ == Seq::<u8>::empty(),
            pkt.pos is None,
            pkt.stream_index == 0,
            pkt.t == TimeInfo::unset(),
            !pkt.is_key,
            !pkt.is_corrupted,
    {
        Packet {
            data: Vec::new(),
            t: TimeInfo::default(),
            pos: None,
            stream_index: 0,
            is_key: false,
            is_corrupted: false,
        }
    }
}

/// A specialized type for a thread-safe reference-counting pointer `Packet`.
pub type ArcPacket = Arc<Packet>;

/// What a source's answer to a request for `wanted` more bytes means for a
/// packet that is being filled: an empty answer means that the source ran
/// dry, a longer one than asked for cannot be trusted.
pub open spec fn chunk_verdict(wanted: nat, got: nat) -> Result<()> {
    if got == 0 {
        Err(Error::MoreDataNeeded)
    } else if got > wanted {
        Err(Error::InvalidData)
    } else {
        Ok(())
    }
}

/// Judges a chunk of `got` bytes that answers a request for `wanted` bytes.
pub fn check_chunk(wanted: usize, got: usize) -> (r: Result<()>)
    ensures
        r == chunk_verdict(wanted as nat, got as nat),
{
    if got == 0 {
        Err(Error::MoreDataNeeded)
    } else if got > wanted {
        Err(Error::InvalidData)
    } else {
        Ok(())
    }
}

/// What a sink's claim to have taken `taken` of `offered` bytes means: a sink
/// that takes nothing, or more than it was offered, has failed.
pub open spec fn progress_verdict(offered: nat, taken: nat) -> Result<()> {
    if taken == 0 || taken > offered {
        Err(Error::InvalidData)
    } else {
        Ok(())
    }
}

/// Judges a sink's claim to have taken `taken` of `offered` bytes.
pub fn check_progress(offered: usize, taken: usize) -> (r: Result<()>)
    ensures
        r == progress_verdict(offered as nat, taken as nat),
{
    if taken == 0 || taken > offered {
        Err(Error::InvalidData)
    } else {
        Ok(())
    }
}

/// Whether reading a packet of `len` bytes from `src`, of which the bytes
/// `have` were read already, may leave the source as `after` and answer `r`.
///
/// Where nothing is missing, the source is left alone and the answer is the
/// unassigned packet of the bytes read. Else the source is asked for what is
/// missing. Where it fails, its error is the answer; where its chunk is
/// judged a failure by [`chunk_verdict`], that is the answer; else the chunk
/// goes behind the bytes read and the reading goes on in the same way.
pub open spec fn all_read<S: Read>(
    src: &S,
    have: Seq<u8>,
    len: nat,
    after: &S,
    r: Result<Packet>,
) -> bool
    decreases len - have.len(),
{
    if have.len() >= len {
        *after == *src && (r matches Ok(pkt) && pkt.data@ == have && pkt.is_fresh())
    } else {
        exists|mid: S, answer: Result<Vec<u8>>|
            {
                &&& #[trigger] src.read_outcome((len - have.len()) as nat, &mid, answer)
                &&& match answer {
                    Err(e) => r == Err::<Packet, Error>(e) && *after == mid,
                    Ok(chunk) => match chunk_verdict((len - have.len()) as nat, chunk@.len()) {
                        Err(e) => r == Err::<Packet, Error>(e) && *after == mid,
                        Ok(()) => all_read(&mid, have + chunk@, len, after, r),
                    },
                }
            }
    }
}

/// Used to read a packet from a source.
pub trait ReadPacket: Read + Sized {
    /// Reads a packet of exactly `len` bytes from a source.
    ///
    /// The source is asked for what is still missing until the packet is
    /// full. An error of the source ends the reading and is handed on; each
    /// chunk is judged as [`chunk_verdict`] says.
    fn get_packet(&mut self, len: usize) -> (r: Result<Packet>)
        ensures
            all_read(old(self), Seq::<u8>::empty(), len as nat, final(self), r),
            r matches Ok(pkt) ==> pkt.data@.len() == len && pkt.is_fresh(),
            len == 0 ==> r is Ok && *final(self) == *old(self),
    {
        let ghost start = *self;
        let mut pkt = Packet::with_capacity(len);
        while pkt.data.len() < len
            invariant
                pkt.data@.len() <= len,
                pkt.is_fresh(),
                len == 0 ==> *self == start,
                start == *old(self),
                forall|after: Self, r: Result<Packet>| #[trigger]
                    all_read(&*self, pkt.data@, len as nat, &after, r) ==> all_read(
                        &start,
                        Seq::<u8>::empty(),
                        len as nat,
                        &after,
                        r,
                    ),
            decreases len - pkt.data@.len(),
        {
            let ghost cur = *self;
            let ghost have = pkt.data@;
            let wanted = len - pkt.data.len();
            let answer = self.read(wanted);
            assert(cur.read_outcome(wanted as nat, &*self, answer));
            let mut chunk = match answer {
                Ok(chunk) => chunk,
                Err(e) => {
                    assert(all_read(&cur, have, len as nat, &*self, Err::<Packet, Error>(e)));
                    return Err(e);
                },
            };
            let ghost got = chunk@;
            match check_chunk(wanted, chunk.len()) {
                Ok(()) => {},
                Err(e) => {
                    assert(all_read(&cur, have, len as nat, &*self, Err::<Packet, Error>(e)));
                    return Err(e);
                },
            }
            pkt.data.append(&mut chunk);
            proof {
                let mid = *self;
                assert(pkt.data@ == have + got);
                assert forall|after: Self, r: Result<Packet>| #[trigger]
                    all_read(&mid, have + got, len as nat, &after, r) implies all_read(
                    &start,
                    Seq::<u8>::empty(),
                    len as nat,
                    &after,
                    r,
                ) by {
                    assert(cur.read_outcome(wanted as nat, &mid, answer));
                    assert(all_read(&cur, have, len as nat, &after, r));
                }
            }
        }
        assert(all_read(&*self, pkt.data@, len as nat, &*self, Ok::<Packet, Error>(pkt)));
        Ok(pkt)
    }
}

impl<R: Read> ReadPacket for R {

}

/// Whether writing all of `bytes` into `sink` may leave the sink as `after`
/// and answer `r`.
///
/// Nothing is done for no bytes. Else the sink is offered the bytes. Where
/// it fails, its error is the answer; where its answer is judged a failure
/// by [`progress_verdict`], that is the answer; else the bytes that it did
/// not take are written in the same way.
pub open spec fn all_written<S: Write>(sink: &S, bytes: Seq<u8>, after: &S, r: Result<()>) -> bool
    decreases bytes.len(),
{
    if bytes.len() == 0 {
        *after == *sink && r is Ok
    } else {
        exists|mid: S, answer: Result<usize>|
            {
                &&& #[trigger] sink.write_outcome(bytes, &mid, answer)
                &&& match answer {
                    Err(e) => r == Err::<(), Error>(e) && *after == mid,
                    Ok(taken) => if progress_verdict(bytes.len(), taken as nat) is Ok {
                        all_written(&mid, bytes.skip(taken as int), after, r)
                    } else {
                        r == Err::<(), Error>(Error::InvalidData) && *after == mid
                    },
                }
            }
    }
}

/// Used to write a packet into a sink.
pub trait WritePacket: Write + Sized {
    /// Writes all the data of a packet into a sink.
    ///
    /// The sink is offered what it has not yet taken until nothing is left.
    /// An error of the sink ends the writing and is handed on; each of its
    /// answers is judged as [`progress_verdict`] says.
    fn put_packet(&mut self, pkt: Packet) -> (r: Result<()>)
        ensures
            all_written(old(self), pkt.data@, final(self), r),
            pkt.data@.len() == 0 ==> r is Ok && *final(self) == *old(self),
    {
        let ghost start = *self;
        let bytes = pkt.data.as_slice();
        let mut done: usize = 0;
        assert(bytes@.skip(0) =~= bytes@);
        while done < bytes.len()
            invariant
                done <= bytes@.len(),
                bytes@ == pkt.data@,
                bytes@.len() == 0 ==> *self == start,
                start == *old(self),
                forall|after: Self, r: Result<()>| #[trigger]
                    all_written(&*self, bytes@.skip(done as int), &after, r) ==> all_written(
                        &start,
                        bytes@,
                        &after,
                        r,
                    ),
            decreases bytes@.len() - done,
        {
            let ghost cur = *self;
            let ghost rest = bytes@.skip(done as int);
            let offered = bytes.len() - done;
            let answer = self.write(&bytes[done..bytes.len()]);
            assert(bytes@.subrange(done as int, bytes@.len() as int) =~= rest);
            assert(cur.write_outcome(rest, &*self, answer));
            let taken = match answer {
                Ok(taken) => taken,
                Err(e) => {
                    assert(all_written(&cur, rest, &*self, Err::<(), Error>(e)));
                    return Err(e);
                },
            };
            match check_progress(offered, taken) {
                Ok(()) => {},
                Err(e) => {
                    assert(all_written(&cur, rest, &*self, Err::<(), Error>(e)));
                    return Err(e);
                },
            }
            proof {
                let mid = *self;
                assert(rest.skip(taken as int) =~= bytes@.skip(done + taken));
                assert forall|after: Self, r: Result<()>| #[trigger]
                    all_written(&mid, bytes@.skip(done + taken), &after, r) implies all_written(
                    &start,
                    bytes@,
                    &after,
                    r,
                ) by {
                    assert(cur.write_outcome(rest, &mid, answer));
                    assert(all_written(&cur, rest, &after, r));
                }
            }
            done = done + taken;
        }
        assert(all_written(&*self, bytes@.skip(done as int), &*self, Ok::<(), Error>(())));
        Ok(())
    }
}

impl<W: Write> WritePacket for W {

}

/// Writing a packet into a cursor cannot fail, and leaves the packet's data
/// at the cursor's position, as [`CursorView::written`] says.
pub proof fn lemma_cursor_put_packet(c: Cursor, data: Seq<u8>, after: Cursor, r: Result<()>)
    requires
        c@.wf(),
        data.len() <= usize::MAX,
        all_written(&c, data, &after, r),
    ensures
        r is Ok,
        after@ == c@.written(data),
{
    reveal_with_fuel(all_written, 2);
    if data.len() == 0 {
        assert(c@.written(data).bytes =~= c@.bytes);
    } else {
        let (mid, answer) = choose|mid: Cursor, answer: Result<usize>|
            {
                &&& #[trigger] c.write_outcome(data, &mid, answer)
                &&& match answer {
                    Err(e) => r == Err::<(), Error>(e) && after == mid,
                    Ok(taken) => if progress_verdict(data.len(), taken as nat) is Ok {
                        all_written(&mid, data.skip(taken as int), &after, r)
                    } else {
                        r == Err::<(), Error>(Error::InvalidData) && after == mid
                    },
                }
            };
        assert(answer == Ok::<usize, Error>(data.len() as usize));
        assert(data.skip(data.len() as int).len() == 0);
    }
}

/// Reading a packet of `len` bytes from a cursor yields its next `len`
/// bytes and moves behind them. Where fewer are left, more data is needed,
/// and the cursor has moved to its end.
pub proof fn lemma_cursor_get_packet(c: Cursor, len: nat, after: Cursor, r: Result<Packet>)
    requires
        c@.wf(),
        all_read(&c, Seq::<u8>::empty(), len, &after, r),
    ensures
        after@ == c@.after_read(len),
        len <= c@.available() ==> (r matches Ok(pkt) && pkt.data@ == c@.taken(len)
            && pkt.is_fresh()),
        len > c@.available() ==> r == Err::<Packet, Error>(Error::MoreDataNeeded),
{
    reveal_with_fuel(all_read, 3);
    let none = Seq::<u8>::empty();
    if len == 0 {
        assert(c@.taken(0) =~= none);
    } else {
        let (mid, answer) = choose|mid: Cursor, answer: Result<Vec<u8>>|
            {
                &&& #[trigger] c.read_outcome((len - none.len()) as nat, &mid, answer)
                &&& match answer {
                    Err(e) => r == Err::<Packet, Error>(e) && after == mid,
                    Ok(chunk) => match chunk_verdict((len - none.len()) as nat, chunk@.len()) {
                        Err(e) => r == Err::<Packet, Error>(e) && after == mid,
                        Ok(()) => all_read(&mid, none + chunk@, len, &after, r),
                    },
                }
            };
        let chunk = answer->Ok_0;
        assert(none + chunk@ =~= chunk@);
        if 0 < c@.available() < len {
            let have = chunk@;
            let (last, second) = choose|last: Cursor, second: Result<Vec<u8>>|
                {
                    &&& #[trigger] mid.read_outcome((len - have.len()) as nat, &last, second)
                    &&& match second {
                        Err(e) => r == Err::<Packet, Error>(e) && after == last,
                        Ok(more) => match chunk_verdict((len - have.len()) as nat, more@.len()) {
                            Err(e) => r == Err::<Packet, Error>(e) && after == last,
                            Ok(()) => all_read(&last, have + more@, len, &after, r),
                        },
                    }
                };
            assert(second->Ok_0@.len() == 0);
        }
    }
}

/// A packet that was written into a cursor and is read back from where its
/// writing began, at its own length, comes back with the same data: the
/// writing succeeds, the cursor can be moved back to where it began, and the
/// reading succeeds with the bytes that were written.
pub proof fn lemma_packet_round_trip(
    start: Cursor,
    data: Seq<u8>,
    filled: Cursor,
    put: Result<()>,
    rewound: Cursor,
    sought: Result<u64>,
    emptied: Cursor,
    got: Result<Packet>,
)
    requires
        start@.wf(),
        start@.pos <= u64::MAX,
        data.len() <= usize::MAX,
        all_written(&start, data, &filled, put),
        filled.seek_outcome(SeekFrom::Start(start@.pos as u64), &rewound, sought),
        all_read(&rewound, Seq::<u8>::empty(), data.len(), &emptied, got),
    ensures
        put is Ok,
        sought == Ok::<u64, Error>(start@.pos as u64),
        got matches Ok(pkt) && pkt.data@ == data && pkt.is_fresh(),
{
    lemma_cursor_put_packet(start, data, filled, put);
    let back: CursorView = start@.written(data).at(start@.pos);
    assert(back.taken(data.len()) =~= data);
    lemma_cursor_get_packet(rewound, data.len(), emptied, got);
}

} // verus!
