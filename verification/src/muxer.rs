//! Sinks that a muxer writes to, the muxer's contract, and the registry that
//! finds a muxer by name.

use crate::common::{GlobalInfo, UserData};
use crate::error::{Error, Result};
use crate::io::{Seek, SeekFrom, Write};
use crate::packet::Packet;
use crate::text::str_eq;
use crate::value::Value;
use std::sync::Arc;
use vstd::prelude::*;
use vstd::std_specs::convert::IntoSpec;

verus! {

/// A sink that can also seek.
pub trait WriteSeek: Write + Seek {

}

impl<T: Write + Seek> WriteSeek for T {

}

/// Runtime wrapper around either a sink that only takes bytes or one that
/// also seeks, which supports querying for seek support.
pub enum Writer<W: Write, WS: WriteSeek> {
    /// An append-only sink, with the count of the bytes it has taken.
    NonSeekable(W, u64),
    /// A sink with seek support of its own.
    Seekable(WS),
}

/// The byte count of an append-only writer after its sink has answered a
/// write with `outcome`: what the sink took is added, up to the largest
/// count that fits; a failed write adds nothing.
pub open spec fn count_after(before: u64, outcome: Result<usize>) -> u64 {
    match outcome {
        Ok(taken) => if before + taken <= u64::MAX {
            (before + taken) as u64
        } else {
            u64::MAX
        },
        Err(_) => before,
    }
}

/// The text carried by the error that refuses a seek.
pub open spec fn seek_refusal() -> Seq<char> {
    "Seeking not supported"@
}

/// What an append-only writer that has taken `count` bytes answers to a
/// seek request: its count to a query for the position, a refusal to
/// anything else.
pub open spec fn answers_seek(count: u64, request: SeekFrom, answer: Result<u64>) -> bool {
    if request.is_position_query() {
        answer == Ok::<u64, Error>(count)
    } else {
        answer matches Err(Error::Unsupported(text)) && text@ == seek_refusal()
    }
}

/// The byte count of an append-only writer after its sink has taken, write
/// by write, the numbers of bytes in `taken`.
pub open spec fn count_after_all(before: u64, taken: Seq<usize>) -> u64
    decreases taken.len(),
{
    if taken.len() == 0 {
        before
    } else {
        count_after(count_after_all(before, taken.drop_last()), Ok(taken.last()))
    }
}

/// The sum of the numbers in `taken`.
pub open spec fn total(taken: Seq<usize>) -> nat
    decreases taken.len(),
{
    if taken.len() == 0 {
        0
    } else {
        total(taken.drop_last()) + taken.last() as nat
    }
}

/// A new append-only writer whose sink has taken some bytes, in any number
/// of writes, counts exactly those bytes, as long as their number fits the
/// counter.
pub proof fn lemma_count_is_total(taken: Seq<usize>)
    requires
        total(taken) <= u64::MAX,
    ensures
        count_after_all(0, taken) == total(taken),
    decreases taken.len(),
{
    if taken.len() > 0 {
        lemma_count_is_total(taken.drop_last());
    }
}

/// An append-only writer answers a seek request with success only where the
/// request is a query for the position, and then with its count: every
/// request to move, from the start, from the end or from the current
/// position, fails.
pub proof fn lemma_only_position_query_succeeds(count: u64, request: SeekFrom, answer: Result<u64>)
    requires
        answers_seek(count, request, answer),
    ensures
        answer is Ok <==> request == SeekFrom::Current(0),
        answer is Ok ==> answer == Ok::<u64, Error>(count),
        request is Start ==> answer is Err,
        request is End ==> answer is Err,
        request matches SeekFrom::Current(off) && off != 0 ==> answer is Err,
{
}

impl<W: Write, WS: WriteSeek> Writer<W, WS> {
    /// Whether the writer wraps a sink with seek support.
    pub open spec fn seekable(self) -> bool {
        self is Seekable
    }

    /// The number of bytes that an append-only writer's sink has taken.
    pub open spec fn count(self) -> u64
        recommends
            self is NonSeekable,
    {
        self->NonSeekable_1
    }

    /// Creates a [`Writer`] from a sink that can seek.
    pub fn from_seekable(inner: WS) -> (w: Self)
        ensures
            w == Writer::<W, WS>::Seekable(inner),
    {
        Writer::Seekable(inner)
    }

    /// Creates a [`Writer`] from a sink that only takes bytes. Its count
    /// starts at zero.
    pub fn from_nonseekable(inner: W) -> (w: Self)
        ensures
            w == Writer::<W, WS>::NonSeekable(inner, 0),
    {
        Writer::NonSeekable(inner, 0)
    }

    /// Returns whether the [`Writer`] can seek within the sink.
    pub fn can_seek(&self) -> (b: bool)
        ensures
            b == self.seekable(),
    {
        match self {
            Writer::Seekable(_) => true,
            Writer::NonSeekable(_, _) => false,
        }
    }
}

impl<W: Write, WS: WriteSeek> Write for Writer<W, WS> {
    /// A write to a writer is a write of the same bytes to its sink, with
    /// the sink's answer. An append-only writer also counts what its sink
    /// took. The writer stays of its kind.
    open spec fn write_outcome(&self, bytes: Seq<u8>, after: &Self, r: Result<usize>) -> bool {
        match (*self, *after) {
            (Writer::NonSeekable(sink, count), Writer::NonSeekable(sink_after, counted)) => {
                &&& sink.write_outcome(bytes, &sink_after, r)
                &&& counted == count_after(count, r)
            },
            (Writer::Seekable(sink), Writer::Seekable(sink_after)) => sink.write_outcome(
                bytes,
                &sink_after,
                r,
            ),
            _ => false,
        }
    }

    /// A flush of a writer is a flush of its sink, with the sink's answer.
    /// The count of an append-only writer stays.
    open spec fn flush_outcome(&self, after: &Self, r: Result<()>) -> bool {
        match (*self, *after) {
            (Writer::NonSeekable(sink, count), Writer::NonSeekable(sink_after, counted)) => {
                &&& sink.flush_outcome(&sink_after, r)
                &&& counted == count
            },
            (Writer::Seekable(sink), Writer::Seekable(sink_after)) => sink.flush_outcome(
                &sink_after,
                r,
            ),
            _ => false,
        }
    }

    /// Hands `bytes` to the sink and returns its answer. An append-only
    /// writer counts what its sink took.
    fn write(&mut self, bytes: &[u8]) -> (r: Result<usize>)
        ensures
            final(self).seekable() == old(self).seekable(),
            !old(self).seekable() ==> final(self).count() == count_after(old(self).count(), r),
    {
        match self {
            Writer::NonSeekable(inner, index) => {
                let result = inner.write(bytes);
                if let Ok(written) = result {
                    *index = index.saturating_add(written as u64);
                }
                result
            },
            Writer::Seekable(inner) => inner.write(bytes),
        }
    }

    /// Flushes the sink and returns its answer.
    fn flush(&mut self) -> (r: Result<()>)
        ensures
            final(self).seekable() == old(self).seekable(),
            !old(self).seekable() ==> final(self).count() == old(self).count(),
    {
        match self {
            Writer::NonSeekable(inner, _) => inner.flush(),
            Writer::Seekable(inner) => inner.flush(),
        }
    }
}

impl<W: Write, WS: WriteSeek> Seek for Writer<W, WS> {
    /// An append-only writer stays as it is and answers as
    /// [`answers_seek`] says. A seek of a seekable writer is the same seek of
    /// its sink, with the sink's answer.
    open spec fn seek_outcome(&self, request: SeekFrom, after: &Self, r: Result<u64>) -> bool {
        match (*self, *after) {
            (Writer::NonSeekable(_, count), Writer::NonSeekable(_, _)) => {
                &&& *after == *self
                &&& answers_seek(count, request, r)
            },
            (Writer::Seekable(sink), Writer::Seekable(sink_after)) => sink.seek_outcome(
                request,
                &sink_after,
                r,
            ),
            _ => false,
        }
    }

    /// An append-only writer answers a query for the position with its
    /// count and refuses every other request, without touching its sink. A
    /// seekable writer hands the request to its sink and returns its answer.
    fn seek(&mut self, request: SeekFrom) -> (r: Result<u64>)
        ensures
            final(self).seekable() == old(self).seekable(),
            !old(self).seekable() ==> *final(self) == *old(self) && answers_seek(
                old(self).count(),
                request,
                r,
            ),
    {
        match self {
            Writer::NonSeekable(_, index) => {
                match request {
                    SeekFrom::Current(0) => Ok(*index),
                    _ => Err(Error::Unsupported("Seeking not supported".to_owned())),
                }
            },
            Writer::Seekable(inner) => inner.seek(request),
        }
    }
}

/// Used to implement muxing operations.
///
/// A muxer is driven through its stages in order: it is configured, then its
/// header is written, then its packets, then its trailer.
pub trait Muxer: Send {
    /// Whether configuring this muxer may leave it as `after` and answer
    /// `r`.
    open spec fn configure_outcome(&self, after: &Self, r: Result<()>) -> bool {
        true
    }

    /// Configures a muxer.
    fn configure(&mut self) -> (r: Result<()>)
        ensures
            old(self).configure_outcome(final(self), r),
    ;

    /// Whether writing the header with this muxer into `out` may leave the
    /// muxer as `after` and the writer as `out_after`, and answer `r`.
    open spec fn header_outcome<W: Write, WS: WriteSeek>(
        &self,
        out: &Writer<W, WS>,
        after: &Self,
        out_after: &Writer<W, WS>,
        r: Result<()>,
    ) -> bool {
        true
    }

    /// Writes a stream header into a writer.
    fn write_header<W: Write, WS: WriteSeek>(&mut self, out: &mut Writer<W, WS>) -> (r: Result<()>)
        ensures
            old(self).header_outcome(old(out), final(self), final(out), r),
    ;

    /// Whether writing `pkt` with this muxer into `out` may leave the muxer
    /// as `after` and the writer as `out_after`, and answer `r`.
    open spec fn packet_outcome<W: Write, WS: WriteSeek>(
        &self,
        out: &Writer<W, WS>,
        pkt: Arc<Packet>,
        after: &Self,
        out_after: &Writer<W, WS>,
        r: Result<()>,
    ) -> bool {
        true
    }

    /// Writes a stream packet into a writer.
    fn write_packet<W: Write, WS: WriteSeek>(
        &mut self,
        out: &mut Writer<W, WS>,
        pkt: Arc<Packet>,
    ) -> (r: Result<()>)
        ensures
            old(self).packet_outcome(old(out), pkt, final(self), final(out), r),
    ;

    /// Whether writing the trailer with this muxer into `out` may leave the
    /// muxer as `after` and the writer as `out_after`, and answer `r`.
    open spec fn trailer_outcome<W: Write, WS: WriteSeek>(
        &self,
        out: &Writer<W, WS>,
        after: &Self,
        out_after: &Writer<W, WS>,
        r: Result<()>,
    ) -> bool {
        true
    }

    /// Writes a stream trailer into a writer.
    fn write_trailer<W: Write, WS: WriteSeek>(&mut self, out: &mut Writer<W, WS>) -> (r: Result<()>)
        ensures
            old(self).trailer_outcome(old(out), final(self), final(out), r),
    ;

    /// Whether setting `info` on this muxer may leave it as `after` and
    /// answer `r`.
    open spec fn global_info_outcome(&self, info: GlobalInfo, after: &Self, r: Result<()>) -> bool {
        true
    }

    /// Sets global media file information for a muxer.
    fn set_global_info(&mut self, info: GlobalInfo) -> (r: Result<()>)
        ensures
            old(self).global_info_outcome(info, final(self), r),
    ;

    /// Whether setting the option `key` to `val` on this muxer may leave it
    /// as `after` and answer `r`.
    open spec fn option_outcome<'a>(
        &self,
        key: Seq<char>,
        val: Value<'a>,
        after: &Self,
        r: Result<()>,
    ) -> bool {
        true
    }

    /// Sets a muxer option.
    ///
    /// This method should be called as many times as the number of options
    /// present in a muxer.
    fn set_option<'a>(&mut self, key: &str, val: Value<'a>) -> (r: Result<()>)
        ensures
            old(self).option_outcome(key@, val, final(self), r),
    ;
}

/// Format descriptor.
///
/// Contains information on a format and its own muxer.
#[derive(Clone, Debug, PartialEq)]
pub struct Descr {
    /// Format name.
    pub name: &'static str,
    /// Name of the muxer that belongs to the format.
    pub demuxer: &'static str,
    /// Format description.
    pub description: &'static str,
    /// Format media file extensions.
    pub extensions: &'static [&'static str],
    /// Format MIME.
    pub mime: &'static [&'static str],
}

/// Used to get a format descriptor and create a new muxer.
pub trait Descriptor {
    /// The type of the muxer that is created.
    type OutputMuxer: Muxer + Send;

    /// The format's descriptor.
    spec fn descr(&self) -> Descr;

    /// Creates a new muxer for the requested format.
    fn create(&self) -> Self::OutputMuxer;

    /// Returns the descriptor of a format.
    fn describe(&self) -> (d: &Descr)
        ensures
            *d == self.descr(),
    ;
}

/// Whether the descriptor at `index` is the first in `list` that carries
/// `name`.
pub open spec fn is_first_named<T: Descriptor + ?Sized>(
    list: Seq<&'static T>,
    name: Seq<char>,
    index: int,
) -> bool {
    &&& 0 <= index < list.len()
    &&& list[index].descr().name@ == name
    &&& forall|j: int| 0 <= j < index ==> (#[trigger] list[j]).descr().name@ != name
}

/// Whether no descriptor in `list` carries `name`.
pub open spec fn none_named<T: Descriptor + ?Sized>(list: Seq<&'static T>, name: Seq<char>) -> bool {
    forall|j: int| 0 <= j < list.len() ==> (#[trigger] list[j]).descr().name@ != name
}

/// Used to look for a specific format.
pub trait Lookup<T: Descriptor + ?Sized> {
    /// Retrieves a specific format by name.
    fn by_name(&self, name: &str) -> (found: Option<&'static T>);
}

impl<T: Descriptor + ?Sized> Lookup<T> for [&'static T] {
    /// Retrieves the first format in the list whose name is exactly `name`,
    /// or nothing where the list holds none.
    fn by_name(&self, name: &str) -> (found: Option<&'static T>)
        ensures
            match found {
                Some(d) => exists|i: int| is_first_named(self@, name@, i) && self@[i] == d,
                None => none_named(self@, name@),
            },
    {
        let mut i: usize = 0;
        while i < self.len()
            invariant
                i <= self@.len(),
                forall|j: int| 0 <= j < i ==> (#[trigger] self@[j]).descr().name@ != name@,
            decreases self@.len() - i,
        {
            let d: &'static T = self[i];
            if str_eq(d.describe().name, name) {
                assert(is_first_named(self@, name@, i as int));
                return Some(d);
            }
            i = i + 1;
        }
        None
    }
}

/// How far a muxer has been driven.
pub enum Stage {
    /// Nothing has been done yet.
    Unconfigured,
    /// The muxer has been configured.
    Configured,
    /// The header has been written; packets may follow.
    HeaderWritten,
    /// The trailer has been written and flushed.
    TrailerWritten,
}

/// Whether writing the trailer with `muxer` into `writer` and, where that
/// succeeds, flushing the writer may leave the two as `muxer_after` and
/// `writer_after` and answer `r`.
///
/// Where the muxer fails, its error is the answer and the writer is left as
/// the muxer left it, unflushed. Where the muxer succeeds, the writer is
/// flushed and the answer is that of the flush.
pub open spec fn trailer_flushed<M: Muxer, W: Write, WS: WriteSeek>(
    muxer: &M,
    writer: &Writer<W, WS>,
    muxer_after: &M,
    writer_after: &Writer<W, WS>,
    r: Result<()>,
) -> bool {
    exists|mid: Writer<W, WS>, answer: Result<()>|
        {
            &&& #[trigger] muxer.trailer_outcome(writer, muxer_after, &mid, answer)
            &&& match answer {
                Err(e) => r == Err::<(), Error>(e) && *writer_after == mid,
                Ok(()) => mid.flush_outcome(writer_after, r),
            }
        }
}

/// Auxiliary structure to encapsulate a muxer object and
/// its additional data.
pub struct Context<M: Muxer + Send, W: Write, WS: WriteSeek> {
    muxer: M,
    writer: Writer<W, WS>,
    stage: Ghost<Stage>,
    /// User private data.
    ///
    /// This data cannot be cloned.
    pub user_private: Option<UserData>,
}

impl<M: Muxer + Send, W: Write, WS: WriteSeek> Context<M, W, WS> {
    /// How far the muxer has been driven.
    pub closed spec fn stage(self) -> Stage {
        self.stage@
    }

    /// The user's private data.
    pub closed spec fn private_data(self) -> Option<UserData> {
        self.user_private
    }

    /// The context's muxer.
    pub closed spec fn muxer(self) -> M {
        self.muxer
    }

    /// The context's writer.
    pub closed spec fn writer(self) -> Writer<W, WS> {
        self.writer
    }

    /// Creates a new `Context` instance, with nothing done yet and no user
    /// data.
    pub fn new(muxer: M, writer: Writer<W, WS>) -> (ctx: Self)
        ensures
            ctx.stage() == Stage::Unconfigured,
            ctx.private_data() is None,
            ctx.muxer() == muxer,
            ctx.writer() == writer,
    {
        Context { muxer, writer, stage: Ghost(Stage::Unconfigured), user_private: None }
    }

    /// Configures a muxer.
    ///
    /// Where the muxer succeeds, the context is configured; where it fails,
    /// its error is returned and the context stays as it was.
    pub fn configure(&mut self) -> (r: Result<()>)
        requires
            old(self).stage() == Stage::Unconfigured,
        ensures
            old(self).muxer().configure_outcome(&final(self).muxer(), r),
            final(self).stage() == (if r is Ok {
                Stage::Configured
            } else {
                Stage::Unconfigured
            }),
            final(self).private_data() == old(self).private_data(),
            final(self).writer() == old(self).writer(),
    {
        let r = self.muxer.configure();
        if r.is_ok() {
            self.stage = Ghost(Stage::Configured);
        }
        r
    }

    /// Lets the muxer write the stream header into the context's writer,
    /// without flushing it.
    pub fn write_header(&mut self) -> (r: Result<()>)
        requires
            old(self).stage() == Stage::Configured,
        ensures
            old(self).muxer().header_outcome(
                &old(self).writer(),
                &final(self).muxer(),
                &final(self).writer(),
                r,
            ),
            final(self).stage() == (if r is Ok {
                Stage::HeaderWritten
            } else {
                Stage::Configured
            }),
            final(self).private_data() == old(self).private_data(),
    {
        let r = self.muxer.write_header(&mut self.writer);
        if r.is_ok() {
            self.stage = Ghost(Stage::HeaderWritten);
        }
        r
    }

    /// Lets the muxer write a stream packet into the context's writer,
    /// without flushing it.
    pub fn write_packet(&mut self, pkt: Arc<Packet>) -> (r: Result<()>)
        requires
            old(self).stage() == Stage::HeaderWritten,
        ensures
            old(self).muxer().packet_outcome(
                &old(self).writer(),
                pkt,
                &final(self).muxer(),
                &final(self).writer(),
                r,
            ),
            final(self).stage() == Stage::HeaderWritten,
            final(self).private_data() == old(self).private_data(),
    {
        self.muxer.write_packet(&mut self.writer, pkt)
    }

    /// Lets the muxer write the stream trailer into the context's writer and
    /// then flushes the writer.
    ///
    /// The call succeeds only where both did. Where the muxer fails, the
    /// writer is not flushed.
    pub fn write_trailer(&mut self) -> (r: Result<()>)
        requires
            old(self).stage() == Stage::HeaderWritten,
        ensures
            trailer_flushed(
                &old(self).muxer(),
                &old(self).writer(),
                &final(self).muxer(),
                &final(self).writer(),
                r,
            ),
            final(self).stage() == (if r is Ok {
                Stage::TrailerWritten
            } else {
                Stage::HeaderWritten
            }),
            final(self).private_data() == old(self).private_data(),
    {
        let ghost before = *self;
        let answer = self.muxer.write_trailer(&mut self.writer);
        let ghost mid = self.writer();
        assert(before.muxer().trailer_outcome(&before.writer(), &self.muxer(), &mid, answer));
        match answer {
            Ok(()) => {},
            Err(e) => {
                return Err(e);
            },
        }
        let flushed = self.writer.flush();
        if flushed.is_ok() {
            self.stage = Ghost(Stage::TrailerWritten);
        }
        assert(before.muxer().trailer_outcome(&before.writer(), &self.muxer(), &mid, answer));
        flushed
    }

    /// Sets global media file information for a muxer.
    pub fn set_global_info(&mut self, info: GlobalInfo) -> (r: Result<()>)
        ensures
            old(self).muxer().global_info_outcome(info, &final(self).muxer(), r),
            final(self).stage() == old(self).stage(),
            final(self).private_data() == old(self).private_data(),
            final(self).writer() == old(self).writer(),
    {
        self.muxer.set_global_info(info)
    }

    /// Sets a muxer option.
    ///
    /// This method should be called as many times as the number of options
    /// present in a muxer.
    pub fn set_option<'a, V>(&mut self, key: &str, val: V) -> (r: Result<()>) where
        V: Into<Value<'a>>,

        ensures
            exists|v: Value<'a>|
                {
                    &&& #[trigger] old(self).muxer().option_outcome(
                        key@,
                        v,
                        &final(self).muxer(),
                        r,
                    )
                    &&& <V as IntoSpec<Value<'a>>>::obeys_into_spec() ==> v == val.into_spec()
                },
            final(self).stage() == old(self).stage(),
            final(self).private_data() == old(self).private_data(),
            final(self).writer() == old(self).writer(),
    {
        let ghost before = *self;
        let v: Value<'a> = val.into();
        let r = self.muxer.set_option(key, v);
        assert(before.muxer().option_outcome(key@, v, &self.muxer(), r));
        r
    }
}

} // verus!
