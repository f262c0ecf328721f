use av_core::common::GlobalInfo;
use av_core::error::{Error, Result};
use av_core::io::{Cursor, Seek, SeekFrom, Write};
use av_core::muxer::{Context, Descr, Descriptor, Lookup, Muxer, WriteSeek, Writer};
use av_core::packet::Packet;
use av_core::value::Value;
use std::sync::Arc;

struct Plain {
    configured: bool,
}

impl Muxer for Plain {
    fn configure(&mut self) -> Result<()> {
        self.configured = true;
        Ok(())
    }

    fn write_header<W: Write, WS: WriteSeek>(&mut self, out: &mut Writer<W, WS>) -> Result<()> {
        out.write(b"HEAD").map(|_| ())
    }

    fn write_packet<W: Write, WS: WriteSeek>(
        &mut self,
        out: &mut Writer<W, WS>,
        pkt: Arc<Packet>,
    ) -> Result<()> {
        out.write(&pkt.data).map(|_| ())
    }

    fn write_trailer<W: Write, WS: WriteSeek>(&mut self, out: &mut Writer<W, WS>) -> Result<()> {
        out.write(b"TAIL").map(|_| ())
    }

    fn set_global_info(&mut self, _info: GlobalInfo) -> Result<()> {
        Ok(())
    }

    fn set_option<'a>(&mut self, key: &str, _val: Value<'a>) -> Result<()> {
        Err(Error::Unsupported(key.to_owned()))
    }
}

struct PlainDescr {
    descr: Descr,
}

impl Descriptor for PlainDescr {
    type OutputMuxer = Plain;

    fn descr(&self) -> Descr {
        self.descr.clone()
    }

    fn create(&self) -> Plain {
        Plain { configured: false }
    }

    fn describe(&self) -> &Descr {
        &self.descr
    }
}

static FIRST: PlainDescr = PlainDescr {
    descr: Descr {
        name: "plain",
        demuxer: "plain",
        description: "first",
        extensions: &["pln"],
        mime: &["video/x-plain"],
    },
};

static SECOND: PlainDescr = PlainDescr {
    descr: Descr {
        name: "plain",
        demuxer: "plain",
        description: "second",
        extensions: &[],
        mime: &[],
    },
};

#[test]
fn lookup_finds_first_of_equal_names() {
    let list: &[&'static PlainDescr] = &[&FIRST, &SECOND];
    let found = list.by_name("plain").unwrap();
    assert_eq!(found.describe().description, "first");
    assert!(list.by_name("other").is_none());
}

#[test]
fn nonseekable_writer_counts_bytes() {
    let mut w: Writer<Cursor, Cursor> = Writer::from_nonseekable(Cursor::new(Vec::new()));
    assert!(!w.can_seek());
    assert_eq!(w.seek(SeekFrom::Current(0)), Ok(0));
    assert_eq!(w.write(&[1, 2, 3]), Ok(3));
    assert_eq!(w.write(&[4, 5]), Ok(2));
    assert_eq!(w.seek(SeekFrom::Current(0)), Ok(5));
    assert_eq!(
        w.seek(SeekFrom::Start(0)),
        Err(Error::Unsupported("Seeking not supported".to_owned()))
    );
}

#[test]
fn context_runs_through_lifecycle() {
    let writer: Writer<Cursor, Cursor> = Writer::from_seekable(Cursor::new(Vec::new()));
    let mut ctx = Context::new(FIRST.create(), writer);
    assert!(ctx.user_private.is_none());
    assert_eq!(ctx.configure(), Ok(()));
    assert_eq!(ctx.write_header(), Ok(()));
    assert_eq!(ctx.write_packet(Arc::new(Packet::zeroed(3))), Ok(()));
    assert_eq!(ctx.write_trailer(), Ok(()));
    assert_eq!(ctx.set_option("speed", 4i64), Err(Error::Unsupported("speed".to_owned())));
}

struct Broken {
    fail_write: bool,
    fail_flush: bool,
    flushed: usize,
    sought: Vec<SeekFrom>,
}

impl Broken {
    fn new(fail_write: bool, fail_flush: bool) -> Broken {
        Broken { fail_write, fail_flush, flushed: 0, sought: Vec::new() }
    }
}

impl Write for Broken {
    fn write(&mut self, bytes: &[u8]) -> Result<usize> {
        if self.fail_write {
            Err(Error::InvalidData)
        } else {
            Ok(bytes.len().min(2))
        }
    }

    fn flush(&mut self) -> Result<()> {
        self.flushed += 1;
        if self.fail_flush {
            Err(Error::MoreDataNeeded)
        } else {
            Ok(())
        }
    }
}

impl Seek for Broken {
    fn seek(&mut self, request: SeekFrom) -> Result<u64> {
        self.sought.push(request);
        Ok(77)
    }
}

#[test]
fn nonseekable_writer_counts_what_the_sink_took() {
    let mut w: Writer<Broken, Cursor> = Writer::from_nonseekable(Broken::new(false, false));
    assert_eq!(w.write(&[1, 2, 3, 4, 5]), Ok(2));
    assert_eq!(w.write(&[3]), Ok(1));
    assert_eq!(w.seek(SeekFrom::Current(0)), Ok(3));
    assert_eq!(w.flush(), Ok(()));
    assert_eq!(w.seek(SeekFrom::Current(0)), Ok(3));

    let mut w: Writer<Broken, Cursor> = Writer::from_nonseekable(Broken::new(true, true));
    assert_eq!(w.write(&[1, 2, 3]), Err(Error::InvalidData));
    assert_eq!(w.seek(SeekFrom::Current(0)), Ok(0));
    assert_eq!(w.flush(), Err(Error::MoreDataNeeded));
}

#[test]
fn nonseekable_writer_refuses_to_move() {
    let mut w: Writer<Broken, Cursor> = Writer::from_nonseekable(Broken::new(false, false));
    let refusal = Err(Error::Unsupported("Seeking not supported".to_owned()));
    assert_eq!(w.seek(SeekFrom::Start(0)), refusal);
    assert_eq!(w.seek(SeekFrom::Start(10)), refusal);
    assert_eq!(w.seek(SeekFrom::End(0)), refusal);
    assert_eq!(w.seek(SeekFrom::End(-1)), refusal);
    assert_eq!(w.seek(SeekFrom::Current(1)), refusal);
    assert_eq!(w.seek(SeekFrom::Current(-1)), refusal);
    match w {
        Writer::NonSeekable(inner, count) => {
            assert!(inner.sought.is_empty());
            assert_eq!(count, 0);
        }
        Writer::Seekable(_) => unreachable!(),
    }
}

#[test]
fn nonseekable_count_saturates() {
    let mut w: Writer<Broken, Cursor> = Writer::NonSeekable(Broken::new(false, false), u64::MAX - 1);
    assert_eq!(w.write(&[1, 2, 3]), Ok(2));
    assert_eq!(w.seek(SeekFrom::Current(0)), Ok(u64::MAX));
}

#[test]
fn seekable_writer_hands_requests_on() {
    let mut w: Writer<Cursor, Broken> = Writer::from_seekable(Broken::new(false, false));
    assert!(w.can_seek());
    assert_eq!(w.seek(SeekFrom::Start(5)), Ok(77));
    assert_eq!(w.seek(SeekFrom::Current(0)), Ok(77));
    assert_eq!(w.seek(SeekFrom::End(-2)), Ok(77));
    assert_eq!(w.write(&[1, 2, 3]), Ok(2));
    assert_eq!(w.flush(), Ok(()));
    match w {
        Writer::Seekable(inner) => {
            assert_eq!(
                inner.sought,
                vec![SeekFrom::Start(5), SeekFrom::Current(0), SeekFrom::End(-2)]
            );
            assert_eq!(inner.flushed, 1);
        }
        Writer::NonSeekable(..) => unreachable!(),
    }

    let mut w: Writer<Cursor, Cursor> = Writer::from_seekable(Cursor::new(vec![0; 4]));
    assert_eq!(w.seek(SeekFrom::Start(2)), Ok(2));
    assert_eq!(w.write(&[9]), Ok(1));
    assert_eq!(w.seek(SeekFrom::Current(0)), Ok(3));
}

struct Failing {
    trailer: Result<()>,
}

impl Muxer for Failing {
    fn configure(&mut self) -> Result<()> {
        Err(Error::ConfigurationIncomplete)
    }

    fn write_header<W: Write, WS: WriteSeek>(&mut self, _out: &mut Writer<W, WS>) -> Result<()> {
        Err(Error::ConfigurationInvalid)
    }

    fn write_packet<W: Write, WS: WriteSeek>(
        &mut self,
        _out: &mut Writer<W, WS>,
        _pkt: Arc<Packet>,
    ) -> Result<()> {
        Err(Error::MoreDataNeeded)
    }

    fn write_trailer<W: Write, WS: WriteSeek>(&mut self, out: &mut Writer<W, WS>) -> Result<()> {
        out.write(b"T")?;
        self.trailer.clone()
    }

    fn set_global_info(&mut self, info: GlobalInfo) -> Result<()> {
        match info.duration {
            Some(_) => Ok(()),
            None => Err(Error::ConfigurationIncomplete),
        }
    }

    fn set_option<'a>(&mut self, _key: &str, val: Value<'a>) -> Result<()> {
        match val {
            Value::Str("fast") => Ok(()),
            Value::Bool(_) => Err(Error::ConfigurationInvalid),
            _ => Err(Error::Unsupported("option".to_owned())),
        }
    }
}

#[test]
fn context_hands_the_muxers_errors_on() {
    let writer: Writer<Broken, Broken> = Writer::from_nonseekable(Broken::new(false, false));
    let mut ctx = Context::new(Failing { trailer: Ok(()) }, writer);
    assert_eq!(ctx.configure(), Err(Error::ConfigurationIncomplete));
    assert_eq!(ctx.set_option("preset", "fast"), Ok(()));
    assert_eq!(ctx.set_option("preset", true), Err(Error::ConfigurationInvalid));
    assert_eq!(ctx.set_option("preset", 3u64), Err(Error::Unsupported("option".to_owned())));
    assert_eq!(
        ctx.set_global_info(GlobalInfo { duration: None, timebase: None }),
        Err(Error::ConfigurationIncomplete)
    );
    assert_eq!(
        ctx.set_global_info(GlobalInfo { duration: Some(5), timebase: None }),
        Ok(())
    );
}

#[test]
fn trailer_fails_where_muxer_or_flush_fails() {
    let mut plain = Plain { configured: false };
    let mut failing = Failing { trailer: Err(Error::InvalidData) };

    let writer: Writer<Broken, Broken> = Writer::from_nonseekable(Broken::new(false, true));
    let mut ctx = Context::new(Plain { configured: false }, writer);
    assert_eq!(ctx.configure(), Ok(()));
    assert_eq!(ctx.write_header(), Ok(()));
    assert_eq!(ctx.write_trailer(), Err(Error::MoreDataNeeded));

    let mut out: Writer<Broken, Broken> = Writer::from_nonseekable(Broken::new(false, false));
    assert_eq!(plain.write_trailer(&mut out), Ok(()));
    assert_eq!(failing.write_trailer(&mut out), Err(Error::InvalidData));
    assert_eq!(out.seek(SeekFrom::Current(0)), Ok(3));
}

#[test]
fn trailer_is_flushed_into_the_sink() {
    let writer: Writer<Cursor, Cursor> = Writer::from_seekable(Cursor::new(Vec::new()));
    let mut ctx = Context::new(Plain { configured: false }, writer);
    ctx.user_private = Some(av_core::common::UserData::Number(7));
    assert_eq!(ctx.configure(), Ok(()));
    assert_eq!(ctx.write_header(), Ok(()));
    assert_eq!(ctx.write_packet(Arc::new(Packet::zeroed(2))), Ok(()));
    assert_eq!(ctx.write_trailer(), Ok(()));
    assert!(matches!(ctx.user_private, Some(av_core::common::UserData::Number(7))));
}

#[test]
fn lookup_in_an_empty_list_finds_nothing() {
    let list: &[&'static PlainDescr] = &[];
    assert!(list.by_name("plain").is_none());
    let list: &[&'static PlainDescr] = &[&SECOND, &FIRST];
    assert_eq!(list.by_name("plain").unwrap().describe().description, "second");
    assert!(list.by_name("plai").is_none());
    assert!(list.by_name("plain ").is_none());
    assert!(list.by_name("").is_none());
    assert_eq!(FIRST.describe().extensions, &["pln"]);
    assert_eq!(FIRST.describe().mime, &["video/x-plain"]);
    assert_eq!(FIRST.describe().demuxer, "plain");
}
