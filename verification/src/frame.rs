//! Decoded frames and the formats that describe them.

use crate::audiosample::{ChannelMap, Soniton};
use crate::common::UserData;
use crate::pixel::Formaton;
use crate::timeinfo::TimeInfo;
use std::sync::Arc;
use vstd::prelude::*;
use vstd::std_specs::cmp::PartialEqSpec;
use vstd::std_specs::cmp::PartialEqSpecImpl;

verus! {

/// The way a frame was coded.
#[derive(Clone, Copy, Debug, PartialEq, Eq, Structural)]
pub enum FrameType {
    /// Intra frame.
    I,
    /// Inter frame.
    P,
    /// Bidirectionally predicted frame.
    B,
    /// Skip frame.
    S,
    /// Some other frame type.
    OTHER,
}

/// Video stream information.
///
/// Two values are equal where they describe the same format: the frame type
/// takes no part in the comparison.
#[derive(Clone, Debug)]
pub struct VideoInfo {
    /// Frame width.
    pub width: usize,
    /// Frame height.
    pub height: usize,
    /// Whether the frame is interlaced.
    pub interlaced: bool,
    /// Frame type.
    pub frame_type: FrameType,
    /// Pixel format.
    pub format: Arc<Formaton>,
}

impl VideoInfo {
    /// Whether two values describe the same format: width, height, interlace
    /// flag and pixel format agree.
    pub open spec fn same_format(self, other: VideoInfo) -> bool {
        &&& self.width == other.width
        &&& self.height == other.height
        &&& self.interlaced == other.interlaced
        &&& *self.format == *other.format
    }

    /// Constructs a new `VideoInfo` instance.
    pub fn new(
        width: usize,
        height: usize,
        interlaced: bool,
        frame_type: FrameType,
        format: Arc<Formaton>,
    ) -> (info: VideoInfo)
        ensures
            info == (VideoInfo { width, height, interlaced, frame_type, format }),
    {
        VideoInfo { width, height, interlaced, frame_type, format }
    }
}

impl PartialEq for VideoInfo {
    fn eq(&self, other: &VideoInfo) -> (same: bool) {
        self.width == other.width && self.height == other.height && self.interlaced
            == other.interlaced && *self.format == *other.format
    }
}

impl PartialEqSpecImpl for VideoInfo {
    open spec fn obeys_eq_spec() -> bool {
        true
    }

    open spec fn eq_spec(&self, other: &VideoInfo) -> bool {
        self.same_format(*other)
    }
}

/// Audio stream information.
///
/// Two values are equal where they describe the same format: neither the
/// identifier nor the block length takes part in the comparison.
#[derive(Clone, Debug)]
pub struct AudioInfo {
    /// Identifier of this instance.
    pub id: usize,
    /// Sample rate.
    pub sample_rate: usize,
    /// Channel map.
    pub map: ChannelMap,
    /// Sample format.
    pub format: Arc<Soniton>,
    /// Length of one block, for the codecs that have blocks. The library
    /// never reads it.
    pub block_len: Option<usize>,
}

impl AudioInfo {
    /// Whether two values describe the same format: sample rate, channel map
    /// and sample format agree.
    pub open spec fn same_format(self, other: AudioInfo) -> bool {
        &&& self.sample_rate == other.sample_rate
        &&& self.map@ == other.map@
        &&& *self.format == *other.format
    }

    /// Constructs a new `AudioInfo` instance.
    pub fn new(
        id: usize,
        sample_rate: usize,
        map: ChannelMap,
        format: Arc<Soniton>,
        block_len: Option<usize>,
    ) -> (info: AudioInfo)
        ensures
            info == (AudioInfo { id, sample_rate, map, format, block_len }),
    {
        AudioInfo { id, sample_rate, map, format, block_len }
    }
}

impl PartialEq for AudioInfo {
    fn eq(&self, other: &AudioInfo) -> (same: bool) {
        self.sample_rate == other.sample_rate && self.map == other.map && *self.format
            == *other.format
    }
}

impl PartialEqSpecImpl for AudioInfo {
    open spec fn obeys_eq_spec() -> bool {
        true
    }

    open spec fn eq_spec(&self, other: &AudioInfo) -> bool {
        self.same_format(*other)
    }
}

/// Two audio descriptions that agree in sample rate, channel map and sample
/// format are equal, whatever their identifiers and block lengths are; and
/// only such descriptions are equal.
pub proof fn lemma_audio_equality_is_format_equivalence(a: AudioInfo, b: AudioInfo)
    ensures
        PartialEqSpec::eq_spec(&a, &b) <==> (a.sample_rate == b.sample_rate && a.map@ == b.map@ && *a.format
            == *b.format),
        PartialEqSpec::eq_spec(&a, &(AudioInfo { id: b.id, block_len: b.block_len, ..a })),
{
}

/// Two video descriptions that agree in width, height, interlace flag and
/// pixel format are equal, whatever their frame types are; and only such
/// descriptions are equal.
pub proof fn lemma_video_equality_is_format_equivalence(a: VideoInfo, b: VideoInfo)
    ensures
        PartialEqSpec::eq_spec(&a, &b) <==> (a.width == b.width && a.height == b.height && a.interlaced
            == b.interlaced && *a.format == *b.format),
        PartialEqSpec::eq_spec(&a, &(VideoInfo { frame_type: b.frame_type, ..a })),
{
}

/// Descriptions whose sample formats differ are not equal.
pub proof fn lemma_audio_formats_differ(a: AudioInfo, b: AudioInfo)
    requires
        *a.format != *b.format,
    ensures
        !PartialEqSpec::eq_spec(&a, &b),
{
}

/// Descriptions whose pixel formats differ are not equal.
pub proof fn lemma_video_formats_differ(a: VideoInfo, b: VideoInfo)
    requires
        *a.format != *b.format,
    ensures
        !PartialEqSpec::eq_spec(&a, &b),
{
}

/// A list of recognized media types.
#[derive(Clone, Debug, PartialEq)]
pub enum MediaKind {
    /// Video codec.
    Video(VideoInfo),
    /// Audio codec.
    Audio(AudioInfo),
}

impl MediaKind {
    /// The number of planes that a frame of this kind has: one for each
    /// component of a video frame's pixel format; one for each channel of an
    /// audio frame whose sample format is planar, and a single one where the
    /// channels are interleaved.
    pub open spec fn plane_count(self) -> nat {
        match self {
            MediaKind::Video(info) => info.format.components as nat,
            MediaKind::Audio(info) => if info.format.planar {
                info.map@.len()
            } else {
                1
            },
        }
    }

    /// Returns the number of planes that a frame of this kind has.
    pub fn get_plane_count(&self) -> (n: usize)
        ensures
            n == self.plane_count(),
    {
        match self {
            MediaKind::Video(info) => info.format.components as usize,
            MediaKind::Audio(info) => if info.format.planar {
                info.map.len()
            } else {
                1
            },
        }
    }
}

/// Why a frame could not be filled.
#[derive(Clone, Copy, Debug, PartialEq, Eq, Structural)]
pub enum FrameError {
    /// The buffers or line sizes supplied are not as many as the frame's
    /// format has planes.
    ShapeMismatch,
}

/// One plane of a frame: its bytes and the distance in bytes from one row to
/// the next.
#[derive(Debug)]
pub struct Plane {
    /// The plane's bytes.
    pub data: Vec<u8>,
    /// Distance in bytes from the start of one row to the start of the next.
    /// It may be larger than a row, for alignment.
    pub linesize: usize,
}

/// What a plane holds, as values.
pub struct PlaneView {
    pub bytes: Seq<u8>,
    pub linesize: nat,
}

impl View for Plane {
    type V = PlaneView;

    open spec fn view(&self) -> PlaneView {
        PlaneView { bytes: self.data@, linesize: self.linesize as nat }
    }
}

/// The planes that a copy of `data` and `linesizes` fills a frame with: plane
/// `i` holds the bytes of buffer `i` and has line size `i`.
pub open spec fn filled_planes(data: Seq<&[u8]>, linesizes: Seq<usize>) -> Seq<PlaneView> {
    Seq::new(data.len(), |i: int| PlaneView { bytes: data[i]@, linesize: linesizes[i] as nat })
}

/// The planes of a frame in which nothing was stored yet: `count` planes
/// without bytes.
pub open spec fn empty_planes(count: nat) -> Seq<PlaneView> {
    Seq::new(count, |i: int| PlaneView { bytes: Seq::<u8>::empty(), linesize: 0 })
}

/// Decoded frame.
///
/// A frame has as many planes as its kind says.
#[derive(Debug)]
pub struct Frame {
    kind: MediaKind,
    planes: Vec<Plane>,
    t: TimeInfo,
    user_private: Option<UserData>,
}

impl Frame {
    #[verifier::type_invariant]
    closed spec fn inv(self) -> bool {
        self.planes@.len() == self.kind.plane_count()
    }

    /// The frame's kind.
    pub closed spec fn kind(self) -> MediaKind {
        self.kind
    }

    /// The frame's planes.
    pub closed spec fn planes(self) -> Seq<PlaneView> {
        self.planes@.map_values(|p: Plane| p@)
    }

    /// The frame's timing.
    pub closed spec fn time(self) -> TimeInfo {
        self.t
    }

    /// The user's private data.
    pub closed spec fn private_data(self) -> Option<UserData> {
        self.user_private
    }

    /// The frame has as many planes as its kind says.
    pub open spec fn wf(self) -> bool {
        self.planes().len() == self.kind().plane_count()
    }

    /// Creates a frame of the given kind in which nothing is stored yet: each
    /// of its planes is empty. Where no timing is given, none is set.
    pub fn new_default_frame(kind: MediaKind, t: Option<TimeInfo>) -> (frame: Frame)
        ensures
            frame.kind() == kind,
            frame.planes() == empty_planes(kind.plane_count()),
            frame.time() == (match t {
                Some(t) => t,
                None => TimeInfo::unset(),
            }),
            frame.private_data() is None,
            frame.wf(),
    {
        let count = kind.get_plane_count();
        let mut planes: Vec<Plane> = Vec::with_capacity(count);
        let mut i: usize = 0;
        while i < count
            invariant
                i <= count,
                planes@.len() == i,
                forall|j: int|
                    0 <= j < i ==> (#[trigger] planes@[j])@ == (PlaneView {
                        bytes: Seq::<u8>::empty(),
                        linesize: 0,
                    }),
            decreases count - i,
        {
            planes.push(Plane { data: Vec::new(), linesize: 0 });
            i = i + 1;
        }
        let t = match t {
            Some(t) => t,
            None => TimeInfo::default(),
        };
        let frame = Frame { kind, planes, t, user_private: None };
        assert(frame.planes() =~= empty_planes(kind.plane_count()));
        frame
    }

    /// Returns the frame's kind.
    pub fn get_kind(&self) -> (kind: &MediaKind)
        ensures
            *kind == self.kind(),
    {
        &self.kind
    }

    /// Returns the frame's timing.
    pub fn get_time(&self) -> (t: TimeInfo)
        ensures
            t == self.time(),
    {
        self.t
    }

    /// Returns the user's private data.
    pub fn user_private(&self) -> (data: &Option<UserData>)
        ensures
            *data == self.private_data(),
    {
        &self.user_private
    }

    /// Attaches private data to the frame, or takes it away, and returns
    /// what was attached before.
    pub fn set_user_private(&mut self, data: Option<UserData>) -> (previous: Option<UserData>)
        ensures
            final(self).private_data() == data,
            previous == old(self).private_data(),
            final(self).kind() == old(self).kind(),
            final(self).planes() == old(self).planes(),
            final(self).time() == old(self).time(),
            final(self).wf(),
    {
        proof {
            use_type_invariant(&*self);
        }
        let mut data = data;
        core::mem::swap(&mut self.user_private, &mut data);
        data
    }

    /// Returns the number of planes.
    pub fn count(&self) -> (n: usize)
        ensures
            n == self.planes().len(),
            self.wf(),
    {
        proof {
            use_type_invariant(self);
        }
        self.planes.len()
    }

    /// Returns the bytes of the plane at `index`, if there is such a plane.
    pub fn plane(&self, index: usize) -> (bytes: Option<&[u8]>)
        ensures
            match bytes {
                Some(b) => index < self.planes().len() && b@ == self.planes()[index as int].bytes,
                None => index >= self.planes().len(),
            },
    {
        if index < self.planes.len() {
            Some(self.planes[index].data.as_slice())
        } else {
            None
        }
    }

    /// Returns the line size of the plane at `index`, if there is such a
    /// plane.
    pub fn linesize(&self, index: usize) -> (linesize: Option<usize>)
        ensures
            match linesize {
                Some(l) => index < self.planes().len() && l == self.planes()[index as int].linesize,
                None => index >= self.planes().len(),
            },
    {
        if index < self.planes.len() {
            Some(self.planes[index].linesize)
        } else {
            None
        }
    }

    /// Fills the frame with copies of the buffers in `data`, plane by plane,
    /// and records for each plane the line size given for it.
    ///
    /// The frame's kind says how many planes there are. Where `data` or
    /// `linesizes` holds another number of items, the shapes do not match:
    /// nothing is copied and the frame stays as it was.
    pub fn copy_from_slice(&mut self, data: &[&[u8]], linesizes: &[usize]) -> (r: core::result::Result<
        (),
        FrameError,
    >)
        ensures
            r is Ok <==> data@.len() == old(self).kind().plane_count() && linesizes@.len() == old(
                self,
            ).kind().plane_count(),
            r is Ok ==> final(self).planes() == filled_planes(data@, linesizes@),
            r is Err ==> final(self).planes() == old(self).planes(),
            final(self).kind() == old(self).kind(),
            final(self).time() == old(self).time(),
            final(self).private_data() == old(self).private_data(),
            final(self).wf(),
    {
        proof {
            use_type_invariant(&*self);
        }
        let count = self.planes.len();
        if data.len() != count || linesizes.len() != count {
            return Err(FrameError::ShapeMismatch);
        }
        let mut planes: Vec<Plane> = Vec::with_capacity(count);
        let mut i: usize = 0;
        while i < count
            invariant
                i <= count,
                count == data@.len(),
                count == linesizes@.len(),
                planes@.len() == i,
                forall|j: int|
                    0 <= j < i ==> (#[trigger] planes@[j])@ == (PlaneView {
                        bytes: data@[j]@,
                        linesize: linesizes@[j] as nat,
                    }),
            decreases count - i,
        {
            planes.push(Plane { data: vstd::slice::slice_to_vec(data[i]), linesize: linesizes[i] });
            i = i + 1;
        }
        core::mem::swap(&mut self.planes, &mut planes);
        assert(self.planes() =~= filled_planes(data@, linesizes@));
        Ok(())
    }
}

} // verus!
