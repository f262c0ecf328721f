//! Audio sample formats and channel maps.

use vstd::prelude::*;
use vstd::std_specs::cmp::PartialEqSpecImpl;

pub mod formats;

verus! {

/// Audio format definition.
#[derive(Clone, Copy, Debug, PartialEq, Eq, Structural)]
pub struct Soniton {
    /// Bits per sample.
    pub bits: u8,
    /// Tells if audio format is big-endian.
    pub be: bool,
    /// Audio samples are packed (e.g. 20-bit audio samples) and not padded.
    pub packed: bool,
    /// Audio data is stored in planar format, one plane for each channel,
    /// instead of interleaving the channels in one plane.
    pub planar: bool,
    /// Audio data is in floating point format.
    pub float: bool,
    /// Audio data is signed (usually only 8-bit audio is unsigned).
    pub signed: bool,
}

impl Soniton {
    /// Constructs a new audio format definition.
    pub fn new(bits: u8, be: bool, packed: bool, planar: bool, float: bool, signed: bool) -> (s:
        Soniton)
        ensures
            s == (Soniton { bits, be, packed, planar, float, signed }),
    {
        Soniton { bits, be, packed, planar, float, signed }
    }
}

/// Known audio channel types.
#[derive(Clone, Copy, Debug, PartialEq, Eq, Structural)]
pub enum ChannelType {
    /// Center front.
    C,
    /// Left front.
    L,
    /// Right front.
    R,
    /// Center surround.
    Cs,
    /// Left surround.
    Ls,
    /// Right surround.
    Rs,
    /// Left surround side.
    Lss,
    /// Right surround side.
    Rss,
    /// Low frequency effects.
    LFE,
    /// Left center.
    Lc,
    /// Right center.
    Rc,
    /// Left height.
    Lh,
    /// Right height.
    Rh,
    /// Center height.
    Ch,
    /// Second low frequency effects.
    LFE2,
    /// Left wide.
    Lw,
    /// Right wide.
    Rw,
    /// Overhead.
    Ov,
    /// Left height side.
    Lhs,
    /// Right height side.
    Rhs,
    /// Center height side.
    Chs,
    /// Left in the plane lower than the listener's ears.
    Ll,
    /// Right in the plane lower than the listener's ears.
    Rl,
    /// Center in the plane lower than the listener's ears.
    Cl,
    /// Left total (SMPTE 428-3).
    Lt,
    /// Right total (SMPTE 428-3).
    Rt,
    /// Left-only downmix mode.
    Lo,
    /// Right-only downmix mode.
    Ro,
}

/// An ordered list of channels in which no channel occurs twice.
///
/// The order says how the channels lie in a buffer.
#[derive(Debug)]
pub struct ChannelMap {
    ids: Vec<ChannelType>,
}

impl View for ChannelMap {
    type V = Seq<ChannelType>;

    /// The channels in their order.
    closed spec fn view(&self) -> Seq<ChannelType> {
        self.ids@
    }
}

/// Whether `ids` holds `ch`.
fn holds(ids: &Vec<ChannelType>, ch: ChannelType) -> (found: Option<usize>)
    ensures
        match found {
            Some(i) => i < ids@.len() && ids@[i as int] == ch && !ids@.take(i as int).contains(ch),
            None => !ids@.contains(ch),
        },
{
    let mut i: usize = 0;
    while i < ids.len()
        invariant
            i <= ids@.len(),
            !ids@.take(i as int).contains(ch),
        decreases ids@.len() - i,
    {
        if ids[i] == ch {
            return Some(i);
        }
        assert(ids@.take(i + 1) == ids@.take(i as int).push(ids@[i as int]));
        i = i + 1;
    }
    assert(ids@.take(i as int) == ids@);
    None
}

/// Copies a list of channels.
fn copy_of(ids: &Vec<ChannelType>) -> (copy: Vec<ChannelType>)
    ensures
        copy@ == ids@,
{
    let mut copy: Vec<ChannelType> = Vec::with_capacity(ids.len());
    let mut i: usize = 0;
    while i < ids.len()
        invariant
            i <= ids@.len(),
            copy@ == ids@.take(i as int),
        decreases ids@.len() - i,
    {
        copy.push(ids[i]);
        assert(ids@.take(i + 1) == ids@.take(i as int).push(ids@[i as int]));
        i = i + 1;
    }
    assert(ids@.take(i as int) == ids@);
    copy
}

impl ChannelMap {
    #[verifier::type_invariant]
    closed spec fn inv(self) -> bool {
        self.ids@.no_duplicates()
    }

    /// No channel occurs twice.
    pub open spec fn wf(self) -> bool {
        self@.no_duplicates()
    }

    /// The list after `ch` was added: `ch` goes to the end, unless the list
    /// holds it already.
    pub open spec fn with_channel(list: Seq<ChannelType>, ch: ChannelType) -> Seq<ChannelType> {
        if list.contains(ch) {
            list
        } else {
            list.push(ch)
        }
    }

    /// The list after each channel of `chs` was added in turn.
    pub open spec fn with_channels(list: Seq<ChannelType>, chs: Seq<ChannelType>) -> Seq<
        ChannelType,
    >
        decreases chs.len(),
    {
        if chs.len() == 0 {
            list
        } else {
            Self::with_channel(Self::with_channels(list, chs.drop_last()), chs.last())
        }
    }

    /// Creates a new map without channels.
    pub fn new() -> (map: ChannelMap)
        ensures
            map@ == Seq::<ChannelType>::empty(),
            map.wf(),
    {
        ChannelMap { ids: Vec::new() }
    }

    /// Tells whether the map holds no channel.
    pub fn is_empty(&self) -> (b: bool)
        ensures
            b == (self@.len() == 0),
    {
        self.ids.len() == 0
    }

    /// Returns the number of channels.
    pub fn len(&self) -> (n: usize)
        ensures
            n == self@.len(),
            self.wf(),
    {
        proof {
            use_type_invariant(self);
        }
        self.ids.len()
    }

    /// Adds a channel at the end of the map and says whether it did. A
    /// channel that the map holds already is not added again.
    pub fn add_channel(&mut self, ch: ChannelType) -> (added: bool)
        ensures
            final(self)@ == Self::with_channel(old(self)@, ch),
            added == !old(self)@.contains(ch),
            final(self).wf(),
    {
        proof {
            use_type_invariant(&*self);
        }
        if holds(&self.ids, ch).is_some() {
            return false;
        }
        let mut ids: Vec<ChannelType> = Vec::new();
        core::mem::swap(&mut self.ids, &mut ids);
        ids.push(ch);
        proof {
            let before = old(self)@;
            assert forall|i: int, j: int|
                0 <= i < ids@.len() && 0 <= j < ids@.len() && i != j implies ids@[i] != ids@[j] by {
                if i < before.len() && j < before.len() {
                } else if i < before.len() {
                    assert(before.contains(before[i]));
                } else {
                    assert(before.contains(before[j]));
                }
            }
        }
        core::mem::swap(&mut self.ids, &mut ids);
        true
    }

    /// Adds each channel of `chs` in turn, as [`ChannelMap::add_channel`]
    /// does.
    pub fn add_channels(&mut self, chs: &[ChannelType])
        ensures
            final(self)@ == Self::with_channels(old(self)@, chs@),
            final(self).wf(),
    {
        let _ = self.len();
        let mut i: usize = 0;
        while i < chs.len()
            invariant
                i <= chs@.len(),
                self@ == Self::with_channels(old(self)@, chs@.take(i as int)),
                self.wf(),
            decreases chs@.len() - i,
        {
            let _ = self.add_channel(chs[i]);
            assert(chs@.take(i + 1).drop_last() == chs@.take(i as int));
            i = i + 1;
        }
        assert(chs@.take(i as int) == chs@);
    }

    /// Returns the channel at `index`, if there is one.
    pub fn get_channel(&self, index: usize) -> (ch: Option<ChannelType>)
        ensures
            ch == (if index < self@.len() {
                Some(self@[index as int])
            } else {
                None
            }),
    {
        if index < self.ids.len() {
            Some(self.ids[index])
        } else {
            None
        }
    }

    /// Returns the index at which the map holds `ch`, if it does.
    pub fn find_channel_id(&self, ch: ChannelType) -> (found: Option<usize>)
        ensures
            match found {
                Some(i) => i < self@.len() && self@[i as int] == ch,
                None => !self@.contains(ch),
            },
    {
        holds(&self.ids, ch)
    }
}

impl Clone for ChannelMap {
    fn clone(&self) -> (copy: ChannelMap)
        ensures
            copy@ == self@,
    {
        proof {
            use_type_invariant(self);
        }
        ChannelMap { ids: copy_of(&self.ids) }
    }
}

impl PartialEq for ChannelMap {
    fn eq(&self, other: &ChannelMap) -> (same: bool) {
        if self.ids.len() != other.ids.len() {
            return false;
        }
        let mut i: usize = 0;
        while i < self.ids.len()
            invariant
                i <= self.ids@.len(),
                self.ids@.len() == other.ids@.len(),
                self.ids@.take(i as int) == other.ids@.take(i as int),
            decreases self.ids@.len() - i,
        {
            if self.ids[i] != other.ids[i] {
                return false;
            }
            assert(self.ids@.take(i + 1) == self.ids@.take(i as int).push(self.ids@[i as int]));
            assert(other.ids@.take(i + 1) == other.ids@.take(i as int).push(other.ids@[i as int]));
            i = i + 1;
        }
        assert(self.ids@.take(i as int) == self.ids@);
        assert(other.ids@.take(i as int) == other.ids@);
        true
    }
}

impl PartialEqSpecImpl for ChannelMap {
    open spec fn obeys_eq_spec() -> bool {
        true
    }

    open spec fn eq_spec(&self, other: &ChannelMap) -> bool {
        self@ == other@
    }
}

} // verus!
