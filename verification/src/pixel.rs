//! Pixel format descriptors.

use vstd::prelude::*;
use vstd::std_specs::cmp::PartialEqSpecImpl;

pub mod formats;

verus! {

/// Range of the values of a YUV colour.
#[derive(Clone, Copy, Debug, PartialEq, Eq, Structural)]
pub enum YUVRange {
    /// Luma from 16 to 235 and chroma from 16 to 240, at eight bits.
    Limited,
    /// The whole range of the sample.
    Full,
}

/// The way a luma and two chroma values are derived from red, green and blue.
#[derive(Clone, Copy, Debug, PartialEq, Eq, Structural)]
pub enum MatrixCoefficients {
    Identity,
    BT709,
    Unspecified,
    Reserved,
    BT470M,
    BT470BG,
    ST170M,
    ST240M,
    YCgCo,
    BT2020NonConstantLuminance,
    BT2020ConstantLuminance,
    ST2085,
    ChromaticityDerivedNonConstantLuminance,
    ChromaticityDerivedConstantLuminance,
    ICtCp,
}

/// The chromaticity of the three primaries and of white.
#[derive(Clone, Copy, Debug, PartialEq, Eq, Structural)]
pub enum ColorPrimaries {
    Reserved0,
    BT709,
    Unspecified,
    Reserved,
    BT470M,
    BT470BG,
    ST170M,
    ST240M,
    Film,
    BT2020,
    ST428,
    P3DCI,
    P3Display,
    Tech3213,
}

/// The curve between light and the values that stand for it.
#[derive(Clone, Copy, Debug, PartialEq, Eq, Structural)]
pub enum TransferCharacteristic {
    Reserved0,
    BT1886,
    Unspecified,
    Reserved,
    BT470M,
    BT470BG,
    ST170M,
    ST240M,
    Linear,
    Logarithmic100,
    Logarithmic316,
    XVYCC,
    BT1361E,
    SRGB,
    BT2020Ten,
    BT2020Twelve,
    PerceptualQuantizer,
    ST428,
    HybridLogGamma,
}

/// Where the chroma samples lie among the luma samples.
#[derive(Clone, Copy, Debug, PartialEq, Eq, Structural)]
pub enum ChromaLocation {
    Unspecified,
    Left,
    Center,
    TopLeft,
    Top,
    BottomLeft,
    Bottom,
}

/// A system of one luma and two chroma values.
#[derive(Clone, Copy, Debug, PartialEq, Eq, Structural)]
pub enum YUVSystem {
    YCbCr(YUVRange),
    YCoCg,
    ICtCp,
}

/// A system of three colour values.
#[derive(Clone, Copy, Debug, PartialEq, Eq, Structural)]
pub enum TrichromaticEncodingSystem {
    RGB,
    YUV(YUVSystem),
    XYZ,
}

/// A colour model.
#[derive(Clone, Copy, Debug, PartialEq, Eq, Structural)]
pub enum ColorModel {
    Trichromatic(TrichromaticEncodingSystem),
    CMYK,
    HSV,
    LAB,
}

/// How one component of a pixel is laid out: the descriptor of a plane.
#[derive(Clone, Copy, Debug, PartialEq, Eq, Structural)]
pub struct Chromaton {
    /// Horizontal subsampling, as a power of two.
    pub h_ss: u8,
    /// Vertical subsampling, as a power of two.
    pub v_ss: u8,
    /// Whether the component shares its bytes with others.
    pub packed: bool,
    /// Bit depth of the component.
    pub depth: u8,
    /// Shift of a packed component within its element.
    pub shift: u8,
    /// Offset of the component: the index of its plane, or of its byte
    /// within a packed element.
    pub comp_offs: u8,
    /// Distance in bytes to the next element of the component.
    pub next_elem: u8,
}

impl Chromaton {
    /// A component of a planar format with eight bits, as a value.
    pub open spec fn spec_yuv8(h_ss: u8, v_ss: u8, comp_offs: u8) -> Chromaton {
        Chromaton { h_ss, v_ss, packed: false, depth: 8, shift: 0, comp_offs, next_elem: 1 }
    }

    /// A component of a packed RGB format, as a value.
    pub open spec fn spec_packrgb(depth: u8, shift: u8, comp_offs: u8, next_elem: u8) -> Chromaton {
        Chromaton { h_ss: 0, v_ss: 0, packed: true, depth, shift, comp_offs, next_elem }
    }

    /// A component of a palette of eight-bit colours, as a value.
    pub open spec fn spec_pal8(comp_offs: u8) -> Chromaton {
        Chromaton { h_ss: 0, v_ss: 0, packed: true, depth: 8, shift: 0, comp_offs, next_elem: 3 }
    }

    /// Makes a component descriptor of its seven parts.
    pub fn new(
        h_ss: u8,
        v_ss: u8,
        packed: bool,
        depth: u8,
        shift: u8,
        comp_offs: u8,
        next_elem: u8,
    ) -> (c: Chromaton)
        ensures
            c == (Chromaton { h_ss, v_ss, packed, depth, shift, comp_offs, next_elem }),
    {
        Chromaton { h_ss, v_ss, packed, depth, shift, comp_offs, next_elem }
    }

    /// A component of a planar format with eight bits: unpacked, unshifted,
    /// its elements one byte apart.
    pub fn yuv8(h_ss: u8, v_ss: u8, comp_offs: u8) -> (c: Chromaton)
        ensures
            c == Chromaton::spec_yuv8(h_ss, v_ss, comp_offs),
    {
        Chromaton { h_ss, v_ss, packed: false, depth: 8, shift: 0, comp_offs, next_elem: 1 }
    }

    /// A component of a packed RGB format: packed and not subsampled.
    pub fn packrgb(depth: u8, shift: u8, comp_offs: u8, next_elem: u8) -> (c: Chromaton)
        ensures
            c == Chromaton::spec_packrgb(depth, shift, comp_offs, next_elem),
    {
        Chromaton { h_ss: 0, v_ss: 0, packed: true, depth, shift, comp_offs, next_elem }
    }

    /// A component of a palette of eight-bit colours: packed, with three
    /// bytes between its elements.
    pub fn pal8(comp_offs: u8) -> (c: Chromaton)
        ensures
            c == Chromaton::spec_pal8(comp_offs),
    {
        Chromaton { h_ss: 0, v_ss: 0, packed: true, depth: 8, shift: 0, comp_offs, next_elem: 3 }
    }
}

/// The largest number of components that a pixel format can have.
pub const MAX_COMPONENTS: usize = 5;

/// Image colorspace representation.
///
/// Describes a colour model, the layout of up to five components and the
/// colour space. Two values are equal where all their parts are.
#[derive(Clone, Copy, Debug)]
pub struct Formaton {
    /// Colour model.
    pub model: ColorModel,
    /// Colour primaries.
    pub primaries: ColorPrimaries,
    /// Transfer characteristic.
    pub xfer: TransferCharacteristic,
    /// Matrix coefficients.
    pub matrix: MatrixCoefficients,
    /// Chroma location.
    pub chroma_location: ChromaLocation,
    /// Number of components, each of which has a plane of its own in a
    /// frame.
    pub components: u8,
    /// The components' descriptors.
    pub comp_info: [Option<Chromaton>; 5],
    /// Size in bytes of a packed element.
    pub elem_size: u8,
    /// Whether the values are stored big-endian.
    pub be: bool,
    /// Whether there is an alpha component.
    pub alpha: bool,
    /// Whether the colours come from a palette.
    pub palette: bool,
}

impl PartialEq for Formaton {
    fn eq(&self, other: &Formaton) -> (same: bool) {
        let mut same: bool = self.model == other.model && self.primaries == other.primaries
            && self.xfer == other.xfer && self.matrix == other.matrix && self.chroma_location
            == other.chroma_location && self.components == other.components && self.elem_size
            == other.elem_size && self.be == other.be && self.alpha == other.alpha && self.palette
            == other.palette;
        let ghost rest = same;
        let mut i: usize = 0;
        while i < 5
            invariant
                i <= 5,
                same == (rest && forall|j: int|
                    0 <= j < i ==> self.comp_info[j] == other.comp_info[j]),
            decreases 5 - i,
        {
            if self.comp_info[i] != other.comp_info[i] {
                same = false;
            }
            i = i + 1;
        }
        proof {
            if same {
                assert(self.comp_info =~= other.comp_info);
            }
        }
        same
    }
}

impl PartialEqSpecImpl for Formaton {
    open spec fn obeys_eq_spec() -> bool {
        true
    }

    open spec fn eq_spec(&self, other: &Formaton) -> bool {
        *self == *other
    }
}

impl Eq for Formaton {

}

impl Formaton {
    /// Whether the format's components are exactly `planes`, in this order.
    pub open spec fn has_planes(self, planes: Seq<Chromaton>) -> bool {
        &&& self.components == planes.len()
        &&& planes.len() <= 5
        &&& forall|i: int|
            0 <= i < 5 ==> #[trigger] self.comp_info[i] == (if i < planes.len() {
                Some(planes[i])
            } else {
                None::<Chromaton>
            })
    }

    /// A format is determined by its parts: two formats with the same
    /// components that agree in everything else are the same format.
    pub proof fn lemma_determined_by_planes(self, other: Formaton, planes: Seq<Chromaton>)
        requires
            self.has_planes(planes),
            other.has_planes(planes),
            self.model == other.model,
            self.primaries == other.primaries,
            self.xfer == other.xfer,
            self.matrix == other.matrix,
            self.chroma_location == other.chroma_location,
            self.elem_size == other.elem_size,
            self.be == other.be,
            self.alpha == other.alpha,
            self.palette == other.palette,
        ensures
            self == other,
    {
        assert(self.comp_info =~= other.comp_info);
    }

    /// Whether nothing is said of the colour space.
    pub open spec fn untagged(self) -> bool {
        &&& self.primaries == ColorPrimaries::Unspecified
        &&& self.xfer == TransferCharacteristic::Unspecified
        &&& self.matrix == MatrixCoefficients::Unspecified
        &&& self.chroma_location == ChromaLocation::Unspecified
    }

    /// Makes a format of a colour model and the descriptors of its
    /// components, with nothing said of the colour space.
    ///
    /// There is no format of more than five components.
    pub fn new(
        model: ColorModel,
        components: &[Chromaton],
        elem_size: u8,
        be: bool,
        alpha: bool,
        palette: bool,
    ) -> (made: Option<Formaton>)
        ensures
            made is Some <==> components@.len() <= MAX_COMPONENTS,
            made matches Some(f) ==> {
                &&& f.model == model
                &&& f.has_planes(components@)
                &&& f.untagged()
                &&& f.elem_size == elem_size
                &&& f.be == be
                &&& f.alpha == alpha
                &&& f.palette == palette
            },
    {
        if components.len() > MAX_COMPONENTS {
            return None;
        }
        let mut c: [Option<Chromaton>; 5] = [None, None, None, None, None];
        let mut i: usize = 0;
        while i < components.len()
            invariant
                i <= components@.len() <= 5,
                forall|j: int|
                    0 <= j < 5 ==> #[trigger] c[j] == (if j < i {
                        Some(components@[j])
                    } else {
                        None::<Chromaton>
                    }),
            decreases components@.len() - i,
        {
            c[i] = Some(components[i]);
            i = i + 1;
        }
        Some(
            Formaton {
                model,
                primaries: ColorPrimaries::Unspecified,
                xfer: TransferCharacteristic::Unspecified,
                matrix: MatrixCoefficients::Unspecified,
                chroma_location: ChromaLocation::Unspecified,
                components: components.len() as u8,
                comp_info: c,
                elem_size,
                be,
                alpha,
                palette,
            },
        )
    }

    /// Returns the number of components.
    pub fn get_num_comp(&self) -> (n: usize)
        ensures
            n == self.components,
    {
        self.components as usize
    }

    /// Returns the descriptor of the component at `index`, if there is one.
    pub fn get_chromaton(&self, index: usize) -> (c: Option<Chromaton>)
        ensures
            c == (if index < 5 {
                self.comp_info[index as int]
            } else {
                None
            }),
    {
        if index < 5 {
            self.comp_info[index]
        } else {
            None
        }
    }
}

} // verus!
