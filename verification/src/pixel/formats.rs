//! Well-known pixel formats.

use crate::pixel::{
    Chromaton, ColorModel, ColorPrimaries, ChromaLocation, Formaton, MatrixCoefficients,
    TransferCharacteristic, TrichromaticEncodingSystem, YUVRange, YUVSystem,
};
use vstd::prelude::*;

verus! {

/// The colour model of limited-range YCbCr.
pub open spec fn ycbcr_limited() -> ColorModel {
    ColorModel::Trichromatic(
        TrichromaticEncodingSystem::YUV(YUVSystem::YCbCr(YUVRange::Limited)),
    )
}

/// The colour model of RGB.
pub open spec fn rgb() -> ColorModel {
    ColorModel::Trichromatic(TrichromaticEncodingSystem::RGB)
}

/// Whether `f` is a little-endian format of the given model, components,
/// element size and kind, with nothing said of the colour space.
pub open spec fn is_format(
    f: Formaton,
    model: ColorModel,
    planes: Seq<Chromaton>,
    elem_size: u8,
    alpha: bool,
    palette: bool,
) -> bool {
    &&& f.model == model
    &&& f.has_planes(planes)
    &&& f.untagged()
    &&& f.elem_size == elem_size
    &&& !f.be
    &&& f.alpha == alpha
    &&& f.palette == palette
}

/// Puts a little-endian format together.
fn make(
    model: ColorModel,
    comp_info: [Option<Chromaton>; 5],
    components: u8,
    elem_size: u8,
    alpha: bool,
    palette: bool,
) -> (f: Formaton)
    ensures
        f.model == model,
        f.comp_info == comp_info,
        f.components == components,
        f.untagged(),
        f.elem_size == elem_size,
        !f.be,
        f.alpha == alpha,
        f.palette == palette,
{
    Formaton {
        model,
        primaries: ColorPrimaries::Unspecified,
        xfer: TransferCharacteristic::Unspecified,
        matrix: MatrixCoefficients::Unspecified,
        chroma_location: ChromaLocation::Unspecified,
        components,
        comp_info,
        elem_size,
        be: false,
        alpha,
        palette,
    }
}

/// Planar YCbCr 4:2:0 with eight bits: a full-size luma plane and two chroma
/// planes halved in both directions.
pub fn yuv420() -> (f: Formaton)
    ensures
        is_format(
            f,
            ycbcr_limited(),
            seq![
                Chromaton::spec_yuv8(0, 0, 0),
                Chromaton::spec_yuv8(1, 1, 1),
                Chromaton::spec_yuv8(1, 1, 2),
            ],
            0,
            false,
            false,
        ),
{
    make(
        ColorModel::Trichromatic(
            TrichromaticEncodingSystem::YUV(YUVSystem::YCbCr(YUVRange::Limited)),
        ),
        [
            Some(Chromaton::yuv8(0, 0, 0)),
            Some(Chromaton::yuv8(1, 1, 1)),
            Some(Chromaton::yuv8(1, 1, 2)),
            None,
            None,
        ],
        3,
        0,
        false,
        false,
    )
}

/// Palette of eight-bit RGB colours.
pub fn pal8() -> (f: Formaton)
    ensures
        is_format(
            f,
            rgb(),
            seq![Chromaton::spec_pal8(0), Chromaton::spec_pal8(1), Chromaton::spec_pal8(2)],
            3,
            false,
            true,
        ),
{
    make(
        ColorModel::Trichromatic(TrichromaticEncodingSystem::RGB),
        [
            Some(Chromaton::pal8(0)),
            Some(Chromaton::pal8(1)),
            Some(Chromaton::pal8(2)),
            None,
            None,
        ],
        3,
        3,
        false,
        true,
    )
}

/// Packed RGB in sixteen bits: five of red, six of green, five of blue.
pub fn rgb565() -> (f: Formaton)
    ensures
        is_format(
            f,
            rgb(),
            seq![
                Chromaton::spec_packrgb(5, 11, 0, 2),
                Chromaton::spec_packrgb(6, 5, 0, 2),
                Chromaton::spec_packrgb(5, 0, 0, 2),
            ],
            2,
            false,
            false,
        ),
{
    make(
        ColorModel::Trichromatic(TrichromaticEncodingSystem::RGB),
        [
            Some(Chromaton::packrgb(5, 11, 0, 2)),
            Some(Chromaton::packrgb(6, 5, 0, 2)),
            Some(Chromaton::packrgb(5, 0, 0, 2)),
            None,
            None,
        ],
        3,
        2,
        false,
        false,
    )
}

/// Packed RGB with alpha, eight bits each.
pub fn rgba() -> (f: Formaton)
    ensures
        is_format(
            f,
            rgb(),
            seq![
                Chromaton::spec_packrgb(8, 0, 3, 4),
                Chromaton::spec_packrgb(8, 0, 2, 4),
                Chromaton::spec_packrgb(8, 0, 1, 4),
                Chromaton::spec_packrgb(8, 0, 0, 4),
            ],
            4,
            true,
            false,
        ),
{
    make(
        ColorModel::Trichromatic(TrichromaticEncodingSystem::RGB),
        [
            Some(Chromaton::packrgb(8, 0, 3, 4)),
            Some(Chromaton::packrgb(8, 0, 2, 4)),
            Some(Chromaton::packrgb(8, 0, 1, 4)),
            Some(Chromaton::packrgb(8, 0, 0, 4)),
            None,
        ],
        4,
        4,
        true,
        false,
    )
}

/// Packed RGB, sixteen bits each.
pub fn rgb48() -> (f: Formaton)
    ensures
        is_format(
            f,
            rgb(),
            seq![
                Chromaton::spec_packrgb(16, 0, 2, 6),
                Chromaton::spec_packrgb(16, 0, 1, 6),
                Chromaton::spec_packrgb(16, 0, 0, 6),
            ],
            6,
            false,
            false,
        ),
{
    make(
        ColorModel::Trichromatic(TrichromaticEncodingSystem::RGB),
        [
            Some(Chromaton::packrgb(16, 0, 2, 6)),
            Some(Chromaton::packrgb(16, 0, 1, 6)),
            Some(Chromaton::packrgb(16, 0, 0, 6)),
            None,
            None,
        ],
        3,
        6,
        false,
        false,
    )
}

/// Packed RGB with alpha, sixteen bits each.
pub fn rgba64() -> (f: Formaton)
    ensures
        is_format(
            f,
            rgb(),
            seq![
                Chromaton::spec_packrgb(16, 0, 3, 8),
                Chromaton::spec_packrgb(16, 0, 2, 8),
                Chromaton::spec_packrgb(16, 0, 1, 8),
                Chromaton::spec_packrgb(16, 0, 0, 8),
            ],
            8,
            true,
            false,
        ),
{
    make(
        ColorModel::Trichromatic(TrichromaticEncodingSystem::RGB),
        [
            Some(Chromaton::packrgb(16, 0, 3, 8)),
            Some(Chromaton::packrgb(16, 0, 2, 8)),
            Some(Chromaton::packrgb(16, 0, 1, 8)),
            Some(Chromaton::packrgb(16, 0, 0, 8)),
            None,
        ],
        4,
        8,
        true,
        false,
    )
}

} // verus!
