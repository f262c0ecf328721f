//! Well-known audio sample formats. All are little-endian, unpacked and
//! interleaved.

use crate::audiosample::Soniton;
use vstd::prelude::*;

verus! {

/// The interleaved little-endian format of `bits` bits per sample.
pub open spec fn plain(bits: u8, float: bool, signed: bool) -> Soniton {
    Soniton { bits, be: false, packed: false, planar: false, float, signed }
}

/// Unsigned integers of eight bits.
pub fn unsigned_8() -> (s: Soniton)
    ensures
        s == plain(8, false, false),
{
    Soniton { bits: 8, be: false, packed: false, planar: false, float: false, signed: false }
}

/// Signed integers of sixteen bits.
pub fn signed_16() -> (s: Soniton)
    ensures
        s == plain(16, false, true),
{
    Soniton { bits: 16, be: false, packed: false, planar: false, float: false, signed: true }
}

/// Signed integers of thirty-two bits.
pub fn signed_32() -> (s: Soniton)
    ensures
        s == plain(32, false, true),
{
    Soniton { bits: 32, be: false, packed: false, planar: false, float: false, signed: true }
}

/// Floating-point numbers of thirty-two bits.
pub fn float_32() -> (s: Soniton)
    ensures
        s == plain(32, true, true),
{
    Soniton { bits: 32, be: false, packed: false, planar: false, float: true, signed: true }
}

/// Floating-point numbers of sixty-four bits.
pub fn float_64() -> (s: Soniton)
    ensures
        s == plain(64, true, true),
{
    Soniton { bits: 64, be: false, packed: false, planar: false, float: true, signed: true }
}

} // verus!
