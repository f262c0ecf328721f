//! Information about a media file as a whole.

use crate::rational::Rational64;
use vstd::prelude::*;

verus! {

/// What is known of a media file before its streams are written.
#[derive(Clone, Copy, Debug, PartialEq, Eq, Structural)]
pub struct GlobalInfo {
    /// Duration of the file, in units of the time base.
    pub duration: Option<u64>,
    /// Time base of the file.
    pub timebase: Option<Rational64>,
}

/// Private data that a user attaches to a context or a frame. The library
/// carries it and never reads it. It has one owner and cannot be cloned.
#[derive(Debug)]
pub enum UserData {
    /// A number.
    Number(i64),
    /// A text.
    Text(String),
    /// Bytes.
    Bytes(Vec<u8>),
}

} // verus!
