//! RTM (TSX, 2013): transactional-memory control flow, not lane ops. Token: [`Rtm`].

use vstd::prelude::*;

use super::super::super::{Feature, FeatureSet};

verus! {

/// The status `xbegin` leaves when the transaction started (`_XBEGIN_STARTED`); any other
/// value is an abort status made of `_XABORT_*` bits.
pub const XBEGIN_STARTED: u32 = 0xffff_ffff;

/// The outcome of `xbegin` from the status the instruction left: `Ok(())` when the
/// transaction started, otherwise `Err` with the abort status.
pub fn xbegin_outcome(status: u32) -> (r: Result<(), u32>)
    ensures
        status == XBEGIN_STARTED ==> r == Ok::<(), u32>(()),
        status != XBEGIN_STARTED ==> r == Err::<(), u32>(status),
{
    if status == XBEGIN_STARTED {
        Ok(())
    } else {
        Err(status)
    }
}

/// Proof token: RTM available. Zero-sized, `Copy`.
#[derive(Debug, Clone, Copy)]
pub struct Rtm(());

impl Rtm {
    /// From a raw feature bitset (e.g. `x86::detect_features()`).
    pub fn from_features(set: FeatureSet) -> (r: Option<Self>)
        ensures
            r is Some <==> set@.contains(Feature::Rtm),
    {
        if set.contains(Feature::Rtm) {
            Some(Rtm(()))
        } else {
            None
        }
    }
}

} // verus!
