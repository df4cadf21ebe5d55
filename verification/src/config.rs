//! Fixed parameters of the trainer.

use vstd::prelude::*;

verus! {

/// Number of upcoming reference digits kept pre-rendered as placeholder
/// cells while practising in learn mode (the look-ahead count).
pub const PRELOADED_DIGITS: usize = 5;

/// Interval, in milliseconds, at which the countdown ticker fires.
pub const PROGRESSBAR_UPDATE_FREQUENCY: u32 = 50;

} // verus!
