//! The control pair and the ranges its two fields are declared with.
use vstd::prelude::*;

verus! {

/// Lowest channel a host may select.
pub const MIN_CHANNEL: i32 = 1;

/// Highest channel a host may select.
pub const MAX_CHANNEL: i32 = 512;

/// Lowest level a channel can be set to.
pub const MIN_VALUE: i32 = 0;

/// Highest level a channel can be set to.
pub const MAX_VALUE: i32 = 255;

/// Whether a channel and a level both lie within their declared ranges.
pub open spec fn in_range(channel: int, value: int) -> bool {
    &&& MIN_CHANNEL <= channel <= MAX_CHANNEL
    &&& MIN_VALUE <= value <= MAX_VALUE
}

/// A channel together with the level it is set to.
///
/// The type admits every pair of integers; [`ControlPair::is_valid`] singles
/// out those a host can produce.
#[derive(Clone, Copy, Debug, PartialEq, Eq, Structural)]
pub struct ControlPair {
    pub channel: i32,
    pub value: i32,
}

impl ControlPair {
    /// The pair `(0, 0)`, which stands for "nothing was delivered yet".
    pub open spec fn sentinel() -> ControlPair {
        ControlPair { channel: 0, value: 0 }
    }

    /// Both fields lie within their declared ranges.
    pub open spec fn is_valid(self) -> bool {
        in_range(self.channel as int, self.value as int)
    }

    /// Checks a channel and a level against their declared ranges.
    pub fn check_range(channel: i32, value: i32) -> (ok: bool)
        ensures
            ok == in_range(channel as int, value as int),
    {
        MIN_CHANNEL <= channel && channel <= MAX_CHANNEL && MIN_VALUE <= value && value
            <= MAX_VALUE
    }
}

impl Default for ControlPair {
    /// The sentinel: channel 0 is below every valid channel, so it differs
    /// from anything a host can produce.
    fn default() -> (pair: Self)
        ensures
            pair == ControlPair::sentinel(),
    {
        ControlPair { channel: 0, value: 0 }
    }
}

/// The sentinel is not a valid pair, hence never equal to one.
pub proof fn lemma_sentinel_is_not_valid()
    ensures
        !ControlPair::sentinel().is_valid(),
{
}

} // verus!
