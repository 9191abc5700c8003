//! Change detection: what was delivered last, and whether an observation
//! differs from it.
use crate::pair::{in_range, ControlPair};
use vstd::prelude::*;

verus! {

/// What observing `(channel, value)` reports when `last_sent` is the pair the
/// listener already has: the observed pair if it differs in either field,
/// nothing if both fields are equal.
pub open spec fn observed(last_sent: ControlPair, channel: i32, value: i32) -> Option<ControlPair> {
    if last_sent.channel != channel || last_sent.value != value {
        Some(ControlPair { channel, value })
    } else {
        None
    }
}

/// Remembers the pair that was last delivered to the listener.
///
/// Observing never changes what is remembered. The caller commits a pair
/// once its delivery is confirmed, so a pair whose delivery failed is
/// reported as a change again the next time it is observed.
pub struct ControlStateTracker {
    last_sent: ControlPair,
}

impl View for ControlStateTracker {
    type V = ControlPair;

    /// The pair last delivered, or the sentinel before the first delivery.
    closed spec fn view(&self) -> ControlPair {
        self.last_sent
    }
}

impl ControlStateTracker {
    /// What is remembered is the sentinel or a valid pair.
    pub open spec fn wf(&self) -> bool {
        self@ == ControlPair::sentinel() || self@.is_valid()
    }

    /// A tracker that has delivered nothing yet.
    pub fn new() -> (tracker: Self)
        ensures
            tracker@ == ControlPair::sentinel(),
            tracker.wf(),
    {
        ControlStateTracker { last_sent: ControlPair { channel: 0, value: 0 } }
    }

    /// The pair last delivered, or the sentinel before the first delivery.
    pub fn last_sent(&self) -> (pair: ControlPair)
        ensures
            pair == self@,
    {
        self.last_sent
    }

    /// Compares the current pair, field by field, with the pair last
    /// delivered, and reports it if it differs.
    ///
    /// Only pairs within the declared ranges may be observed.
    pub fn observe(&self, channel: i32, value: i32) -> (change: Option<ControlPair>)
        requires
            in_range(channel as int, value as int),
        ensures
            change == observed(self@, channel, value),
    {
        let mut has_changed = false;
        if self.last_sent.channel != channel {
            has_changed = true;
        }
        if self.last_sent.value != value {
            has_changed = true;
        }
        if has_changed {
            Some(ControlPair { channel, value })
        } else {
            None
        }
    }

    /// Records that `pair` has been delivered.
    pub fn commit(&mut self, pair: ControlPair)
        requires
            pair.is_valid(),
        ensures
            final(self)@ == pair,
            final(self).wf(),
        no_unwind
    {
        self.last_sent = pair;
    }
}

impl Default for ControlStateTracker {
    fn default() -> (tracker: Self)
        ensures
            tracker@ == ControlPair::sentinel(),
            tracker.wf(),
    {
        ControlStateTracker::new()
    }
}

/// A tracker that has delivered nothing reports every valid pair as a change.
pub proof fn lemma_first_observation_is_a_change(channel: i32, value: i32)
    requires
        in_range(channel as int, value as int),
    ensures
        observed(ControlPair::sentinel(), channel, value) == Some(ControlPair { channel, value }),
{
}

/// Two observations in a row, where the first is delivered and committed
/// before the second is made if it was a change: the second is reported
/// exactly when it differs from the first.
pub proof fn lemma_consecutive_observations(
    last_sent: ControlPair,
    first: ControlPair,
    second: ControlPair,
)
    ensures
        ({
            let remembered = match observed(last_sent, first.channel, first.value) {
                Some(pair) => pair,
                None => last_sent,
            };
            &&& remembered == first
            &&& observed(remembered, second.channel, second.value) == if second == first {
                None
            } else {
                Some(second)
            }
        }),
{
}

} // verus!
