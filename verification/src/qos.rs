//! Quality-of-service settings of a publisher.

use vstd::prelude::*;

verus! {

/// What the routing layer does with a sample when its outbound queue is full.
#[derive(Clone, Copy, Debug, PartialEq, Eq, Structural)]
pub enum CongestionControl {
    /// Wait until the queue has room.
    Block,
    /// Discard the sample.
    Drop,
}

impl CongestionControl {
    /// The policy of a publisher that was given none: `Drop`.
    pub open spec fn spec_default() -> Self {
        CongestionControl::Drop
    }
}

impl Default for CongestionControl {
    fn default() -> (r: Self)
        ensures
            r == Self::spec_default(),
    {
        CongestionControl::Drop
    }
}

/// The priority classes a publisher can choose from, most urgent first.
#[derive(Clone, Copy, Debug, PartialEq, Eq, Structural)]
pub enum Priority {
    RealTime,
    InteractiveHigh,
    InteractiveLow,
    DataHigh,
    Data,
    DataLow,
    Background,
}

impl Priority {
    /// The priority of a publisher that was given none: `Data`.
    pub open spec fn spec_default() -> Self {
        Priority::Data
    }
}

impl Default for Priority {
    fn default() -> (r: Self)
        ensures
            r == Self::spec_default(),
    {
        Priority::Data
    }
}

/// Whether the routing layer retransmits what was lost.
#[derive(Clone, Copy, Debug, PartialEq, Eq, Structural)]
pub enum Reliability {
    BestEffort,
    Reliable,
}

/// The channel a sample travels on.
#[derive(Clone, Copy, Debug, PartialEq, Eq, Structural)]
pub struct Channel {
    pub priority: Priority,
    pub reliability: Reliability,
}

impl Channel {
    /// The channel of a published sample: the publisher's priority, always
    /// reliable.
    pub open spec fn spec_for_publication(priority: Priority) -> Channel {
        Channel { priority, reliability: Reliability::Reliable }
    }

    /// Builds the channel of a published sample. Publication does not look at
    /// the subscriptions that match: the channel is reliable whatever they ask.
    pub fn for_publication(priority: Priority) -> (r: Channel)
        ensures
            r == Self::spec_for_publication(priority),
    {
        Channel { priority, reliability: Reliability::Reliable }
    }
}

} // verus!
