//! Frame-exchange interests: what a frame producer wants to do next, in a
//! form that composes across producers.
use vstd::prelude::*;

verus! {

/// The interests of a frame producer. Merging two sets keeps each interest
/// that either of them holds.
#[derive(Clone, Copy, Debug, PartialEq, Eq, Structural)]
pub struct FrameExchangeInterests {
    /// The producer waits for delivery notifications of frames it sent
    pub delivery_notifications: bool,
    /// The producer has data ready to send now
    pub transmission: bool,
}

impl FrameExchangeInterests {
    /// The set without any interest.
    pub open spec fn spec_none() -> FrameExchangeInterests {
        FrameExchangeInterests { delivery_notifications: false, transmission: false }
    }

    pub open spec fn spec_merge(self, other: FrameExchangeInterests) -> FrameExchangeInterests {
        FrameExchangeInterests {
            delivery_notifications: self.delivery_notifications || other.delivery_notifications,
            transmission: self.transmission || other.transmission,
        }
    }

    /// The set without any interest.
    pub fn none() -> (r: FrameExchangeInterests)
        ensures
            r == FrameExchangeInterests::spec_none(),
    {
        FrameExchangeInterests { delivery_notifications: false, transmission: false }
    }

    /// Each interest that `self` or `other` holds.
    pub fn merge(self, other: FrameExchangeInterests) -> (r: FrameExchangeInterests)
        ensures
            r == self.spec_merge(other),
    {
        FrameExchangeInterests {
            delivery_notifications: self.delivery_notifications || other.delivery_notifications,
            transmission: self.transmission || other.transmission,
        }
    }
}

impl Default for FrameExchangeInterests {
    fn default() -> (r: FrameExchangeInterests)
        ensures
            r == FrameExchangeInterests::spec_none(),
    {
        FrameExchangeInterests::none()
    }
}

/// Merging is associative.
pub proof fn lemma_merge_associative(
    a: FrameExchangeInterests,
    b: FrameExchangeInterests,
    c: FrameExchangeInterests,
)
    ensures
        a.spec_merge(b).spec_merge(c) == a.spec_merge(b.spec_merge(c)),
{
}

/// Merging is commutative.
pub proof fn lemma_merge_commutative(a: FrameExchangeInterests, b: FrameExchangeInterests)
    ensures
        a.spec_merge(b) == b.spec_merge(a),
{
}

/// The set without any interest leaves the other operand of a merge unchanged.
pub proof fn lemma_merge_identity(a: FrameExchangeInterests)
    ensures
        a.spec_merge(FrameExchangeInterests::spec_none()) == a,
        FrameExchangeInterests::spec_none().spec_merge(a) == a,
{
}

/// A component that declares its frame-exchange interests.
pub trait FrameExchangeInterestProvider {
    /// The interests of this component now.
    fn frame_exchange_interests(&self) -> FrameExchangeInterests;
}

} // verus!
