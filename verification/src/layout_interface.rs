//! What the element asks of layout, and what layout answers.

use vstd::prelude::*;
use crate::geometry::{px_of, to_px, Rect};

verus! {

/// A token that names one live node to another thread. It can be copied and
/// sent freely; only the thread that owns the node can turn it back into the
/// node.
#[derive(Clone, Copy, Debug, PartialEq, Eq, Structural)]
pub struct TrustedNodeAddress(pub u64);

/// A question to layout. `C` is the sending half of the channel on which the
/// one answer is to come back; it is carried along untouched.
#[derive(Debug)]
pub enum LayoutQuery<C> {
    /// Where is the content box of this node?
    ContentBoxQuery(TrustedNodeAddress, C),
}

/// The answer to a `ContentBoxQuery`: the node's content box.
#[derive(Clone, Copy, Debug, PartialEq, Eq, Structural)]
pub struct ContentBoxResponse(pub Rect);

/// The side of the content box that a geometry accessor reads.
#[derive(Clone, Copy, Debug, PartialEq, Eq, Structural)]
pub enum Dimension {
    Width,
    Height,
}

/// How far a box reaches along a dimension, in whole pixels.
pub open spec fn extent(rect: Rect, dimension: Dimension) -> int {
    match dimension {
        Dimension::Width => px_of(rect.size.width),
        Dimension::Height => px_of(rect.size.height),
    }
}

/// One read of a geometry accessor, from the moment its query has gone out.
/// It waits for layout's answer, takes exactly one, and is then complete
/// for good: there is no way back and no way to call it off.
#[derive(Clone, Copy, Debug, PartialEq, Eq, Structural)]
pub enum GeometryRead {
    /// The query is out and no answer has come yet.
    AwaitingResponse(Dimension),
    /// The answer has come; this is what the accessor returns.
    Completed(u32),
}

impl GeometryRead {
    /// The read once `response` has arrived: a waiting read completes with
    /// the extent that the response gives, a complete one stays as it is.
    pub open spec fn after(self, response: ContentBoxResponse) -> GeometryRead {
        match self {
            GeometryRead::AwaitingResponse(dimension) => GeometryRead::Completed(
                extent(response.0, dimension) as u32,
            ),
            GeometryRead::Completed(px) => GeometryRead::Completed(px),
        }
    }

    /// What the accessor returns, once the read is complete.
    pub open spec fn outcome(self) -> Option<u32> {
        match self {
            GeometryRead::AwaitingResponse(_) => None,
            GeometryRead::Completed(px) => Some(px),
        }
    }

    /// A read of `dimension` whose query has just been sent.
    pub fn begin(dimension: Dimension) -> (read: GeometryRead)
        ensures
            read == GeometryRead::AwaitingResponse(dimension),
    {
        GeometryRead::AwaitingResponse(dimension)
    }

    /// Hands the read a response from layout. A waiting read consumes it
    /// and completes; a complete read leaves it alone. Says whether the
    /// response was consumed.
    pub fn receive(&mut self, response: &ContentBoxResponse) -> (consumed: bool)
        ensures
            *final(self) == old(self).after(*response),
            consumed == old(self).outcome().is_none(),
            final(self).outcome().is_some(),
            match *old(self) {
                GeometryRead::AwaitingResponse(dimension) => final(self).outcome().unwrap() as int
                    == extent(response.0, dimension),
                GeometryRead::Completed(px) => final(self).outcome() == Some(px),
            },
    {
        match *self {
            GeometryRead::AwaitingResponse(dimension) => {
                let px = match dimension {
                    Dimension::Width => to_px(response.0.size.width),
                    Dimension::Height => to_px(response.0.size.height),
                };
                *self = GeometryRead::Completed(px);
                true
            },
            GeometryRead::Completed(_) => false,
        }
    }

    /// What the accessor returns: the pixels once the read is complete,
    /// nothing while it waits.
    pub fn value(&self) -> (px: Option<u32>)
        ensures
            px == self.outcome(),
    {
        match *self {
            GeometryRead::AwaitingResponse(_) => None,
            GeometryRead::Completed(px) => Some(px),
        }
    }
}

/// A read is decided by the first response that reaches it: it is complete
/// from then on, with the extent that this response gives, and no later
/// response changes it.
pub proof fn first_response_decides(
    dimension: Dimension,
    first: ContentBoxResponse,
    later: ContentBoxResponse,
)
    ensures
        GeometryRead::AwaitingResponse(dimension).outcome().is_none(),
        GeometryRead::AwaitingResponse(dimension).after(first).outcome() == Some(
            extent(first.0, dimension) as u32,
        ),
        extent(first.0, dimension) as u32 as int == extent(first.0, dimension),
        GeometryRead::AwaitingResponse(dimension).after(first).after(later)
            == GeometryRead::AwaitingResponse(dimension).after(first),
{
}

} // verus!
