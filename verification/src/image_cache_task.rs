//! What the element asks of the image cache.

use vstd::prelude::*;
use crate::resource::ResourceIdentifier;

verus! {

/// A one-way request to the image cache. Nothing comes back for it.
#[derive(Debug)]
pub enum Msg {
    /// Start fetching the resource, and keep it for whoever asks later.
    Prefetch(ResourceIdentifier),
}

impl Msg {
    /// The location that the request is about.
    pub open spec fn target(&self) -> Seq<char> {
        match *self {
            Msg::Prefetch(reference) => reference@,
        }
    }

    /// The identifier that the request carries.
    pub fn reference(&self) -> (reference: &ResourceIdentifier)
        ensures
            reference@ == self.target(),
            *self == Msg::Prefetch(*reference),
    {
        match self {
            Msg::Prefetch(reference) => reference,
        }
    }
}

/// The location that an optional request is about.
pub open spec fn target_of(request: Option<Msg>) -> Option<Seq<char>> {
    match request {
        Some(msg) => Some(msg.target()),
        None => None,
    }
}

} // verus!
