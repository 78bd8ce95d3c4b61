//! Message selectors.
use vstd::prelude::*;
use crate::codec::{Decode, Encode};

verus! {

/// A hash to identify a called function.
///
/// A selector is an opaque 32-bit value: the dispatcher only ever compares
/// two of them for equality.
#[derive(Copy, Clone, Debug, PartialEq, Eq, Structural)]
pub struct MessageHandlerSelector(pub u32);

impl MessageHandlerSelector {
    /// Creates a new message handler selector from the given value.
    pub fn new(raw: u32) -> (selector: Self)
        ensures
            selector == MessageHandlerSelector(raw),
    {
        Self(raw)
    }
}

impl Encode for MessageHandlerSelector {
    /// A selector is encoded as its raw value.
    open spec fn encoded(&self) -> Seq<u8> {
        self.0.encoded()
    }

    fn encode(&self) -> (bytes: Vec<u8>) {
        self.0.encode()
    }
}

impl Decode for MessageHandlerSelector {
    /// A selector is decoded as its raw value.
    open spec fn decoded(bytes: Seq<u8>) -> Option<Self> {
        match u32::decoded(bytes) {
            Some(raw) => Some(MessageHandlerSelector(raw)),
            None => None,
        }
    }

    fn decode(bytes: &[u8]) -> (value: Option<Self>) {
        match u32::decode(bytes) {
            Some(raw) => Some(MessageHandlerSelector::new(raw)),
            None => None,
        }
    }
}

} // verus!
