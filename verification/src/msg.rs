//! Messages.
use vstd::prelude::*;
use crate::codec::{Decode, Encode};
use crate::selector::MessageHandlerSelector;

verus! {

/// A message with an expected input type and output (result) type.
///
/// A message is a type-level description of one function of a contract: it
/// is never instantiated, and everything it says is known statically.
pub trait Message {
    /// The expected input type, also known as parameter types.
    type Input: Decode;

    /// The output of the message, also known as return type.
    type Output: Encode;

    /// The selector that calls of this message carry.
    const ID: MessageHandlerSelector;

    /// Whether the message reports a value to its caller.
    ///
    /// It is `false` exactly for messages whose output is the unit type. A
    /// call of such a message falls through once it is handled; a call of any
    /// other message ends the execution of the contract with its encoded
    /// output.
    const HAS_OUTPUT: bool;
}

} // verus!
