//! The data a contract is called with.
use vstd::prelude::*;
use crate::codec::{lemma_u32_le_round_trip, Decode, Encode};
use crate::msg::Message;
use crate::selector::MessageHandlerSelector;

verus! {

/// What a [`CallData`] holds: the selector of the called message and the
/// encoded arguments of the call.
pub struct CallDataView {
    /// The selector of the called message.
    pub selector: MessageHandlerSelector,
    /// The encoded arguments, as they arrived.
    pub params: Seq<u8>,
}

/// The bytes that a call is sent as: the encoded selector, followed by the
/// encoded arguments.
pub open spec fn wire_encoded(call: CallDataView) -> Seq<u8> {
    call.selector.encoded() + call.params
}

/// The call that `bytes` were sent as. The selector takes the first four
/// bytes; whatever follows is the encoded arguments, none of it looked at.
/// Fewer than four bytes are no call.
pub open spec fn wire_decoded(bytes: Seq<u8>) -> Option<CallDataView> {
    match MessageHandlerSelector::decoded(bytes) {
        Some(selector) => Some(CallDataView { selector, params: bytes.skip(4) }),
        None => None,
    }
}

/// The raw data with which a contract is being called.
pub struct CallData {
    /// The decoded message selector.
    selector: MessageHandlerSelector,
    /// The raw undecoded parameter bytes.
    raw_params: Vec<u8>,
}

impl View for CallData {
    type V = CallDataView;

    closed spec fn view(&self) -> CallDataView {
        CallDataView { selector: self.selector, params: self.raw_params@ }
    }
}

impl CallData {
    /// Returns the message handler selector part of this call data.
    pub fn selector(&self) -> (selector: MessageHandlerSelector)
        ensures
            selector == self@.selector,
    {
        self.selector
    }

    /// Returns the actual call data in binary format.
    pub fn params(&self) -> (params: &[u8])
        ensures
            params@ == self@.params,
    {
        self.raw_params.as_slice()
    }

    /// Creates a proper call data from a message and its required input.
    ///
    /// # Note
    ///
    /// This should normally only be needed in test code if a user
    /// wants to test the handling of a specific message.
    pub fn from_msg<Msg>(args: Msg::Input) -> (data: Self) where
        Msg: Message,
        Msg::Input: Encode,

        ensures
            data@ == (CallDataView { selector: Msg::ID, params: args.encoded() }),
    {
        Self { selector: Msg::ID, raw_params: args.encode() }
    }

    /// Reads call data from the bytes that a call was sent as.
    ///
    /// Returns `None` exactly when `bytes` are too short to hold a selector.
    pub fn decode(bytes: &[u8]) -> (data: Option<Self>)
        ensures
            match wire_decoded(bytes@) {
                Some(call) => data matches Some(d) && d@ == call,
                None => data is None,
            },
    {
        match MessageHandlerSelector::decode(bytes) {
            None => None,
            Some(selector) => {
                let mut param_buf: Vec<u8> = Vec::new();
                let mut pos: usize = 4;
                while pos < bytes.len()
                    invariant
                        4 <= pos <= bytes.len(),
                        param_buf@ == bytes@.subrange(4, pos as int),
                    decreases bytes.len() - pos,
                {
                    param_buf.push(bytes[pos]);
                    pos += 1;
                }
                assert(param_buf@ == bytes@.skip(4));
                Some(Self { selector, raw_params: param_buf })
            },
        }
    }

    /// Writes the call data as the bytes that the call is sent as.
    pub fn encode(&self) -> (bytes: Vec<u8>)
        ensures
            bytes@ == wire_encoded(self@),
    {
        let mut bytes = self.selector.encode();
        let mut pos: usize = 0;
        while pos < self.raw_params.len()
            invariant
                pos <= self.raw_params.len(),
                bytes@ == self.selector.encoded() + self.raw_params@.take(pos as int),
            decreases self.raw_params.len() - pos,
        {
            bytes.push(self.raw_params[pos]);
            pos += 1;
        }
        assert(self.raw_params@.take(pos as int) == self.raw_params@);
        bytes
    }
}

/// Call data that is written out and read back is the same call data: the
/// selector is the one that was sent, and the arguments arrive byte for byte.
pub proof fn lemma_wire_round_trip(call: CallDataView)
    ensures
        wire_decoded(wire_encoded(call)) == Some(call),
{
    lemma_u32_le_round_trip(call.selector.0, call.params);
}

/// The arguments of a message, encoded and sent under the selector of the
/// message, arrive as the encoded arguments.
pub proof fn lemma_from_msg_round_trip<Msg>(args: Msg::Input) where
    Msg: Message,
    Msg::Input: Encode,

    ensures
        wire_decoded(
            wire_encoded(CallDataView { selector: Msg::ID, params: args.encoded() }),
        ) matches Some(call) && call.selector == Msg::ID && call.params == args.encoded(),
{
    lemma_wire_round_trip(CallDataView { selector: Msg::ID, params: args.encoded() });
}

} // verus!
