//! The message-dispatch core of a contract runtime.
//!
//! A contract is called with a selector and the encoded arguments of the
//! call ([`CallData`]). Its handlers form a chain ([`HandleCall`]): each
//! binds a message to the function that serves it, read-only
//! ([`MessageHandler`]) or mutable ([`MessageHandlerMut`]), and the chain
//! ends in [`UnreachableMessageHandler`]. [`dispatch`] walks the chain,
//! lets the first handler with the selector of the call decode the arguments
//! and serve the call, and says how the call ends ([`Outcome`]).
pub mod call_data;
pub mod chain;
pub mod codec;
pub mod error;
pub mod handler;
pub mod laws;
pub mod msg;
pub mod selector;
pub mod state;

pub use crate::call_data::CallData;
pub use crate::chain::{dispatch, HandleCall, Handler, UnreachableMessageHandler};
pub use crate::codec::{Decode, Encode};
pub use crate::error::{Error, Result};
pub use crate::handler::{
    MessageHandler, MessageHandlerMut, Outcome, RawMessageHandler, RawMessageHandlerMut,
};
pub use crate::msg::Message;
pub use crate::selector::MessageHandlerSelector;
pub use crate::state::{ContractState, ExecutionEnv};
