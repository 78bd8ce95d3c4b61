//! Message handlers: a message bound to the function that serves it.
use vstd::prelude::*;
use core::marker::PhantomData;
use crate::codec::Encode;
use crate::msg::Message;
use crate::selector::MessageHandlerSelector;
use crate::state::{ContractState, ExecutionEnv};

verus! {

/// A raw read-only message handler for the given message and state.
///
/// # Note
///
/// - Read-only message handlers cannot mutate contract state.
/// - Requires `Msg` to impl `Message` and `State` to impl `ContractState`.
pub trait RawMessageHandler<Msg: Message, State: ContractState> {
    /// Whether the handler may put out `output` when it is given `input` in
    /// the environment `env`.
    ///
    /// A handler that promises nothing about its output leaves it as it is.
    open spec fn yields(
        &self,
        env: ExecutionEnv<State>,
        input: Msg::Input,
        output: Msg::Output,
    ) -> bool {
        true
    }

    /// Serves one call of the message.
    fn handle(&self, env: &ExecutionEnv<State>, input: Msg::Input) -> (output: Msg::Output)
        ensures
            self.yields(*env, input, output),
    ;
}

/// A raw mutable message handler for the given message and state.
///
/// # Note
///
/// - Mutable message handlers may mutate contract state.
/// - Requires `Msg` to impl `Message` and `State` to impl `ContractState`.
pub trait RawMessageHandlerMut<Msg: Message, State: ContractState> {
    /// Whether the handler may put out `output` and leave the environment as
    /// `after` when it is given `input` in the environment `env`.
    ///
    /// A handler that promises nothing about what it does leaves it as it is.
    open spec fn yields(
        &self,
        env: ExecutionEnv<State>,
        input: Msg::Input,
        after: ExecutionEnv<State>,
        output: Msg::Output,
    ) -> bool {
        true
    }

    /// Serves one call of the message.
    fn handle(&self, env: &mut ExecutionEnv<State>, input: Msg::Input) -> (output: Msg::Output)
        ensures
            self.yields(*old(env), input, *final(env), output),
    ;
}

/// How a call ends once a handler has served it.
#[derive(Debug, PartialEq, Eq)]
pub enum Outcome<T> {
    /// Execution goes on after the call, which yields the handler's output.
    Returned(T),
    /// Execution of the contract ends at once. The bytes are the result of
    /// the call: the encoded output of the handler.
    Terminated(Vec<u8>),
}

/// Whether `outcome` is how a served call of `Msg` ends when its handler has
/// put out `output`.
///
/// A message that reports no value falls through with the output. Any other
/// message ends execution with the encoded output. Which of the two it is
/// depends on the message alone, never on the value that was put out.
pub open spec fn concludes<Msg: Message>(
    output: Msg::Output,
    outcome: Outcome<Msg::Output>,
) -> bool {
    if Msg::HAS_OUTPUT {
        outcome matches Outcome::Terminated(bytes) && bytes@ == output.encoded()
    } else {
        outcome == Outcome::Returned(output)
    }
}

/// Decides how a served call of `Msg` ends, given the output of its handler.
pub fn conclude<Msg: Message>(output: Msg::Output) -> (outcome: Outcome<Msg::Output>)
    ensures
        concludes::<Msg>(output, outcome),
        outcome is Terminated <==> Msg::HAS_OUTPUT,
{
    if Msg::HAS_OUTPUT {
        Outcome::Terminated(output.encode())
    } else {
        Outcome::Returned(output)
    }
}

/// A read-only message handler.
///
/// Read-only message handlers cannot mutate contract state.
pub struct MessageHandler<Msg, State, Raw> where
    Msg: Message,
    State: ContractState,
    Raw: RawMessageHandler<Msg, State>,
 {
    /// Binds the handler to its message and state. Messages are never
    /// instantiated, so nothing is stored for them.
    msg_marker: PhantomData<(Msg, State)>,
    /// The actual read-only handler for the message and state.
    raw_handler: Raw,
}

impl<Msg, State, Raw> MessageHandler<Msg, State, Raw> where
    Msg: Message,
    State: ContractState,
    Raw: RawMessageHandler<Msg, State>,
 {
    /// The raw handler that serves the message.
    pub closed spec fn raw(&self) -> Raw {
        self.raw_handler
    }

    /// Whether serving a call with the arguments `args` in the environment
    /// `env` may end as `outcome`: the raw handler is run once, on `args`, and
    /// its output decides how the call ends.
    pub open spec fn invoked(
        &self,
        env: ExecutionEnv<State>,
        args: Msg::Input,
        outcome: Outcome<Msg::Output>,
    ) -> bool {
        exists|output: Msg::Output|
            #[trigger] self.raw().yields(env, args, output) && concludes::<Msg>(output, outcome)
    }

    /// Returns the associated handler selector.
    pub fn selector() -> (selector: MessageHandlerSelector)
        ensures
            selector == Msg::ID,
    {
        Msg::ID
    }

    /// Constructs a message handler from its raw counterpart.
    pub fn from_raw(raw_handler: Raw) -> (handler: Self)
        ensures
            handler.raw() == raw_handler,
    {
        Self { msg_marker: PhantomData, raw_handler }
    }

    /// Serves a call whose arguments are already decoded: runs the raw
    /// handler on them and decides how the call ends. The environment is only
    /// read, and nothing is flushed.
    pub fn invoke(
        &self,
        env: &ExecutionEnv<State>,
        args: Msg::Input,
    ) -> (outcome: Outcome<Msg::Output>)
        ensures
            self.invoked(*env, args, outcome),
            outcome is Terminated <==> Msg::HAS_OUTPUT,
    {
        let output = self.raw_handler.handle(env, args);
        let outcome = conclude::<Msg>(output);
        assert(self.raw().yields(*env, args, output) && concludes::<Msg>(output, outcome));
        outcome
    }
}

impl<Msg, State, Raw> Copy for MessageHandler<Msg, State, Raw> where
    Msg: Message,
    State: ContractState,
    Raw: RawMessageHandler<Msg, State> + Copy,
 {
}

impl<Msg, State, Raw> Clone for MessageHandler<Msg, State, Raw> where
    Msg: Message,
    State: ContractState,
    Raw: RawMessageHandler<Msg, State> + Copy,
 {
    fn clone(&self) -> (handler: Self)
        ensures
            handler == *self,
    {
        Self { msg_marker: self.msg_marker, raw_handler: self.raw_handler }
    }
}

/// A mutable message handler.
///
/// Mutable message handlers may mutate contract state.
///
/// # Note
///
/// This is a thin wrapper around a raw message handler in order
/// to provide more type safety and better interfaces.
pub struct MessageHandlerMut<Msg, State, Raw> where
    Msg: Message,
    State: ContractState,
    Raw: RawMessageHandlerMut<Msg, State>,
 {
    /// Binds the handler to its message and state. Messages are never
    /// instantiated, so nothing is stored for them.
    msg_marker: PhantomData<(Msg, State)>,
    /// The actual mutable handler for the message and state.
    raw_handler: Raw,
}

impl<Msg, State, Raw> MessageHandlerMut<Msg, State, Raw> where
    Msg: Message,
    State: ContractState,
    Raw: RawMessageHandlerMut<Msg, State>,
 {
    /// The raw handler that serves the message.
    pub closed spec fn raw(&self) -> Raw {
        self.raw_handler
    }

    /// Whether serving a call with the arguments `args` in the environment
    /// `env` may leave the environment as `after` and end as `outcome`: the
    /// raw handler is run once, on `args`; the state it leaves is flushed
    /// once; and its output decides how the call ends.
    pub open spec fn invoked(
        &self,
        env: ExecutionEnv<State>,
        args: Msg::Input,
        after: ExecutionEnv<State>,
        outcome: Outcome<Msg::Output>,
    ) -> bool {
        exists|handled: ExecutionEnv<State>, output: Msg::Output|
            #[trigger] self.raw().yields(env, args, handled, output) && after == handled.flushed()
                && concludes::<Msg>(output, outcome)
    }

    /// Returns the associated handler selector.
    pub fn selector() -> (selector: MessageHandlerSelector)
        ensures
            selector == Msg::ID,
    {
        Msg::ID
    }

    /// Constructs a message handler from its raw counterpart.
    pub fn from_raw(raw_handler: Raw) -> (handler: Self)
        ensures
            handler.raw() == raw_handler,
    {
        Self { msg_marker: PhantomData, raw_handler }
    }

    /// Serves a call whose arguments are already decoded: runs the raw
    /// handler on them, flushes the state, and decides how the call ends.
    /// The flush comes before that decision and does not depend on it.
    pub fn invoke(
        &self,
        env: &mut ExecutionEnv<State>,
        args: Msg::Input,
    ) -> (outcome: Outcome<Msg::Output>)
        ensures
            self.invoked(*old(env), args, *final(env), outcome),
            outcome is Terminated <==> Msg::HAS_OUTPUT,
    {
        let output = self.raw_handler.handle(env, args);
        let ghost handled = *env;
        env.state.flush();
        let outcome = conclude::<Msg>(output);
        assert(self.raw().yields(*old(env), args, handled, output)
            && *env == handled.flushed() && concludes::<Msg>(output, outcome));
        outcome
    }
}

impl<Msg, State, Raw> Copy for MessageHandlerMut<Msg, State, Raw> where
    Msg: Message,
    State: ContractState,
    Raw: RawMessageHandlerMut<Msg, State> + Copy,
 {
}

impl<Msg, State, Raw> Clone for MessageHandlerMut<Msg, State, Raw> where
    Msg: Message,
    State: ContractState,
    Raw: RawMessageHandlerMut<Msg, State> + Copy,
 {
    fn clone(&self) -> (handler: Self)
        ensures
            handler == *self,
    {
        Self { msg_marker: self.msg_marker, raw_handler: self.raw_handler }
    }
}

} // verus!
