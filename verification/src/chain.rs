//! Handler chains and the dispatch of a call along them.
//!
//! A chain is a handler paired with the rest of the chain, and so on, down to
//! [`UnreachableMessageHandler`]. A call walks the chain from the front: the
//! first handler whose selector is that of the call serves it, and the
//! sentinel at the end rejects what no handler took.
use vstd::prelude::*;
use either::Either;
use crate::call_data::{CallData, CallDataView};
use crate::codec::Decode;
use crate::error::{Error, Result};
use crate::handler::{
    concludes,
    MessageHandler,
    MessageHandlerMut,
    Outcome,
    RawMessageHandler,
    RawMessageHandlerMut,
};
use crate::msg::Message;
use crate::selector::MessageHandlerSelector;
use crate::state::{ContractState, ExecutionEnv};

verus! {

/// The two-case union of the `either` crate: `Left(L)` or `Right(R)`.
///
/// The type is declared with its variants in view, which the verifier reads
/// from the crate itself: nothing is claimed of it here.
///
/// The output of a chain is the union of the output of its first handler, on
/// the left, and the output of the rest of the chain, on the right. A result
/// thus tells which position of the chain answered.
#[verifier::external_type_specification]
#[verifier::reject_recursive_types(L)]
#[verifier::reject_recursive_types(R)]
pub struct ExEither<L, R>(Either<L, R>);

/// The result of the first handler of a chain that `result` stands for, or
/// `None` where `result` is an output of the rest of the chain.
pub open spec fn left_part<A, B>(
    result: Result<Outcome<Either<A, B>>>,
) -> Option<Result<Outcome<A>>> {
    match result {
        Ok(Outcome::Returned(Either::Left(output))) => Some(Ok(Outcome::Returned(output))),
        Ok(Outcome::Returned(Either::Right(_))) => None,
        Ok(Outcome::Terminated(bytes)) => Some(Ok(Outcome::Terminated(bytes))),
        Err(error) => Some(Err(error)),
    }
}

/// The result of the rest of a chain that `result` stands for, or `None`
/// where `result` is an output of the first handler.
pub open spec fn right_part<A, B>(
    result: Result<Outcome<Either<A, B>>>,
) -> Option<Result<Outcome<B>>> {
    match result {
        Ok(Outcome::Returned(Either::Left(_))) => None,
        Ok(Outcome::Returned(Either::Right(output))) => Some(Ok(Outcome::Returned(output))),
        Ok(Outcome::Terminated(bytes)) => Some(Ok(Outcome::Terminated(bytes))),
        Err(error) => Some(Err(error)),
    }
}

/// Marks a result as that of the first handler of a chain.
fn answered_first<A, B>(inner: Result<Outcome<A>>) -> (result: Result<Outcome<Either<A, B>>>)
    ensures
        left_part(result) == Some(inner),
{
    match inner {
        Ok(Outcome::Returned(output)) => Ok(Outcome::Returned(Either::Left(output))),
        Ok(Outcome::Terminated(bytes)) => Ok(Outcome::Terminated(bytes)),
        Err(error) => Err(error),
    }
}

/// Marks a result as that of the rest of a chain.
fn answered_later<A, B>(inner: Result<Outcome<B>>) -> (result: Result<Outcome<Either<A, B>>>)
    ensures
        right_part(result) == Some(inner),
{
    match inner {
        Ok(Outcome::Returned(output)) => Ok(Outcome::Returned(Either::Right(output))),
        Ok(Outcome::Terminated(bytes)) => Ok(Outcome::Terminated(bytes)),
        Err(error) => Err(error),
    }
}

/// Types implementing this trait can handle contract calls.
pub trait HandleCall<State: ContractState> {
    /// The return type of the handled message.
    type Output;

    /// The selectors that the handlers are declared with, from the front of
    /// the chain to its end.
    spec fn selectors(&self) -> Seq<MessageHandlerSelector>;

    /// Whether some handler takes calls that carry `selector`.
    spec fn accepts(&self, selector: MessageHandlerSelector) -> bool;

    /// Whether the arguments of `call` decode as the input of the handler
    /// that takes the call.
    spec fn decodes(&self, call: CallDataView) -> bool;

    /// Whether the handler that takes calls with `selector` is a mutable one.
    spec fn mutates(&self, selector: MessageHandlerSelector) -> bool;

    /// Whether the message of the handler that takes calls with `selector`
    /// reports a value to its caller.
    spec fn replies(&self, selector: MessageHandlerSelector) -> bool;

    /// Whether handling `call` in the environment `env` may leave the
    /// environment as `after` and give `result`.
    spec fn answers(
        &self,
        env: ExecutionEnv<State>,
        call: CallDataView,
        after: ExecutionEnv<State>,
        result: Result<Outcome<Self::Output>>,
    ) -> bool;

    /// What holds of every answer to a call:
    ///
    /// - the call fails with `InvalidFunctionSelector` exactly when no
    ///   handler takes its selector;
    /// - it fails with `InvalidArguments` exactly when a handler takes it
    ///   whose input its arguments do not decode as;
    /// - a call that fails leaves the environment as it was;
    /// - a call that succeeds ends execution exactly when the message of its
    ///   handler reports a value;
    /// - a call served by a read-only handler leaves the environment as it
    ///   was, and after one served by a mutable handler the state is flushed.
    proof fn lemma_answers(
        &self,
        env: ExecutionEnv<State>,
        call: CallDataView,
        after: ExecutionEnv<State>,
        result: Result<Outcome<Self::Output>>,
    )
        requires
            self.answers(env, call, after, result),
        ensures
            result == Err::<Outcome<Self::Output>, Error>(Error::InvalidFunctionSelector)
                <==> !self.accepts(call.selector),
            result == Err::<Outcome<Self::Output>, Error>(Error::InvalidArguments)
                <==> self.accepts(call.selector) && !self.decodes(call),
            result is Ok <==> self.accepts(call.selector) && self.decodes(call),
            result is Err ==> after == env,
            result matches Ok(outcome) ==> (outcome is Terminated
                <==> self.replies(call.selector)),
            result is Ok && !self.mutates(call.selector) ==> after == env,
            result is Ok && self.mutates(call.selector)
                ==> exists|handled: ExecutionEnv<State>| after == #[trigger] handled.flushed(),
    ;

    /// A call with a selector that a handler is declared with is taken.
    proof fn lemma_declared_selector_is_accepted(&self, selector: MessageHandlerSelector)
        ensures
            self.selectors().contains(selector) ==> self.accepts(selector),
    ;

    /// Tells whether a handler is declared with `selector`.
    fn declares(&self, selector: MessageHandlerSelector) -> (declared: bool)
        ensures
            declared == self.selectors().contains(selector),
    ;

    /// Tells whether two handlers are declared with the same selector.
    ///
    /// The later of two such handlers can never be reached, since the first
    /// match takes the call. A chain is meant to be checked for this once,
    /// when it is built.
    fn has_colliding_selectors(&self) -> (colliding: bool)
        ensures
            colliding == !self.selectors().no_duplicates(),
    ;

    /// Handles the call and returns the result.
    fn handle_call(
        &self,
        env: &mut ExecutionEnv<State>,
        data: CallData,
    ) -> (result: Result<Outcome<Self::Output>>)
        ensures
            self.answers(*old(env), data@, *final(env), result),
    ;
}

/// What a sequence holds once `first` is put in front of it.
proof fn lemma_selectors_with_first(
    first: MessageHandlerSelector,
    rest: Seq<MessageHandlerSelector>,
)
    ensures
        forall|selector: MessageHandlerSelector|
            #[trigger] (seq![first] + rest).contains(selector) <==> selector == first
                || rest.contains(selector),
        (seq![first] + rest).no_duplicates() <==> !rest.contains(first) && rest.no_duplicates(),
{
    let all = seq![first] + rest;
    assert forall|selector: MessageHandlerSelector| #[trigger]
        all.contains(selector) <==> selector == first || rest.contains(selector) by {
        if selector == first {
            assert(all[0] == first);
        }
        if rest.contains(selector) {
            let i = choose|i: int| 0 <= i < rest.len() && rest[i] == selector;
            assert(all[i + 1] == selector);
        }
        if all.contains(selector) && selector != first {
            let i = choose|i: int| 0 <= i < all.len() && all[i] == selector;
            assert(rest[i - 1] == selector);
        }
    }
    if !rest.contains(first) && rest.no_duplicates() {
        assert forall|i: int, j: int|
            0 <= i < all.len() && 0 <= j < all.len() && i != j implies all[i] != all[j] by {
            if i > 0 {
                assert(all[i] == rest[i - 1]);
            }
            if j > 0 {
                assert(all[j] == rest[j - 1]);
            }
        }
    }
    if all.no_duplicates() {
        if rest.contains(first) {
            let i = choose|i: int| 0 <= i < rest.len() && rest[i] == first;
            assert(all[i + 1] == all[0]);
        }
        assert forall|i: int, j: int|
            0 <= i < rest.len() && 0 <= j < rest.len() && i != j implies rest[i] != rest[j] by {
            assert(all[i + 1] == rest[i]);
            assert(all[j + 1] == rest[j]);
        }
    }
}

/// Dispatches a call along a chain of handlers.
///
/// The chain is walked from the front. The first handler whose selector is
/// that of the call decodes the arguments, serves the call, and decides how
/// it ends; a mutable handler flushes the state before that decision. Nothing
/// is retried: a call that fails has changed nothing.
pub fn dispatch<State, Chain>(
    chain: &Chain,
    env: &mut ExecutionEnv<State>,
    data: CallData,
) -> (result: Result<Outcome<Chain::Output>>) where
    State: ContractState,
    Chain: HandleCall<State>,

    ensures
        chain.answers(*old(env), data@, *final(env), result),
        !chain.accepts(data@.selector)
            ==> result == Err::<Outcome<Chain::Output>, Error>(Error::InvalidFunctionSelector),
        chain.accepts(data@.selector) && !chain.decodes(data@)
            ==> result == Err::<Outcome<Chain::Output>, Error>(Error::InvalidArguments),
        chain.accepts(data@.selector) && chain.decodes(data@) ==> result is Ok,
        result is Err ==> *final(env) == *old(env),
        result matches Ok(outcome) ==> (outcome is Terminated
            <==> chain.replies(data@.selector)),
        !chain.mutates(data@.selector) ==> *final(env) == *old(env),
        result is Ok && chain.mutates(data@.selector)
            ==> exists|handled: ExecutionEnv<State>| *final(env) == #[trigger] handled.flushed(),
{
    let ghost before = *env;
    let ghost call = data@;
    let result = chain.handle_call(env, data);
    proof {
        chain.lemma_answers(before, call, *env, result);
    }
    result
}

/// A message handler that shall never handle a message.
///
/// # Note
///
/// Since this always comes last in a chain of message
/// handlers it can be used to check for incoming unknown
/// message selectors in call datas from the outside.
#[derive(Copy, Clone)]
pub struct UnreachableMessageHandler;

impl<State: ContractState> HandleCall<State> for UnreachableMessageHandler {
    type Output = ();

    /// The sentinel is declared with no selector.
    open spec fn selectors(&self) -> Seq<MessageHandlerSelector> {
        Seq::empty()
    }

    /// The sentinel takes no call.
    open spec fn accepts(&self, selector: MessageHandlerSelector) -> bool {
        false
    }

    open spec fn decodes(&self, call: CallDataView) -> bool {
        false
    }

    open spec fn mutates(&self, selector: MessageHandlerSelector) -> bool {
        false
    }

    open spec fn replies(&self, selector: MessageHandlerSelector) -> bool {
        false
    }

    /// Every call fails with `InvalidFunctionSelector`, and nothing changes.
    open spec fn answers(
        &self,
        env: ExecutionEnv<State>,
        call: CallDataView,
        after: ExecutionEnv<State>,
        result: Result<Outcome<()>>,
    ) -> bool {
        result == Err::<Outcome<()>, Error>(Error::InvalidFunctionSelector) && after == env
    }

    proof fn lemma_answers(
        &self,
        env: ExecutionEnv<State>,
        call: CallDataView,
        after: ExecutionEnv<State>,
        result: Result<Outcome<()>>,
    ) {
    }

    proof fn lemma_declared_selector_is_accepted(&self, selector: MessageHandlerSelector) {
    }

    fn declares(&self, selector: MessageHandlerSelector) -> (declared: bool) {
        false
    }

    fn has_colliding_selectors(&self) -> (colliding: bool) {
        false
    }

    fn handle_call(
        &self,
        _env: &mut ExecutionEnv<State>,
        _data: CallData,
    ) -> (result: Result<Outcome<()>>) {
        Err(Error::InvalidFunctionSelector)
    }
}

/// A handler of one message: the kind of thing a chain is made of.
///
/// Both [`MessageHandler`] and [`MessageHandlerMut`] are such handlers. A
/// handler answers every call that it is handed; its selector tells a chain
/// which calls to hand it.
pub trait Handler<State: ContractState>: HandleCall<State> {
    /// The selector of the message that the handler is bound to.
    spec fn id() -> MessageHandlerSelector;

    /// A handler takes every call that it is handed, whatever selector the
    /// call carries: comparing selectors is the business of the chain.
    proof fn lemma_takes_every_call(&self, selector: MessageHandlerSelector)
        ensures
            self.accepts(selector),
    ;

    /// Returns the selector of the message that the handler is bound to.
    fn selector() -> (selector: MessageHandlerSelector)
        ensures
            selector == Self::id(),
    ;
}

impl<Msg, State, Raw> Handler<State> for MessageHandler<Msg, State, Raw> where
    Msg: Message,
    State: ContractState,
    Raw: RawMessageHandler<Msg, State>,
 {
    open spec fn id() -> MessageHandlerSelector {
        Msg::ID
    }

    proof fn lemma_takes_every_call(&self, selector: MessageHandlerSelector) {
    }

    fn selector() -> (selector: MessageHandlerSelector) {
        Msg::ID
    }
}

impl<Msg, State, Raw> Handler<State> for MessageHandlerMut<Msg, State, Raw> where
    Msg: Message,
    State: ContractState,
    Raw: RawMessageHandlerMut<Msg, State>,
 {
    open spec fn id() -> MessageHandlerSelector {
        Msg::ID
    }

    proof fn lemma_takes_every_call(&self, selector: MessageHandlerSelector) {
    }

    fn selector() -> (selector: MessageHandlerSelector) {
        Msg::ID
    }
}

impl<Msg, State, Raw> HandleCall<State> for MessageHandler<Msg, State, Raw> where
    Msg: Message,
    State: ContractState,
    Raw: RawMessageHandler<Msg, State>,
 {
    type Output = Msg::Output;

    open spec fn selectors(&self) -> Seq<MessageHandlerSelector> {
        seq![Msg::ID]
    }

    /// A handler by itself takes whatever call it is handed: comparing
    /// selectors is the business of the chain that holds it.
    open spec fn accepts(&self, selector: MessageHandlerSelector) -> bool {
        true
    }

    open spec fn decodes(&self, call: CallDataView) -> bool {
        Msg::Input::decoded(call.params) is Some
    }

    open spec fn mutates(&self, selector: MessageHandlerSelector) -> bool {
        false
    }

    open spec fn replies(&self, selector: MessageHandlerSelector) -> bool {
        Msg::HAS_OUTPUT
    }

    /// Arguments that do not decode fail the call before anything runs.
    /// Arguments that decode are served by one run of the raw handler. Either
    /// way the environment stays as it was.
    open spec fn answers(
        &self,
        env: ExecutionEnv<State>,
        call: CallDataView,
        after: ExecutionEnv<State>,
        result: Result<Outcome<Msg::Output>>,
    ) -> bool {
        &&& after == env
        &&& match Msg::Input::decoded(call.params) {
            None => result == Err::<Outcome<Msg::Output>, Error>(Error::InvalidArguments),
            Some(args) => result matches Ok(outcome) && self.invoked(env, args, outcome),
        }
    }

    proof fn lemma_answers(
        &self,
        env: ExecutionEnv<State>,
        call: CallDataView,
        after: ExecutionEnv<State>,
        result: Result<Outcome<Msg::Output>>,
    ) {
    }

    proof fn lemma_declared_selector_is_accepted(&self, selector: MessageHandlerSelector) {
    }

    fn declares(&self, selector: MessageHandlerSelector) -> (declared: bool) {
        assert(seq![Msg::ID][0] == Msg::ID);
        MessageHandler::<Msg, State, Raw>::selector() == selector
    }

    fn has_colliding_selectors(&self) -> (colliding: bool) {
        false
    }

    fn handle_call(
        &self,
        env: &mut ExecutionEnv<State>,
        data: CallData,
    ) -> (result: Result<Outcome<Msg::Output>>) {
        match Msg::Input::decode(data.params()) {
            None => Err(Error::InvalidArguments),
            Some(args) => Ok(self.invoke(&*env, args)),
        }
    }
}

impl<Msg, State, Raw> HandleCall<State> for MessageHandlerMut<Msg, State, Raw> where
    Msg: Message,
    State: ContractState,
    Raw: RawMessageHandlerMut<Msg, State>,
 {
    type Output = Msg::Output;

    open spec fn selectors(&self) -> Seq<MessageHandlerSelector> {
        seq![Msg::ID]
    }

    /// A handler by itself takes whatever call it is handed: comparing
    /// selectors is the business of the chain that holds it.
    open spec fn accepts(&self, selector: MessageHandlerSelector) -> bool {
        true
    }

    open spec fn decodes(&self, call: CallDataView) -> bool {
        Msg::Input::decoded(call.params) is Some
    }

    open spec fn mutates(&self, selector: MessageHandlerSelector) -> bool {
        true
    }

    open spec fn replies(&self, selector: MessageHandlerSelector) -> bool {
        Msg::HAS_OUTPUT
    }

    /// Arguments that do not decode fail the call before anything runs or is
    /// flushed. Arguments that decode are served by one run of the raw
    /// handler, followed by one flush of the state.
    open spec fn answers(
        &self,
        env: ExecutionEnv<State>,
        call: CallDataView,
        after: ExecutionEnv<State>,
        result: Result<Outcome<Msg::Output>>,
    ) -> bool {
        match Msg::Input::decoded(call.params) {
            None => after == env && result == Err::<Outcome<Msg::Output>, Error>(
                Error::InvalidArguments,
            ),
            Some(args) => result matches Ok(outcome) && self.invoked(env, args, after, outcome),
        }
    }

    proof fn lemma_answers(
        &self,
        env: ExecutionEnv<State>,
        call: CallDataView,
        after: ExecutionEnv<State>,
        result: Result<Outcome<Msg::Output>>,
    ) {
        if let Some(args) = Msg::Input::decoded(call.params) {
            let outcome = result->Ok_0;
            let (handled, output) = choose|handled: ExecutionEnv<State>, output: Msg::Output|
                #[trigger] self.raw().yields(env, args, handled, output)
                    && after == handled.flushed() && concludes::<Msg>(output, outcome);
            assert(after == handled.flushed());
        }
    }

    proof fn lemma_declared_selector_is_accepted(&self, selector: MessageHandlerSelector) {
    }

    fn declares(&self, selector: MessageHandlerSelector) -> (declared: bool) {
        assert(seq![Msg::ID][0] == Msg::ID);
        MessageHandlerMut::<Msg, State, Raw>::selector() == selector
    }

    fn has_colliding_selectors(&self) -> (colliding: bool) {
        false
    }

    fn handle_call(
        &self,
        env: &mut ExecutionEnv<State>,
        data: CallData,
    ) -> (result: Result<Outcome<Msg::Output>>) {
        match Msg::Input::decode(data.params()) {
            None => Err(Error::InvalidArguments),
            Some(args) => Ok(self.invoke(env, args)),
        }
    }
}

impl<State, First, Rest> HandleCall<State> for (First, Rest) where
    State: ContractState,
    First: Handler<State>,
    Rest: HandleCall<State>,
 {
    type Output = Either<First::Output, Rest::Output>;

    open spec fn selectors(&self) -> Seq<MessageHandlerSelector> {
        seq![First::id()] + self.1.selectors()
    }

    /// A chain takes the calls with the selector of its first handler and
    /// those that the rest of the chain takes.
    open spec fn accepts(&self, selector: MessageHandlerSelector) -> bool {
        selector == First::id() || self.1.accepts(selector)
    }

    open spec fn decodes(&self, call: CallDataView) -> bool {
        if call.selector == First::id() {
            self.0.decodes(call)
        } else {
            self.1.decodes(call)
        }
    }

    open spec fn mutates(&self, selector: MessageHandlerSelector) -> bool {
        if selector == First::id() {
            self.0.mutates(selector)
        } else {
            self.1.mutates(selector)
        }
    }

    open spec fn replies(&self, selector: MessageHandlerSelector) -> bool {
        if selector == First::id() {
            self.0.replies(selector)
        } else {
            self.1.replies(selector)
        }
    }

    /// A call with the selector of the first handler is answered by that
    /// handler, on the left. Any other call is answered by the rest of the
    /// chain, on the right.
    open spec fn answers(
        &self,
        env: ExecutionEnv<State>,
        call: CallDataView,
        after: ExecutionEnv<State>,
        result: Result<Outcome<Self::Output>>,
    ) -> bool {
        if call.selector == First::id() {
            left_part(result) matches Some(inner) && self.0.answers(env, call, after, inner)
        } else {
            right_part(result) matches Some(inner) && self.1.answers(env, call, after, inner)
        }
    }

    proof fn lemma_answers(
        &self,
        env: ExecutionEnv<State>,
        call: CallDataView,
        after: ExecutionEnv<State>,
        result: Result<Outcome<Self::Output>>,
    ) {
        if call.selector == First::id() {
            self.0.lemma_takes_every_call(call.selector);
            self.0.lemma_answers(env, call, after, left_part(result)->Some_0);
        } else {
            self.1.lemma_answers(env, call, after, right_part(result)->Some_0);
        }
    }

    proof fn lemma_declared_selector_is_accepted(&self, selector: MessageHandlerSelector) {
        lemma_selectors_with_first(First::id(), self.1.selectors());
        self.1.lemma_declared_selector_is_accepted(selector);
    }

    fn declares(&self, selector: MessageHandlerSelector) -> (declared: bool) {
        proof {
            lemma_selectors_with_first(First::id(), self.1.selectors());
        }
        First::selector() == selector || self.1.declares(selector)
    }

    fn has_colliding_selectors(&self) -> (colliding: bool) {
        proof {
            lemma_selectors_with_first(First::id(), self.1.selectors());
        }
        self.1.declares(First::selector()) || self.1.has_colliding_selectors()
    }

    fn handle_call(
        &self,
        env: &mut ExecutionEnv<State>,
        data: CallData,
    ) -> (result: Result<Outcome<Self::Output>>) {
        let (handler, rest) = self;
        if First::selector() == data.selector() {
            answered_first(handler.handle_call(env, data))
        } else {
            answered_later(rest.handle_call(env, data))
        }
    }
}

} // verus!
