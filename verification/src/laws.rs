//! What holds of every dispatch, whatever the chain, the call and the
//! environment.
//!
//! Each law speaks of the answers that [`HandleCall::answers`] admits, which
//! are the only ones that [`HandleCall::handle_call`] gives.
use vstd::prelude::*;
use either::Either;
use crate::call_data::CallDataView;
use crate::chain::{left_part, right_part, HandleCall, Handler};
use crate::codec::Decode;
use crate::error::{Error, Result};
use crate::handler::{
    concludes,
    MessageHandler,
    MessageHandlerMut,
    Outcome,
    RawMessageHandler,
    RawMessageHandlerMut,
};
use crate::msg::Message;
use crate::state::{ContractState, ExecutionEnv};

verus! {

/// A call whose selector no handler of the chain takes fails with
/// `InvalidFunctionSelector`, and the environment stays as it was.
pub proof fn lemma_unknown_selector_is_rejected<State, Chain>(
    chain: Chain,
    env: ExecutionEnv<State>,
    call: CallDataView,
    after: ExecutionEnv<State>,
    result: Result<Outcome<Chain::Output>>,
) where State: ContractState, Chain: HandleCall<State>
    requires
        chain.answers(env, call, after, result),
        !chain.accepts(call.selector),
    ensures
        result == Err::<Outcome<Chain::Output>, Error>(Error::InvalidFunctionSelector),
        after == env,
{
    chain.lemma_answers(env, call, after, result);
}

/// A call that a handler takes, but whose arguments do not decode as the
/// input of that handler, fails with `InvalidArguments`. No handler has run
/// and nothing was flushed: the environment stays as it was.
pub proof fn lemma_undecodable_arguments_are_rejected<State, Chain>(
    chain: Chain,
    env: ExecutionEnv<State>,
    call: CallDataView,
    after: ExecutionEnv<State>,
    result: Result<Outcome<Chain::Output>>,
) where State: ContractState, Chain: HandleCall<State>
    requires
        chain.answers(env, call, after, result),
        chain.accepts(call.selector),
        !chain.decodes(call),
    ensures
        result == Err::<Outcome<Chain::Output>, Error>(Error::InvalidArguments),
        after == env,
{
    chain.lemma_answers(env, call, after, result);
}

/// A call that a handler takes, and whose arguments decode as the input of
/// that handler, is served: it does not fail.
pub proof fn lemma_decodable_call_is_served<State, Chain>(
    chain: Chain,
    env: ExecutionEnv<State>,
    call: CallDataView,
    after: ExecutionEnv<State>,
    result: Result<Outcome<Chain::Output>>,
) where State: ContractState, Chain: HandleCall<State>
    requires
        chain.answers(env, call, after, result),
        chain.accepts(call.selector),
        chain.decodes(call),
    ensures
        result is Ok,
{
    chain.lemma_answers(env, call, after, result);
}

/// A read-only handler serves a call whose arguments decode by one run of
/// its raw handler on the decoded arguments, and by nothing else: the output
/// of that run decides how the call ends, and the environment is not touched.
pub proof fn lemma_read_only_handler_runs_once<Msg, State, Raw>(
    handler: MessageHandler<Msg, State, Raw>,
    env: ExecutionEnv<State>,
    call: CallDataView,
    after: ExecutionEnv<State>,
    result: Result<Outcome<Msg::Output>>,
) where Msg: Message, State: ContractState, Raw: RawMessageHandler<Msg, State>
    requires
        handler.answers(env, call, after, result),
        Msg::Input::decoded(call.params) is Some,
    ensures
        after == env,
        result matches Ok(outcome) && exists|output: Msg::Output|
            #[trigger] handler.raw().yields(env, Msg::Input::decoded(call.params)->Some_0, output)
                && concludes::<Msg>(output, outcome),
{
}

/// A mutable handler serves a call whose arguments decode by one run of its
/// raw handler on the decoded arguments, followed by one flush of the state
/// that the run has left, and by nothing else. The state is flushed whether
/// or not the message reports a value.
pub proof fn lemma_mutable_handler_runs_and_flushes_once<Msg, State, Raw>(
    handler: MessageHandlerMut<Msg, State, Raw>,
    env: ExecutionEnv<State>,
    call: CallDataView,
    after: ExecutionEnv<State>,
    result: Result<Outcome<Msg::Output>>,
) where Msg: Message, State: ContractState, Raw: RawMessageHandlerMut<Msg, State>
    requires
        handler.answers(env, call, after, result),
        Msg::Input::decoded(call.params) is Some,
    ensures
        result matches Ok(outcome) && exists|handled: ExecutionEnv<State>, output: Msg::Output|
            #[trigger] handler.raw().yields(
                env,
                Msg::Input::decoded(call.params)->Some_0,
                handled,
                output,
            ) && after == handled.flushed() && concludes::<Msg>(output, outcome),
{
}

/// A call with the selector of the first handler of a chain is answered by
/// that handler alone: the rest of the chain is not asked, whatever it holds.
pub proof fn lemma_first_handler_answers_its_selector<State, First, Rest>(
    chain: (First, Rest),
    env: ExecutionEnv<State>,
    call: CallDataView,
    after: ExecutionEnv<State>,
    result: Result<Outcome<Either<First::Output, Rest::Output>>>,
) where State: ContractState, First: Handler<State>, Rest: HandleCall<State>
    requires
        call.selector == First::id(),
    ensures
        chain.answers(env, call, after, result) <==> (left_part(result) matches Some(inner)
            && chain.0.answers(env, call, after, inner)),
{
}

/// A call with another selector than that of the first handler of a chain is
/// answered by the rest of the chain alone: the first handler does not run,
/// and it flushes nothing.
pub proof fn lemma_first_handler_skips_other_selectors<State, First, Rest>(
    chain: (First, Rest),
    env: ExecutionEnv<State>,
    call: CallDataView,
    after: ExecutionEnv<State>,
    result: Result<Outcome<Either<First::Output, Rest::Output>>>,
) where State: ContractState, First: Handler<State>, Rest: HandleCall<State>
    requires
        call.selector != First::id(),
    ensures
        chain.answers(env, call, after, result) <==> (right_part(result) matches Some(inner)
            && chain.1.answers(env, call, after, inner)),
{
}

/// Two handlers with distinct selectors never answer for each other,
/// whichever of them is declared first: a call with the selector of the
/// first is answered by the first alone, and a call with the selector of the
/// second by the second alone.
pub proof fn lemma_distinct_selectors_do_not_interfere<State, First, Second, Rest>(
    chain: (First, (Second, Rest)),
    env: ExecutionEnv<State>,
    call: CallDataView,
    after: ExecutionEnv<State>,
    result: Result<Outcome<Either<First::Output, Either<Second::Output, Rest::Output>>>>,
) where
    State: ContractState,
    First: Handler<State>,
    Second: Handler<State>,
    Rest: HandleCall<State>,

    requires
        First::id() != Second::id(),
    ensures
        call.selector == First::id() ==> (chain.answers(env, call, after, result) <==> (
            left_part(result) matches Some(inner) && chain.0.answers(env, call, after, inner))),
        call.selector == Second::id() ==> (chain.answers(env, call, after, result) <==> (
            right_part(result) matches Some(later) && left_part(later) matches Some(inner)
                && chain.1.0.answers(env, call, after, inner))),
{
}

/// Where two handlers are bound to the same selector, the one declared first
/// answers every call with that selector, and the other one none.
pub proof fn lemma_first_declared_wins<State, First, Second, Rest>(
    chain: (First, (Second, Rest)),
    env: ExecutionEnv<State>,
    call: CallDataView,
    after: ExecutionEnv<State>,
    result: Result<Outcome<Either<First::Output, Either<Second::Output, Rest::Output>>>>,
) where
    State: ContractState,
    First: Handler<State>,
    Second: Handler<State>,
    Rest: HandleCall<State>,

    requires
        First::id() == Second::id(),
        call.selector == First::id(),
    ensures
        chain.answers(env, call, after, result) <==> (left_part(result) matches Some(inner)
            && chain.0.answers(env, call, after, inner)),
        !chain.selectors().no_duplicates(),
{
    let rest = chain.1.selectors();
    assert(rest[0] == Second::id());
    let all = chain.selectors();
    assert(all[0] == all[1]);
}

/// A call that a read-only handler serves leaves the environment as it was:
/// nothing is flushed.
pub proof fn lemma_read_only_call_flushes_nothing<State, Chain>(
    chain: Chain,
    env: ExecutionEnv<State>,
    call: CallDataView,
    after: ExecutionEnv<State>,
    result: Result<Outcome<Chain::Output>>,
) where State: ContractState, Chain: HandleCall<State>
    requires
        chain.answers(env, call, after, result),
        !chain.mutates(call.selector),
    ensures
        after == env,
{
    chain.lemma_answers(env, call, after, result);
}

/// After a call that a mutable handler has served, the state is flushed,
/// whether the call ends execution or falls through.
pub proof fn lemma_mutable_call_flushes<State, Chain>(
    chain: Chain,
    env: ExecutionEnv<State>,
    call: CallDataView,
    after: ExecutionEnv<State>,
    result: Result<Outcome<Chain::Output>>,
) where State: ContractState, Chain: HandleCall<State>
    requires
        chain.answers(env, call, after, result),
        chain.mutates(call.selector),
        result is Ok,
    ensures
        exists|handled: ExecutionEnv<State>| after == #[trigger] handled.flushed(),
{
    chain.lemma_answers(env, call, after, result);
}

/// A served call ends execution exactly when the message of its handler
/// reports a value; a call of a message that reports none falls through.
pub proof fn lemma_outcome_follows_message<State, Chain>(
    chain: Chain,
    env: ExecutionEnv<State>,
    call: CallDataView,
    after: ExecutionEnv<State>,
    result: Result<Outcome<Chain::Output>>,
) where State: ContractState, Chain: HandleCall<State>
    requires
        chain.answers(env, call, after, result),
        result is Ok,
    ensures
        result->Ok_0 is Terminated <==> chain.replies(call.selector),
{
    chain.lemma_answers(env, call, after, result);
}

} // verus!
