use std::cell::Cell;

use either::Either;
use pdsl_model::{
    dispatch, CallData, ContractState, Encode, Error, ExecutionEnv, HandleCall, Message,
    MessageHandler, MessageHandlerMut, MessageHandlerSelector, Outcome, RawMessageHandler,
    RawMessageHandlerMut, UnreachableMessageHandler,
};

/// A counter that records how often it was flushed.
#[derive(Debug, Clone, PartialEq, Eq)]
struct Counter {
    value: u32,
    flushes: u32,
}

impl ContractState for Counter {
    fn flush(&mut self) {
        self.flushes += 1;
    }
}

fn env_with(value: u32) -> ExecutionEnv<Counter> {
    ExecutionEnv { state: Counter { value, flushes: 0 } }
}

struct Get;

impl Message for Get {
    type Input = ();
    type Output = u32;
    const ID: MessageHandlerSelector = MessageHandlerSelector(0x1);
    const HAS_OUTPUT: bool = true;
}

struct Inc;

impl Message for Inc {
    type Input = ();
    type Output = u32;
    const ID: MessageHandlerSelector = MessageHandlerSelector(0x2);
    const HAS_OUTPUT: bool = true;
}

struct Store;

impl Message for Store {
    type Input = u32;
    type Output = ();
    const ID: MessageHandlerSelector = MessageHandlerSelector(0x3);
    const HAS_OUTPUT: bool = false;
}

struct Check;

impl Message for Check {
    type Input = u32;
    type Output = ();
    const ID: MessageHandlerSelector = MessageHandlerSelector(0x4);
    const HAS_OUTPUT: bool = false;
}

/// A second message with the selector of `Get`.
struct Shadow;

impl Message for Shadow {
    type Input = ();
    type Output = u32;
    const ID: MessageHandlerSelector = MessageHandlerSelector(0x1);
    const HAS_OUTPUT: bool = true;
}

#[derive(Clone, Copy)]
struct GetFn<'a> {
    calls: &'a Cell<u32>,
}

impl<'a> RawMessageHandler<Get, Counter> for GetFn<'a> {
    fn handle(&self, env: &ExecutionEnv<Counter>, _input: ()) -> u32 {
        self.calls.set(self.calls.get() + 1);
        env.state.value
    }
}

#[derive(Clone, Copy)]
struct IncFn<'a> {
    calls: &'a Cell<u32>,
}

impl<'a> RawMessageHandlerMut<Inc, Counter> for IncFn<'a> {
    fn handle(&self, env: &mut ExecutionEnv<Counter>, _input: ()) -> u32 {
        self.calls.set(self.calls.get() + 1);
        env.state.value += 1;
        env.state.value
    }
}

struct StoreFn<'a> {
    calls: &'a Cell<u32>,
}

impl<'a> RawMessageHandlerMut<Store, Counter> for StoreFn<'a> {
    fn handle(&self, env: &mut ExecutionEnv<Counter>, input: u32) {
        self.calls.set(self.calls.get() + 1);
        env.state.value = input;
    }
}

struct CheckFn<'a> {
    calls: &'a Cell<u32>,
    seen: &'a Cell<u32>,
}

impl<'a> RawMessageHandler<Check, Counter> for CheckFn<'a> {
    fn handle(&self, _env: &ExecutionEnv<Counter>, input: u32) {
        self.calls.set(self.calls.get() + 1);
        self.seen.set(input);
    }
}

struct ShadowFn<'a> {
    calls: &'a Cell<u32>,
}

impl<'a> RawMessageHandler<Shadow, Counter> for ShadowFn<'a> {
    fn handle(&self, _env: &ExecutionEnv<Counter>, _input: ()) -> u32 {
        self.calls.set(self.calls.get() + 1);
        0xffff
    }
}

type GetInc<'a> = (
    MessageHandler<Get, Counter, GetFn<'a>>,
    (MessageHandlerMut<Inc, Counter, IncFn<'a>>, UnreachableMessageHandler),
);

fn get_inc<'a>(gets: &'a Cell<u32>, incs: &'a Cell<u32>) -> GetInc<'a> {
    (
        MessageHandler::from_raw(GetFn { calls: gets }),
        (MessageHandlerMut::from_raw(IncFn { calls: incs }), UnreachableMessageHandler),
    )
}

fn call(selector: u32, params: &[u8]) -> CallData {
    let mut wire = selector.encode();
    wire.extend_from_slice(params);
    CallData::decode(&wire).unwrap()
}

#[test]
fn scenario_get_terminates_with_encoded_value_and_no_flush() {
    let (gets, incs) = (Cell::new(0), Cell::new(0));
    let chain = get_inc(&gets, &incs);
    let mut env = env_with(41);
    let result = dispatch(&chain, &mut env, call(0x1, &[]));
    assert_eq!(result, Ok(Outcome::Terminated(vec![41, 0, 0, 0])));
    assert_eq!(env.state, Counter { value: 41, flushes: 0 });
    assert_eq!((gets.get(), incs.get()), (1, 0));
}

#[test]
fn scenario_inc_flushes_and_terminates_with_encoded_value() {
    let (gets, incs) = (Cell::new(0), Cell::new(0));
    let chain = get_inc(&gets, &incs);
    let mut env = env_with(41);
    let result = dispatch(&chain, &mut env, call(0x2, &[]));
    assert_eq!(result, Ok(Outcome::Terminated(vec![42, 0, 0, 0])));
    assert_eq!(env.state, Counter { value: 42, flushes: 1 });
    assert_eq!((gets.get(), incs.get()), (0, 1));
}

#[test]
fn scenario_unknown_selector_is_rejected() {
    let (gets, incs) = (Cell::new(0), Cell::new(0));
    let chain = get_inc(&gets, &incs);
    let mut env = env_with(41);
    let result = dispatch(&chain, &mut env, call(0x3, &[]));
    assert_eq!(result, Err(Error::InvalidFunctionSelector));
    assert_eq!(env.state, Counter { value: 41, flushes: 0 });
    assert_eq!((gets.get(), incs.get()), (0, 0));
}

#[test]
fn handle_call_is_what_dispatch_does() {
    let (gets, incs) = (Cell::new(0), Cell::new(0));
    let chain = get_inc(&gets, &incs);
    let mut env = env_with(7);
    assert_eq!(
        chain.handle_call(&mut env, call(0x2, &[])),
        Ok(Outcome::Terminated(vec![8, 0, 0, 0]))
    );
    assert_eq!(
        chain.handle_call(&mut env, call(0x1, &[])),
        Ok(Outcome::Terminated(vec![8, 0, 0, 0]))
    );
    assert_eq!(chain.handle_call(&mut env, call(0x9, &[])), Err(Error::InvalidFunctionSelector));
    assert_eq!(env.state, Counter { value: 8, flushes: 1 });
}

#[test]
fn unreachable_handler_rejects_every_call() {
    let mut env = env_with(3);
    for selector in [0u32, 1, 2, 0xdead_beef, u32::MAX] {
        let result = UnreachableMessageHandler.handle_call(&mut env, call(selector, &[1, 2, 3]));
        assert_eq!(result, Err(Error::InvalidFunctionSelector));
    }
    assert_eq!(env.state, Counter { value: 3, flushes: 0 });
}

#[test]
fn every_selector_outside_the_chain_is_rejected() {
    let (gets, incs) = (Cell::new(0), Cell::new(0));
    let chain = get_inc(&gets, &incs);
    let mut env = env_with(0);
    for selector in [0u32, 3, 4, 0x100, 0x0100_0000, 0x0200_0000, u32::MAX] {
        let result = dispatch(&chain, &mut env, call(selector, &[0, 0, 0, 0]));
        assert_eq!(result, Err(Error::InvalidFunctionSelector));
    }
    assert_eq!(env.state, Counter { value: 0, flushes: 0 });
    assert_eq!((gets.get(), incs.get()), (0, 0));
}

#[test]
fn undecodable_arguments_are_rejected_before_anything_runs() {
    let (gets, sets) = (Cell::new(0), Cell::new(0));
    let chain = (
        MessageHandler::from_raw(GetFn { calls: &gets }),
        (MessageHandlerMut::from_raw(StoreFn { calls: &sets }), UnreachableMessageHandler),
    );
    let mut env = env_with(5);
    for params in [&[][..], &[1][..], &[1, 2][..], &[1, 2, 3][..]] {
        let result = dispatch(&chain, &mut env, call(0x3, params));
        assert_eq!(result, Err(Error::InvalidArguments));
    }
    assert_eq!(env.state, Counter { value: 5, flushes: 0 });
    assert_eq!((gets.get(), sets.get()), (0, 0));
}

#[test]
fn undecodable_arguments_are_rejected_by_read_only_handler() {
    let (calls, seen) = (Cell::new(0), Cell::new(0));
    let chain =
        (MessageHandler::from_raw(CheckFn { calls: &calls, seen: &seen }), UnreachableMessageHandler);
    let mut env = env_with(5);
    let result = dispatch(&chain, &mut env, call(0x4, &[1, 2, 3]));
    assert_eq!(result, Err(Error::InvalidArguments));
    assert_eq!(env.state, Counter { value: 5, flushes: 0 });
    assert_eq!(calls.get(), 0);
}

#[test]
fn well_formed_call_invokes_exactly_its_handler() {
    let (gets, sets, checks, seen) = (Cell::new(0), Cell::new(0), Cell::new(0), Cell::new(0));
    let chain = (
        MessageHandler::from_raw(GetFn { calls: &gets }),
        (
            MessageHandlerMut::from_raw(StoreFn { calls: &sets }),
            (
                MessageHandler::from_raw(CheckFn { calls: &checks, seen: &seen }),
                UnreachableMessageHandler,
            ),
        ),
    );
    let mut env = env_with(1);

    let result = dispatch(&chain, &mut env, CallData::from_msg::<Store>(0x0102_0304));
    assert_eq!(result, Ok(Outcome::Returned(Either::Right(Either::Left(())))));
    assert_eq!((gets.get(), sets.get(), checks.get()), (0, 1, 0));
    assert_eq!(env.state, Counter { value: 0x0102_0304, flushes: 1 });

    let result = dispatch(&chain, &mut env, CallData::from_msg::<Check>(77));
    assert_eq!(result, Ok(Outcome::Returned(Either::Right(Either::Right(Either::Left(()))))));
    assert_eq!((gets.get(), sets.get(), checks.get()), (0, 1, 1));
    assert_eq!(seen.get(), 77);
    assert_eq!(env.state, Counter { value: 0x0102_0304, flushes: 1 });

    let result = dispatch(&chain, &mut env, CallData::from_msg::<Get>(()));
    assert_eq!(result, Ok(Outcome::Terminated(vec![4, 3, 2, 1])));
    assert_eq!((gets.get(), sets.get(), checks.get()), (1, 1, 1));
    assert_eq!(env.state, Counter { value: 0x0102_0304, flushes: 1 });
}

#[test]
fn handler_decodes_from_front_of_params() {
    let sets = Cell::new(0);
    let chain = (MessageHandlerMut::from_raw(StoreFn { calls: &sets }), UnreachableMessageHandler);
    let mut env = env_with(0);
    let result = dispatch(&chain, &mut env, call(0x3, &[9, 0, 0, 0, 0xaa, 0xbb]));
    assert_eq!(result, Ok(Outcome::Returned(Either::Left(()))));
    assert_eq!(env.state, Counter { value: 9, flushes: 1 });
}

#[test]
fn distinct_selectors_do_not_interfere_in_either_order() {
    let (gets, incs) = (Cell::new(0), Cell::new(0));
    let get_first = get_inc(&gets, &incs);
    let inc_first = (
        MessageHandlerMut::from_raw(IncFn { calls: &incs }),
        (MessageHandler::from_raw(GetFn { calls: &gets }), UnreachableMessageHandler),
    );

    let mut env = env_with(10);
    assert_eq!(
        dispatch(&get_first, &mut env, call(0x2, &[])),
        Ok(Outcome::Terminated(vec![11, 0, 0, 0]))
    );
    assert_eq!((gets.get(), incs.get()), (0, 1));
    assert_eq!(
        dispatch(&get_first, &mut env, call(0x1, &[])),
        Ok(Outcome::Terminated(vec![11, 0, 0, 0]))
    );
    assert_eq!((gets.get(), incs.get()), (1, 1));

    assert_eq!(
        dispatch(&inc_first, &mut env, call(0x2, &[])),
        Ok(Outcome::Terminated(vec![12, 0, 0, 0]))
    );
    assert_eq!((gets.get(), incs.get()), (1, 2));
    assert_eq!(
        dispatch(&inc_first, &mut env, call(0x1, &[])),
        Ok(Outcome::Terminated(vec![12, 0, 0, 0]))
    );
    assert_eq!((gets.get(), incs.get()), (2, 2));
    assert_eq!(env.state, Counter { value: 12, flushes: 2 });
}

#[test]
fn position_of_the_answering_handler_is_reported() {
    let (sets, checks, seen) = (Cell::new(0), Cell::new(0), Cell::new(0));
    let set_first = (
        MessageHandlerMut::from_raw(StoreFn { calls: &sets }),
        (
            MessageHandler::from_raw(CheckFn { calls: &checks, seen: &seen }),
            UnreachableMessageHandler,
        ),
    );
    let mut env = env_with(0);
    assert_eq!(
        dispatch(&set_first, &mut env, CallData::from_msg::<Store>(1)),
        Ok(Outcome::Returned(Either::Left(())))
    );
    assert_eq!(
        dispatch(&set_first, &mut env, CallData::from_msg::<Check>(1)),
        Ok(Outcome::Returned(Either::Right(Either::Left(()))))
    );
}

#[test]
fn colliding_selectors_first_declared_wins() {
    let (gets, shadows) = (Cell::new(0), Cell::new(0));
    let chain = (
        MessageHandler::from_raw(GetFn { calls: &gets }),
        (MessageHandler::from_raw(ShadowFn { calls: &shadows }), UnreachableMessageHandler),
    );
    let mut env = env_with(3);
    assert_eq!(
        dispatch(&chain, &mut env, call(0x1, &[])),
        Ok(Outcome::Terminated(vec![3, 0, 0, 0]))
    );
    assert_eq!((gets.get(), shadows.get()), (1, 0));

    let chain = (
        MessageHandler::from_raw(ShadowFn { calls: &shadows }),
        (MessageHandler::from_raw(GetFn { calls: &gets }), UnreachableMessageHandler),
    );
    assert_eq!(
        dispatch(&chain, &mut env, call(0x1, &[])),
        Ok(Outcome::Terminated(vec![0xff, 0xff, 0, 0]))
    );
    assert_eq!((gets.get(), shadows.get()), (1, 1));
}

#[test]
fn mutable_handler_flushes_once_whatever_its_output() {
    let (incs, sets) = (Cell::new(0), Cell::new(0));
    let chain = (
        MessageHandlerMut::from_raw(IncFn { calls: &incs }),
        (MessageHandlerMut::from_raw(StoreFn { calls: &sets }), UnreachableMessageHandler),
    );
    let mut env = env_with(0);
    assert_eq!(
        dispatch(&chain, &mut env, call(0x2, &[])),
        Ok(Outcome::Terminated(vec![1, 0, 0, 0]))
    );
    assert_eq!(env.state.flushes, 1);
    assert_eq!(
        dispatch(&chain, &mut env, call(0x3, &[5, 0, 0, 0])),
        Ok(Outcome::Returned(Either::Right(Either::Left(()))))
    );
    assert_eq!(env.state, Counter { value: 5, flushes: 2 });
}

#[test]
fn read_only_handler_never_flushes() {
    let (gets, checks, seen) = (Cell::new(0), Cell::new(0), Cell::new(0));
    let chain = (
        MessageHandler::from_raw(GetFn { calls: &gets }),
        (
            MessageHandler::from_raw(CheckFn { calls: &checks, seen: &seen }),
            UnreachableMessageHandler,
        ),
    );
    let mut env = env_with(9);
    assert_eq!(
        dispatch(&chain, &mut env, call(0x1, &[])),
        Ok(Outcome::Terminated(vec![9, 0, 0, 0]))
    );
    assert_eq!(
        dispatch(&chain, &mut env, call(0x4, &[1, 0, 0, 0])),
        Ok(Outcome::Returned(Either::Right(Either::Left(()))))
    );
    assert_eq!(env.state, Counter { value: 9, flushes: 0 });
}

#[test]
fn message_without_output_falls_through() {
    let sets = Cell::new(0);
    let handler = MessageHandlerMut::from_raw(StoreFn { calls: &sets });
    let mut env = env_with(0);
    assert_eq!(handler.invoke(&mut env, 4), Outcome::Returned(()));
    assert_eq!(env.state, Counter { value: 4, flushes: 1 });
}

#[test]
fn message_with_output_terminates_with_encoded_output() {
    let gets = Cell::new(0);
    let handler = MessageHandler::from_raw(GetFn { calls: &gets });
    let env = env_with(0x0a0b_0c0d);
    assert_eq!(handler.invoke(&env, ()), Outcome::Terminated(0x0a0b_0c0du32.encode()));
    assert_eq!(handler.invoke(&env, ()), Outcome::Terminated(vec![0x0d, 0x0c, 0x0b, 0x0a]));
    assert_eq!(gets.get(), 2);
}

#[test]
fn conclude_goes_by_the_message() {
    assert_eq!(pdsl_model::handler::conclude::<Get>(5), Outcome::Terminated(vec![5, 0, 0, 0]));
    assert_eq!(pdsl_model::handler::conclude::<Inc>(0), Outcome::Terminated(vec![0, 0, 0, 0]));
    assert_eq!(pdsl_model::handler::conclude::<Store>(()), Outcome::Returned(()));
}

#[test]
fn handler_alone_serves_whatever_call_it_is_handed() {
    let gets = Cell::new(0);
    let handler = MessageHandler::from_raw(GetFn { calls: &gets });
    let mut env = env_with(2);
    assert_eq!(
        handler.handle_call(&mut env, call(0x77, &[])),
        Ok(Outcome::Terminated(vec![2, 0, 0, 0]))
    );
    let incs = Cell::new(0);
    let handler = MessageHandlerMut::from_raw(IncFn { calls: &incs });
    assert_eq!(
        handler.handle_call(&mut env, call(0x77, &[])),
        Ok(Outcome::Terminated(vec![3, 0, 0, 0]))
    );
    assert_eq!(env.state, Counter { value: 3, flushes: 1 });
}

#[test]
fn handler_selector_is_that_of_its_message() {
    assert_eq!(MessageHandler::<Get, Counter, GetFn>::selector(), MessageHandlerSelector(0x1));
    assert_eq!(MessageHandler::<Shadow, Counter, ShadowFn>::selector(), Get::ID);
    assert_eq!(MessageHandlerMut::<Inc, Counter, IncFn>::selector(), MessageHandlerSelector(0x2));
    assert_eq!(MessageHandlerMut::<Store, Counter, StoreFn>::selector(), Store::ID);
}

#[test]
fn handlers_are_copied_with_their_raw_handler() {
    let (gets, incs) = (Cell::new(0), Cell::new(0));
    let get = MessageHandler::from_raw(GetFn { calls: &gets });
    let inc = MessageHandlerMut::from_raw(IncFn { calls: &incs });
    let (get_copy, inc_clone) = (get, inc.clone());
    let mut env = env_with(1);
    assert_eq!(get_copy.clone().invoke(&env, ()), Outcome::Terminated(vec![1, 0, 0, 0]));
    assert_eq!(get.invoke(&env, ()), Outcome::Terminated(vec![1, 0, 0, 0]));
    assert_eq!(inc_clone.invoke(&mut env, ()), Outcome::Terminated(vec![2, 0, 0, 0]));
    assert_eq!(inc.invoke(&mut env, ()), Outcome::Terminated(vec![3, 0, 0, 0]));
    assert_eq!((gets.get(), incs.get()), (2, 2));
}

#[test]
fn chain_declares_the_selectors_of_its_handlers() {
    let (gets, incs) = (Cell::new(0), Cell::new(0));
    let chain = get_inc(&gets, &incs);
    assert!(HandleCall::<Counter>::declares(&chain, MessageHandlerSelector(0x1)));
    assert!(HandleCall::<Counter>::declares(&chain, MessageHandlerSelector(0x2)));
    assert!(!HandleCall::<Counter>::declares(&chain, MessageHandlerSelector(0x3)));
    assert!(!HandleCall::<Counter>::declares(&chain, MessageHandlerSelector(0)));
    assert!(!HandleCall::<Counter>::declares(
        &UnreachableMessageHandler,
        MessageHandlerSelector(0x1)
    ));
    assert!(chain.0.declares(MessageHandlerSelector(0x1)));
    assert!(!chain.0.declares(MessageHandlerSelector(0x2)));
    assert_eq!((gets.get(), incs.get()), (0, 0));
}

#[test]
fn chain_with_distinct_selectors_has_no_collision() {
    let (gets, incs, sets) = (Cell::new(0), Cell::new(0), Cell::new(0));
    assert!(!HandleCall::<Counter>::has_colliding_selectors(&UnreachableMessageHandler));
    assert!(!get_inc(&gets, &incs).has_colliding_selectors());
    let chain = (
        MessageHandlerMut::from_raw(StoreFn { calls: &sets }),
        (
            MessageHandler::from_raw(GetFn { calls: &gets }),
            (MessageHandlerMut::from_raw(IncFn { calls: &incs }), UnreachableMessageHandler),
        ),
    );
    assert!(!chain.has_colliding_selectors());
    assert!(!chain.0.has_colliding_selectors());
}

#[test]
fn colliding_selectors_are_detected_wherever_they_stand() {
    let (gets, incs, shadows) = (Cell::new(0), Cell::new(0), Cell::new(0));
    let adjacent = (
        MessageHandler::from_raw(GetFn { calls: &gets }),
        (MessageHandler::from_raw(ShadowFn { calls: &shadows }), UnreachableMessageHandler),
    );
    assert!(adjacent.has_colliding_selectors());
    let apart = (
        MessageHandler::from_raw(ShadowFn { calls: &shadows }),
        (
            MessageHandlerMut::from_raw(IncFn { calls: &incs }),
            (MessageHandler::from_raw(GetFn { calls: &gets }), UnreachableMessageHandler),
        ),
    );
    assert!(apart.has_colliding_selectors());
    let at_the_end = (
        MessageHandlerMut::from_raw(IncFn { calls: &incs }),
        (
            MessageHandler::from_raw(GetFn { calls: &gets }),
            (MessageHandler::from_raw(ShadowFn { calls: &shadows }), UnreachableMessageHandler),
        ),
    );
    assert!(at_the_end.has_colliding_selectors());
}
