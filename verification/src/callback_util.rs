//! One-shot hand-off of a callback's outcome to the worker that waits for it.
//!
//! Each pending operation owns one channel. The callback is the only producer
//! and delivers at most one value; the worker is the only consumer and reads
//! at most once. A worker whose callback never runs waits on: nothing stands
//! in for the missing value.

use crate::errors::BridgeError;
use crate::errors::Operation;
use crate::errors::SteamFailure;
use std::sync::mpsc::Receiver;
use std::sync::mpsc::Sender;
use vstd::prelude::*;

verus! {

/// The pause, in milliseconds, between two drains of the platform's queue of
/// pending callbacks. Callbacks run only inside a drain.
pub const PUMP_INTERVAL_MS: u64 = 20;

/// `std::sync::mpsc::Receiver`, the consuming end of a channel. It is carried
/// through and never looked into.
#[verifier::external_type_specification]
#[verifier::external_body]
#[verifier::reject_recursive_types(T)]
pub struct ExReceiver<T>(Receiver<T>);

/// `std::sync::mpsc::Sender`, the producing end of a channel. It is carried
/// through and never looked into.
#[verifier::external_type_specification]
#[verifier::external_body]
#[verifier::reject_recursive_types(T)]
pub struct ExSender<T>(Sender<T>);

/// `std::sync::mpsc::channel`: a fresh pair of connected endpoints. Nothing is
/// claimed of them.
#[verifier::external_body]
fn open_channel<T>() -> (endpoints: (Sender<T>, Receiver<T>)) {
    std::sync::mpsc::channel()
}

/// `Sender::send`, which hands `value` to the channel and never blocks. It
/// fails only when the receiver is gone; that failure is dropped here, so the
/// caller never sees one.
#[verifier::external_body]
fn send_quietly<T>(tx: &Sender<T>, value: T) {
    let _ = tx.send(value);
}

/// `Sender::clone`: one more producing end of the same channel.
#[verifier::external_body]
fn second_sender<T>(tx: &Sender<T>) -> (keep: Sender<T>) {
    tx.clone()
}

/// What a channel has been given after one more `send`: the first value stays,
/// a later one is ignored.
pub open spec fn after_send<R>(delivered: Option<R>, value: R) -> Option<R> {
    match delivered {
        Some(first) => Some(first),
        None => Some(value),
    }
}

/// The producing end of a one-shot channel.
#[verifier::reject_recursive_types(R)]
pub struct ResultSender<R> {
    tx: Sender<R>,
    fulfilled: bool,
    first: Ghost<R>,
}

impl<R> ResultSender<R> {
    /// The value that this end has handed over, if it has handed one over.
    pub closed spec fn delivered(&self) -> Option<R> {
        if self.fulfilled {
            Some(self.first@)
        } else {
            None
        }
    }

    /// Whether a value has been handed over.
    pub fn is_fulfilled(&self) -> (fulfilled: bool)
        ensures
            fulfilled == self.delivered().is_some(),
    {
        self.fulfilled
    }

    /// Hands `value` over, unless a value was handed over before: then the
    /// call does nothing. It never fails, also when nobody listens any more.
    pub fn send(&mut self, value: R)
        ensures
            final(self).delivered() == after_send(old(self).delivered(), value),
    {
        if !self.fulfilled {
            self.first = Ghost(value);
            send_quietly(&self.tx, value);
            self.fulfilled = true;
        }
    }
}

/// The consuming end of a one-shot channel. Beside the receiver it holds a
/// sender of the same channel, which never sends: so the channel outlives a
/// producer that goes away, and the wait for such a producer does not end.
/// Only `result_channel` makes a value of this type.
#[verifier::reject_recursive_types(R)]
pub struct ResultReceiver<R> {
    rx: Receiver<R>,
    keep: Sender<R>,
}

/// `Receiver::recv`, which blocks for as long as nothing has arrived and a
/// sender of the channel still lives, and fails only once every sender is
/// gone. The sender that `receiver` holds is one of its own channel and lives
/// until the call returns, so the call returns only with a value that
/// arrived.
#[verifier::external_body]
fn blocking_receive<T>(receiver: ResultReceiver<T>) -> (received: Option<T>)
    ensures
        received is Some,
{
    receiver.rx.recv().ok()
}

impl<R> ResultReceiver<R> {
    /// Blocks until a value has arrived, and gives it. There is no timeout,
    /// and a producer that goes away without sending leaves the call blocked.
    /// The call uses the channel up: a channel is read once.
    pub fn receive(self) -> (value: R) {
        match blocking_receive(self) {
            Some(value) => value,
            None => unreached(),
        }
    }
}

/// Opens a one-shot channel, with nothing handed over yet.
pub fn result_channel<R>() -> (endpoints: (ResultSender<R>, ResultReceiver<R>))
    ensures
        endpoints.0.delivered() is None,
{
    let (tx, rx) = open_channel::<R>();
    let keep = second_sender(&tx);
    (ResultSender { tx, fulfilled: false, first: Ghost(arbitrary()) }, ResultReceiver { rx, keep })
}

/// A second `send` on a fulfilled channel does not alter what was delivered,
/// whatever it is given.
pub proof fn lemma_second_send_ignored<R>(delivered: Option<R>, first: R, second: R)
    ensures
        after_send(after_send(delivered, first), second) == after_send(delivered, first),
        after_send(delivered, first) is Some,
{
}

/// What a fresh channel has been given after a run of `send`s, one for each
/// value of `values` in turn.
pub open spec fn after_sends<R>(values: Seq<R>) -> Option<R>
    decreases values.len(),
{
    if values.len() == 0 {
        None
    } else {
        after_send(after_sends(values.drop_last()), values.last())
    }
}

/// However often a producer sends, exactly one value is delivered: the first.
/// None is delivered twice, and the first is not lost.
pub proof fn lemma_first_send_wins<R>(values: Seq<R>)
    requires
        values.len() > 0,
    ensures
        after_sends(values) == Some(values[0]),
    decreases values.len(),
{
    if values.len() > 1 {
        lemma_first_send_wins(values.drop_last());
    } else {
        assert(after_sends(values.drop_last()) == None::<R>);
    }
}

/// The payload that a callback hands over for an outcome: the outcome itself,
/// a failure as much as a success.
pub fn outcome_payload<T, E>(result: Result<T, E>) -> (payload: Result<T, E>)
    ensures
        payload == result,
{
    result
}

/// The payload that a converting callback hands over for an outcome: what
/// `convert` makes of a success, which may be nothing, and a failure as it
/// came.
pub fn converted_payload<T, Q, E, F>(result: Result<Q, E>, convert: F) -> (payload: Result<
    Option<T>,
    E,
>)
    where F: FnOnce(Q) -> Option<T>
    requires
        forall|value: Q| call_requires(convert, (value,)),
    ensures
        (match result {
            Ok(value) => payload matches Ok(converted) && call_ensures(
                convert,
                (value,),
                converted,
            ),
            Err(failure) => payload == Err::<Option<T>, E>(failure),
        }),
{
    match result {
        Ok(value) => Ok(convert(value)),
        Err(failure) => Err(failure),
    }
}

/// A fresh channel and the callback that feeds it. Given an outcome, the
/// callback hands over what `convert` makes of a success, and a failure as it
/// came, so that the reader can tell one failure from another and from a
/// success without a record. It accepts every outcome, and gives back the
/// producing end, which then holds that payload as delivered.
pub fn make_swrs_callback<T, Q, E, F>(convert: F) -> (r: (
    ResultReceiver<Result<Option<T>, E>>,
    impl FnOnce(Result<Q, E>) -> ResultSender<Result<Option<T>, E>>,
))
    where F: FnOnce(Q) -> Option<T> + Send + 'static, T: Send + 'static
    requires
        forall|value: Q| call_requires(convert, (value,)),
    ensures
        forall|result: Result<Q, E>| call_requires(r.1, (result,)),
        forall|result: Result<Q, E>, after: ResultSender<Result<Option<T>, E>>|
            call_ensures(r.1, (result,), after) ==> (after.delivered() matches Some(payload) && (
            match result {
                Ok(value) => payload matches Ok(converted) && call_ensures(
                    convert,
                    (value,),
                    converted,
                ),
                Err(failure) => payload == Err::<Option<T>, E>(failure),
            })),
{
    let (sender, rx) = result_channel::<Result<Option<T>, E>>();
    let callback = move |result: Result<Q, E>| -> (after: ResultSender<Result<Option<T>, E>>)
        ensures
            after.delivered() matches Some(payload) && (match result {
                Ok(value) => payload matches Ok(converted) && call_ensures(
                    convert,
                    (value,),
                    converted,
                ),
                Err(failure) => payload == Err::<Option<T>, E>(failure),
            }),
        {
            let mut sender = sender;
            sender.send(converted_payload(result, convert));
            sender
        };
    (rx, callback)
}

/// A fresh channel and the callback that feeds it. The callback hands over
/// the outcome that it is given, a failure as much as a success. It accepts
/// every outcome, and gives back the producing end, which then holds that
/// outcome as delivered.
pub fn make_swrs_callback2<T, E>() -> (r: (
    ResultReceiver<Result<T, E>>,
    impl FnOnce(Result<T, E>) -> ResultSender<Result<T, E>>,
))
    where T: Send + 'static, E: Send + Copy + 'static
    ensures
        forall|result: Result<T, E>| call_requires(r.1, (result,)),
        forall|result: Result<T, E>, after: ResultSender<Result<T, E>>|
            call_ensures(r.1, (result,), after) ==> (after.delivered() == Some(result)),
{
    let (sender, rx) = result_channel::<Result<T, E>>();
    let callback = move |result: Result<T, E>| -> (after: ResultSender<Result<T, E>>)
        ensures
            after.delivered() == Some(result),
        {
            let mut sender = sender;
            sender.send(outcome_payload(result));
            sender
        };
    (rx, callback)
}

/// A fresh channel and the callback that feeds it with the outcome of an
/// operation as it is, failure included. The callback accepts every outcome,
/// and gives back the producing end, which then holds that outcome as
/// delivered.
pub fn make_result_callback<Q>() -> (r: (
    ResultReceiver<Result<Q, SteamFailure>>,
    impl FnOnce(Result<Q, SteamFailure>) -> ResultSender<Result<Q, SteamFailure>>,
))
    where Q: Send + 'static
    ensures
        forall|result: Result<Q, SteamFailure>| call_requires(r.1, (result,)),
        forall|result: Result<Q, SteamFailure>, after: ResultSender<Result<Q, SteamFailure>>|
            call_ensures(r.1, (result,), after) ==> (after.delivered() == Some(result)),
{
    let (sender, rx) = result_channel::<Result<Q, SteamFailure>>();
    let callback = move |result: Result<Q, SteamFailure>| -> (after: ResultSender<
        Result<Q, SteamFailure>,
    >)
        ensures
            after.delivered() == Some(result),
        {
            let mut sender = sender;
            sender.send(outcome_payload(result));
            sender
        };
    (rx, callback)
}

/// What a worker makes of the outcome that it read from its channel: the
/// value of a success, or a classified failure that holds the failure as it
/// came.
pub open spec fn classify<T>(delivered: Result<T, SteamFailure>, operation: Operation) -> Result<
    T,
    BridgeError,
> {
    match delivered {
        Ok(value) => Ok(value),
        Err(failure) => Err(BridgeError::Sdk { operation, failure }),
    }
}

/// One delivered outcome gives one result, fixed by that outcome alone: the
/// callback, called once, hands over exactly its outcome, and a worker that
/// reads what was handed over returns the value of a success, or a classified
/// failure that holds the failure as it came.
pub proof fn lemma_single_delivery<T>(outcome: Result<T, SteamFailure>, operation: Operation)
    ensures
        after_sends(seq![outcome]) == Some(outcome),
        classify(after_sends(seq![outcome])->0, operation) == (match outcome {
            Ok(value) => Ok::<T, BridgeError>(value),
            Err(failure) => Err(BridgeError::Sdk { operation, failure }),
        }),
{
    lemma_first_send_wins(seq![outcome]);
}

/// Classifies the outcome that a worker read from its channel.
pub fn classify_received<T>(delivered: Result<T, SteamFailure>, operation: Operation) -> (outcome:
    Result<T, BridgeError>)
    ensures
        outcome == classify(delivered, operation),
{
    match delivered {
        Ok(value) => Ok(value),
        Err(failure) => Err(BridgeError::Sdk { operation, failure }),
    }
}

/// Blocks until the callback of `operation` has delivered, then classifies
/// what it delivered. There is no timeout, and no result is made up: where
/// the callback never delivers, the call does not return.
pub fn await_outcome<T>(rx: ResultReceiver<Result<T, SteamFailure>>, operation: Operation) -> (outcome:
    Result<T, BridgeError>)
    ensures
        exists|delivered: Result<T, SteamFailure>| outcome == classify(delivered, operation),
{
    let delivered = rx.receive();
    let outcome = classify_received(delivered, operation);
    assert(outcome == classify(delivered, operation));
    outcome
}

} // verus!
