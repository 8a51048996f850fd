//! Ending the subscription to a workshop item.

use crate::callback_util::classify;
use crate::callback_util::classify_received;
use crate::callback_util::ResultReceiver;
use crate::double::double_bits_to_id;
use crate::double::spec_double_bits_to_id;
use crate::errors::BridgeError;
use crate::errors::Operation;
use crate::errors::SteamFailure;
use vstd::prelude::*;

verus! {

/// A request to end the subscription to one workshop item.
#[derive(Clone, Copy, Debug, PartialEq, Eq, Structural)]
pub struct UnsubscribeToItemTask {
    pub item_id: u64,
}

/// The result of ending a subscription, given what the worker read from its channel:
/// an acknowledgement without payload, or the classified failure.
pub open spec fn unsubscribe_result(received: Result<(), SteamFailure>) -> Result<
    Option<()>,
    BridgeError,
> {
    match classify(received, Operation::Unsubscribe) {
        Ok(_) => Ok(Some(())),
        Err(failure) => Err(failure),
    }
}

impl UnsubscribeToItemTask {
    /// The request for the item that a caller named by a double, given as its
    /// bit pattern.
    pub fn from_double_bits(bits: u64) -> (task: UnsubscribeToItemTask)
        ensures
            task.item_id == spec_double_bits_to_id(bits),
    {
        UnsubscribeToItemTask { item_id: double_bits_to_id(bits) }
    }

    /// The result of the request, given what the worker read from its
    /// channel.
    pub fn outcome(&self, received: Result<(), SteamFailure>) -> (result: Result<
        Option<()>,
        BridgeError,
    >)
        ensures
            result == unsubscribe_result(received),
    {
        match classify_received(received, Operation::Unsubscribe) {
            Ok(_) => Ok(Some(())),
            Err(failure) => Err(failure),
        }
    }

    /// Waits for the issued request and gives its result. The worker
    /// blocks until the callback has delivered.
    pub fn unsubscribe_item(&self, rx: ResultReceiver<Result<(), SteamFailure>>) -> (result: Result<
        Option<()>,
        BridgeError,
    >)
        ensures
            exists|received: Result<(), SteamFailure>|
                result == unsubscribe_result(received),
    {
        let received = rx.receive();
        let result = self.outcome(received);
        assert(result == unsubscribe_result(received));
        result
    }
}

} // verus!
