//! The query for a single workshop item.

use crate::callback_util::classify;
use crate::callback_util::classify_received;
use crate::callback_util::ResultReceiver;
use crate::double::double_bits_to_id;
use crate::double::spec_double_bits_to_id;
use crate::errors::BridgeError;
use crate::errors::Operation;
use crate::errors::SteamFailure;
use crate::ugc::query::decode;
use crate::ugc::query::details_payload;
use crate::ugc::query::lemma_positions_sound;
use crate::ugc::query::populated_positions;
use crate::ugc::query::QueryRecord;
use crate::ugc::types::WorkshopItemDetails;
use vstd::prelude::*;

verus! {

/// A request for the details of one workshop item.
#[derive(Clone, Copy, Debug, PartialEq, Eq, Structural)]
pub struct WorkshopQueryItemTask {
    pub item_id: u64,
}

/// The first record of a result set, or nothing where the set is empty.
pub open spec fn first_record(details: Seq<WorkshopItemDetails>) -> Option<WorkshopItemDetails> {
    if details.len() == 0 {
        None
    } else {
        Some(details[0])
    }
}

/// The result of an item query, given what the worker read from its channel:
/// the first record of the delivered result set, "no result" where that set
/// is empty, or the classified failure.
pub open spec fn item_query_result(
    received: Result<Vec<WorkshopItemDetails>, SteamFailure>,
) -> Result<Option<WorkshopItemDetails>, BridgeError> {
    match classify(received, Operation::Query) {
        Ok(details) => Ok(first_record(details@)),
        Err(failure) => Err(failure),
    }
}

/// Takes the first record out of a result set.
pub fn first_details(details: Vec<WorkshopItemDetails>) -> (first: Option<WorkshopItemDetails>)
    ensures
        first == first_record(details@),
{
    let mut details = details;
    if details.len() == 0 {
        None
    } else {
        Some(details.swap_remove(0))
    }
}

impl WorkshopQueryItemTask {
    /// The request for the item that a caller named by a double, given as its
    /// bit pattern.
    pub fn from_double_bits(bits: u64) -> (task: WorkshopQueryItemTask)
        ensures
            task.item_id == spec_double_bits_to_id(bits),
    {
        WorkshopQueryItemTask { item_id: double_bits_to_id(bits) }
    }

    /// The result of the query, given what the worker read from its channel.
    pub fn outcome(
        &self,
        received: Result<Vec<WorkshopItemDetails>, SteamFailure>,
    ) -> (result: Result<Option<WorkshopItemDetails>, BridgeError>)
        ensures
            result == item_query_result(received),
    {
        match classify_received(received, Operation::Query) {
            Ok(details) => Ok(first_details(details)),
            Err(failure) => Err(failure),
        }
    }

    /// Waits for the issued query and gives its result. The worker blocks
    /// until the query's callback has delivered.
    pub fn compute(
        &self,
        rx: ResultReceiver<Result<Vec<WorkshopItemDetails>, SteamFailure>>,
    ) -> (result: Result<Option<WorkshopItemDetails>, BridgeError>)
        ensures
            exists|received: Result<Vec<WorkshopItemDetails>, SteamFailure>|
                result == item_query_result(received),
    {
        let received = rx.receive();
        let result = self.outcome(received);
        assert(result == item_query_result(received));
        result
    }
}

/// An item query whose cursor holds no record gives "no result", and never a
/// failure: that is what the waiting worker makes of what the callback hands
/// over for such a cursor.
pub proof fn lemma_empty_cursor_no_result(
    slots: Vec<Option<QueryRecord>>,
    payload: Result<Vec<WorkshopItemDetails>, SteamFailure>,
)
    requires
        forall|position: int| 0 <= position < slots@.len() ==> slots@[position] is None,
        details_payload(Ok(slots), payload),
    ensures
        item_query_result(payload) == Ok::<Option<WorkshopItemDetails>, BridgeError>(None),
{
    lemma_positions_sound(slots@);
    if decode(slots@).len() > 0 {
        let position = populated_positions(slots@)[0];
        assert(slots@[position] is Some);
    }
}

} // verus!
