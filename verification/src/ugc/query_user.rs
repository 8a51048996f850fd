//! The query for one page of a user's list of workshop items.

use crate::callback_util::classify;
use crate::callback_util::classify_received;
use crate::callback_util::ResultReceiver;
use crate::errors::BridgeError;
use crate::errors::Operation;
use crate::errors::SteamFailure;
use crate::ugc::query::decode;
use crate::ugc::query::details_payload;
use crate::ugc::query::lemma_positions_sound;
use crate::ugc::query::populated_count;
use crate::ugc::query::QueryRecord;
use crate::ugc::types::WorkshopItemDetails;
use crate::ugc::types::WorkshopUGCType;
use crate::ugc::types::WorkshopUserListOrder;
use crate::ugc::types::WorkshopUserListType;
use vstd::prelude::*;

verus! {

/// A request for one page of a list that an account keeps, within one
/// application, which is both the creator and the consumer of the items.
#[derive(Clone, Copy, Debug, PartialEq, Eq, Structural)]
pub struct QueryUserTask {
    pub app_id: u32,
    pub account: u32,
    pub list_type: WorkshopUserListType,
    pub item_type: WorkshopUGCType,
    pub sort_order: WorkshopUserListOrder,
    pub page: u32,
}

/// The result of a user-list query, given what the worker read from its
/// channel: the whole delivered result set, be it empty, or the classified
/// failure.
pub open spec fn user_query_result(
    received: Result<Vec<WorkshopItemDetails>, SteamFailure>,
) -> Result<Option<Vec<WorkshopItemDetails>>, BridgeError> {
    match classify(received, Operation::Query) {
        Ok(details) => Ok(Some(details)),
        Err(failure) => Err(failure),
    }
}

impl QueryUserTask {
    /// The applications that the query is asked within, creator first and
    /// consumer second: the request's one application is both.
    pub fn app_ids(&self) -> (ids: (u32, u32))
        ensures
            ids.0 == self.app_id,
            ids.1 == self.app_id,
    {
        (self.app_id, self.app_id)
    }

    /// The result of the query, given what the worker read from its channel.
    pub fn outcome(
        &self,
        received: Result<Vec<WorkshopItemDetails>, SteamFailure>,
    ) -> (result: Result<Option<Vec<WorkshopItemDetails>>, BridgeError>)
        ensures
            result == user_query_result(received),
    {
        match classify_received(received, Operation::Query) {
            Ok(details) => Ok(Some(details)),
            Err(failure) => Err(failure),
        }
    }

    /// Waits for the issued query and gives its result. The worker blocks
    /// until the query's callback has delivered.
    pub fn compute(
        &self,
        rx: ResultReceiver<Result<Vec<WorkshopItemDetails>, SteamFailure>>,
    ) -> (result: Result<Option<Vec<WorkshopItemDetails>>, BridgeError>)
        ensures
            exists|received: Result<Vec<WorkshopItemDetails>, SteamFailure>|
                result == user_query_result(received),
    {
        let received = rx.receive();
        let result = self.outcome(received);
        assert(result == user_query_result(received));
        result
    }
}

/// A user-list query that succeeds gives a result set with as many records as
/// the cursor has populated positions, and so with no more records than the
/// cursor has positions: that is what the waiting worker makes of what the
/// callback hands over for a fetched cursor.
pub proof fn lemma_user_list_length(
    slots: Vec<Option<QueryRecord>>,
    payload: Result<Vec<WorkshopItemDetails>, SteamFailure>,
)
    requires
        details_payload(Ok(slots), payload),
    ensures
        user_query_result(payload) matches Ok(Some(set)) && set@ == decode(slots@)
            && set@.len() == populated_count(slots@) && set@.len() <= slots@.len(),
{
    lemma_positions_sound(slots@);
}

} // verus!
