//! Decoding of a query's cursor into item records.

use crate::callback_util::after_sends;
use crate::callback_util::await_outcome;
use crate::callback_util::classify;
use crate::callback_util::lemma_first_send_wins;
use crate::callback_util::result_channel;
use crate::callback_util::ResultReceiver;
use crate::callback_util::ResultSender;
use crate::errors::BridgeError;
use crate::errors::Operation;
use crate::errors::SteamFailure;
use crate::ugc::types::WorkshopItemDetails;
use crate::ugc::types::WorkshopItemVisibility;
use vstd::prelude::*;

verus! {

/// What the platform reports at one populated position of a query cursor.
#[derive(Clone, Debug, PartialEq, Eq)]
pub struct QueryRecord {
    pub published_file_id: u64,
    pub title: String,
    pub description: String,
    pub owner: u64,
    pub time_created: u32,
    pub time_updated: u32,
    pub time_added_to_user_list: u32,
    pub visibility: WorkshopItemVisibility,
    pub banned: bool,
    pub accepted_for_use: bool,
    pub tags: Vec<String>,
    pub tags_truncated: bool,
    pub file_size: u32,
    pub url: String,
    pub num_upvotes: u32,
    pub num_downvotes: u32,
    pub score_bits: u32,
    pub num_children: u32,
}

/// The item record that stands for a cursor record: every field as it came,
/// the visibility as its integer code.
pub open spec fn details_of(record: QueryRecord) -> WorkshopItemDetails {
    WorkshopItemDetails {
        item_id: record.published_file_id,
        title: record.title,
        description: record.description,
        owner_id: record.owner,
        time_created: record.time_created,
        time_updated: record.time_updated,
        time_added_to_user_list: record.time_added_to_user_list,
        visibility: record.visibility.spec_code(),
        banned: record.banned,
        accepted_for_use: record.accepted_for_use,
        tags_truncated: record.tags_truncated,
        tags: record.tags,
        file_size: record.file_size,
        url: record.url,
        num_upvotes: record.num_upvotes,
        num_downvotes: record.num_downvotes,
        score_bits: record.score_bits,
        num_children: record.num_children,
    }
}

/// The positions of a cursor that hold a record, in rising order.
pub open spec fn populated_positions(slots: Seq<Option<QueryRecord>>) -> Seq<int>
    decreases slots.len(),
{
    if slots.len() == 0 {
        Seq::empty()
    } else if slots.last() is Some {
        populated_positions(slots.drop_last()).push(slots.len() - 1)
    } else {
        populated_positions(slots.drop_last())
    }
}

/// The decoded result set of a cursor: the record of each populated position,
/// in the cursor's order; empty positions leave no trace.
pub open spec fn decode(slots: Seq<Option<QueryRecord>>) -> Seq<WorkshopItemDetails> {
    populated_positions(slots).map_values(|position: int| details_of(slots[position]->0))
}

/// Copies one cursor record into an item record.
pub fn record_to_details(record: QueryRecord) -> (details: WorkshopItemDetails)
    ensures
        details == details_of(record),
{
    let visibility = record.visibility.code();
    WorkshopItemDetails {
        item_id: record.published_file_id,
        title: record.title,
        description: record.description,
        owner_id: record.owner,
        time_created: record.time_created,
        time_updated: record.time_updated,
        time_added_to_user_list: record.time_added_to_user_list,
        visibility,
        banned: record.banned,
        accepted_for_use: record.accepted_for_use,
        tags_truncated: record.tags_truncated,
        tags: record.tags,
        file_size: record.file_size,
        url: record.url,
        num_upvotes: record.num_upvotes,
        num_downvotes: record.num_downvotes,
        score_bits: record.score_bits,
        num_children: record.num_children,
    }
}

/// The number of positions of a cursor that hold a record.
pub open spec fn populated_count(slots: Seq<Option<QueryRecord>>) -> nat
    decreases slots.len(),
{
    if slots.len() == 0 {
        0
    } else if slots.last() is Some {
        populated_count(slots.drop_last()) + 1
    } else {
        populated_count(slots.drop_last())
    }
}

/// The listed positions lie in the cursor, hold a record and rise strictly.
pub proof fn lemma_positions_sound(slots: Seq<Option<QueryRecord>>)
    ensures
        populated_positions(slots).len() == populated_count(slots),
        populated_count(slots) <= slots.len(),
        forall|k: int|
            0 <= k < populated_positions(slots).len() ==> 0 <= #[trigger] populated_positions(
                slots,
            )[k] < slots.len() && slots[populated_positions(slots)[k]] is Some,
        forall|j: int, k: int|
            0 <= j < k < populated_positions(slots).len() ==> populated_positions(slots)[j]
                < populated_positions(slots)[k],
    decreases slots.len(),
{
    if slots.len() > 0 {
        let front = slots.drop_last();
        lemma_positions_sound(front);
        assert forall|k: int| 0 <= k < populated_positions(slots).len() implies 0
            <= #[trigger] populated_positions(slots)[k] < slots.len() && slots[populated_positions(
            slots,
        )[k]] is Some by {
            if k < populated_positions(front).len() {
                assert(populated_positions(slots)[k] == populated_positions(front)[k]);
                assert(front[populated_positions(front)[k]] == slots[populated_positions(front)[k]]);
            }
        }
        assert forall|j: int, k: int|
            0 <= j < k < populated_positions(slots).len() implies populated_positions(slots)[j]
            < populated_positions(slots)[k] by {
            assert(populated_positions(slots)[j] == populated_positions(front)[j]);
            if k < populated_positions(front).len() {
                assert(populated_positions(slots)[k] == populated_positions(front)[k]);
            }
        }
    }
}

/// Every position that holds a record is listed.
pub proof fn lemma_positions_complete(slots: Seq<Option<QueryRecord>>, position: int)
    requires
        0 <= position < slots.len(),
        slots[position] is Some,
    ensures
        populated_positions(slots).contains(position),
    decreases slots.len(),
{
    let front = slots.drop_last();
    if position == slots.len() - 1 {
        assert(populated_positions(slots).last() == position);
    } else {
        assert(front[position] == slots[position]);
        lemma_positions_complete(front, position);
        let k = choose|k: int|
            0 <= k < populated_positions(front).len() && populated_positions(front)[k] == position;
        assert(populated_positions(slots)[k] == position);
    }
}

/// Decoding keeps the cursor's order: of two populated positions, the record
/// of the earlier one stands before the record of the later one.
pub proof fn lemma_decode_keeps_order(slots: Seq<Option<QueryRecord>>, earlier: int, later: int)
    requires
        0 <= earlier < later < slots.len(),
        slots[earlier] is Some,
        slots[later] is Some,
    ensures
        exists|a: int, b: int|
            0 <= a < b < decode(slots).len() && decode(slots)[a] == details_of(slots[earlier]->0)
                && decode(slots)[b] == details_of(slots[later]->0),
{
    lemma_positions_sound(slots);
    lemma_positions_complete(slots, earlier);
    lemma_positions_complete(slots, later);
    let positions = populated_positions(slots);
    let a = choose|a: int| 0 <= a < positions.len() && positions[a] == earlier;
    let b = choose|b: int| 0 <= b < positions.len() && positions[b] == later;
    assert(a < b) by {
        if b < a {
            assert(positions[b] < positions[a]);
        }
    }
    assert(decode(slots)[a] == details_of(slots[earlier]->0));
    assert(decode(slots)[b] == details_of(slots[later]->0));
}

/// Decoding one position more appends that position's record, or nothing
/// where the position is empty.
pub proof fn lemma_decode_step(slots: Seq<Option<QueryRecord>>)
    requires
        slots.len() > 0,
    ensures
        decode(slots) == (match slots.last() {
            Some(record) => decode(slots.drop_last()).push(details_of(record)),
            None => decode(slots.drop_last()),
        }),
{
    let front = slots.drop_last();
    lemma_positions_sound(front);
    let expected = match slots.last() {
        Some(record) => decode(front).push(details_of(record)),
        None => decode(front),
    };
    assert(decode(slots).len() == expected.len());
    assert forall|k: int| 0 <= k < expected.len() implies decode(slots)[k] == expected[k] by {
        if k < populated_positions(front).len() {
            let position = populated_positions(front)[k];
            assert(populated_positions(slots)[k] == position);
            assert(front[position] == slots[position]);
        }
    }
    assert(decode(slots) =~= expected);
}

/// Decodes a query cursor: the record of each populated position, in the
/// cursor's order. An empty position is passed over.
pub fn query_result_to_details(slots: Vec<Option<QueryRecord>>) -> (details: Vec<
    WorkshopItemDetails,
>)
    ensures
        details@ == decode(slots@),
        details@.len() == populated_count(slots@),
        details@.len() <= slots@.len(),
{
    let ghost all = slots@;
    let mut details: Vec<WorkshopItemDetails> = Vec::new();
    assert(decode(all.take(0)) =~= Seq::<WorkshopItemDetails>::empty());
    for slot in it: slots.into_iter()
        invariant
            it.seq() == all,
            details@ == decode(all.take(it.index() as int)),
    {
        proof {
            assert(all.take(it.index() + 1).drop_last() =~= all.take(it.index() as int));
            lemma_decode_step(all.take(it.index() + 1));
        }
        match slot {
            Some(record) => {
                details.push(record_to_details(record));
            },
            None => {},
        }
    }
    proof {
        assert(all.take(all.len() as int) =~= all);
        lemma_positions_sound(all);
    }
    details
}

/// The outcome of creating a query: the handle where the platform gave one,
/// and else a failure that holds what the platform said of the refusal. The
/// failure is returned at once, before any callback is registered and before
/// anything waits.
pub fn create_query_handle<H>(created: Result<H, String>) -> (outcome: Result<H, BridgeError>)
    ensures
        outcome == (match created {
            Ok(handle) => Ok::<H, BridgeError>(handle),
            Err(text) => Err(BridgeError::CreateQuery { text }),
        }),
{
    match created {
        Ok(handle) => Ok(handle),
        Err(text) => Err(BridgeError::CreateQuery { text }),
    }
}

/// What the callback of a query hands over for an outcome: the decoded result
/// set of a fetched cursor, or the failure as it came.
pub open spec fn details_payload(
    result: Result<Vec<Option<QueryRecord>>, SteamFailure>,
    payload: Result<Vec<WorkshopItemDetails>, SteamFailure>,
) -> bool {
    match result {
        Ok(slots) => payload matches Ok(details) && details@ == decode(slots@),
        Err(failure) => payload == Err::<Vec<WorkshopItemDetails>, SteamFailure>(failure),
    }
}

/// Decodes the outcome of a query on the producer's side.
pub fn decode_outcome(result: Result<Vec<Option<QueryRecord>>, SteamFailure>) -> (payload: Result<
    Vec<WorkshopItemDetails>,
    SteamFailure,
>)
    ensures
        details_payload(result, payload),
{
    match result {
        Ok(slots) => Ok(query_result_to_details(slots)),
        Err(failure) => Err(failure),
    }
}

/// A fresh channel and the callback for a query. The callback decodes what
/// was fetched and hands the result set over, or the failure as it came. It
/// accepts every outcome, and gives back the producing end, which then holds
/// that payload as delivered.
pub fn make_details_callback() -> (r: (
    ResultReceiver<Result<Vec<WorkshopItemDetails>, SteamFailure>>,
    impl FnOnce(Result<Vec<Option<QueryRecord>>, SteamFailure>) -> ResultSender<
        Result<Vec<WorkshopItemDetails>, SteamFailure>,
    >,
))
    ensures
        forall|result: Result<Vec<Option<QueryRecord>>, SteamFailure>|
            call_requires(r.1, (result,)),
        forall|
            result: Result<Vec<Option<QueryRecord>>, SteamFailure>,
            after: ResultSender<Result<Vec<WorkshopItemDetails>, SteamFailure>>,
        |
            call_ensures(r.1, (result,), after) ==> (after.delivered() matches Some(payload)
                && details_payload(result, payload)),
{
    let (sender, rx) = result_channel::<Result<Vec<WorkshopItemDetails>, SteamFailure>>();
    let callback = move |result: Result<Vec<Option<QueryRecord>>, SteamFailure>| -> (after:
        ResultSender<Result<Vec<WorkshopItemDetails>, SteamFailure>>)
        ensures
            after.delivered() matches Some(payload) && details_payload(result, payload),
        {
            let mut sender = sender;
            sender.send(decode_outcome(result));
            sender
        };
    (rx, callback)
}

/// Waits for the result set of an issued query. The worker blocks until the
/// query's callback has delivered; what comes back is the delivered result
/// set, or the classified failure.
pub fn fetch_details(rx: ResultReceiver<Result<Vec<WorkshopItemDetails>, SteamFailure>>) -> (outcome:
    Result<Vec<WorkshopItemDetails>, BridgeError>)
    ensures
        exists|delivered: Result<Vec<WorkshopItemDetails>, SteamFailure>|
            outcome == classify(delivered, Operation::Query),
{
    await_outcome(rx, Operation::Query)
}

/// One outcome of a fetch gives one result, fixed by that outcome alone. The
/// callback, called once, hands over exactly its payload; a worker that reads
/// what was handed over returns the records decoded from the fetched cursor,
/// or the failure that came, with its category and sentence untouched.
pub proof fn lemma_fetch_fixed_by_outcome(
    result: Result<Vec<Option<QueryRecord>>, SteamFailure>,
    payload: Result<Vec<WorkshopItemDetails>, SteamFailure>,
)
    requires
        details_payload(result, payload),
    ensures
        after_sends(seq![payload]) == Some(payload),
        (match result {
            Ok(slots) => classify(after_sends(seq![payload])->0, Operation::Query) matches Ok(
                details,
            ) && details@ == decode(slots@),
            Err(failure) => classify(after_sends(seq![payload])->0, Operation::Query) == Err::<
                Vec<WorkshopItemDetails>,
                BridgeError,
            >(BridgeError::Sdk { operation: Operation::Query, failure }),
        }),
{
    lemma_first_send_wins(seq![payload]);
}

} // verus!
