//! Workshop content: its data, the decoding of query results and the outcome
//! of each asynchronous operation.

pub mod query;
pub mod query_item;
pub mod query_user;
pub mod subscribe_item;
pub mod types;
pub mod unsubscribe_to_item;
