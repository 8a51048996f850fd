//! A bridge between a game platform's callback-driven services and callers
//! that wait for a result.
//!
//! An asynchronous operation of the platform reports through a callback that
//! runs on the thread that drains the platform's callback queue. The bridge
//! gives each operation a one-shot channel ([`callback_util`]), decodes what
//! a query fetched into item records ([`ugc::query`]), and turns what the
//! waiting worker reads from the channel into a result or a classified
//! failure ([`errors`]). Identifiers cross the boundary to the caller as
//! doubles ([`double`]).

pub mod callback_util;
pub mod double;
pub mod errors;
pub mod friends;
pub mod ugc;
