//! Core engine of a conversational assistant bot: callback routing with
//! prefix-family precedence, per-conversation dialogue state, pure list
//! pagination, and an asynchronous result-correlation mechanism with an
//! exactly-once-outcome guarantee.  Transport, persistence and the external
//! compute service are collaborators that live outside this crate; the
//! functions here decide, and hand plain values back to the caller.
use vstd::prelude::*;

pub mod commands;
pub mod correlator;
pub mod error;
pub mod file_manager;
pub mod handlers;
pub mod keyboards;
pub mod messages;
pub mod mistral;
pub mod numeric;
pub mod pagination;
pub mod records;
pub mod router;
pub mod service;
pub mod state;
pub mod text;
pub mod texts;
pub mod users;

verus! {

/// Checked addition on `u64`; the caller rules out overflow.
pub fn add(left: u64, right: u64) -> (r: u64)
    requires
        left + right <= u64::MAX,
    ensures
        r == left + right,
{
    left + right
}

} // verus!
