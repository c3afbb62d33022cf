//! How appending a message changes its session's counters.
use vstd::prelude::*;
use crate::types::message::ToolCall;

verus! {

/// What appending a message adds to its session's `tool_call_count`: the
/// number of tool calls it carries, and 0 when it carries none.
pub fn tool_call_increment(tool_calls: &Option<Vec<ToolCall>>) -> (inc: i64)
    requires
        tool_calls matches Some(calls) ==> calls.len() <= i64::MAX,
    ensures
        inc == match tool_calls {
            Some(calls) => calls.len() as int,
            None => 0,
        },
{
    match tool_calls {
        Some(calls) if calls.len() != 0 => calls.len() as i64,
        _ => 0,
    }
}

} // verus!
