//! Log commands: the retained lines, clearing them, and the Copy All text.
use vstd::prelude::*;
use crate::state::log_buffer::{formatted_lines, LogBuffer};
use crate::state::models::LogEntry;
use crate::state::AppState;

verus! {

/// All retained log lines, newest first.
pub fn get_logs(state: &AppState) -> (r: Vec<LogEntry>)
    ensures
        r@ == state.logs@,
{
    state.log_buffer().snapshot()
}

/// Empty the log buffer.
pub fn clear_logs(state: &mut AppState)
    ensures
        final(state).logs@.len() == 0,
        final(state).configs() == old(state).configs(),
        final(state).groups() == old(state).groups(),
        final(state).settings() == old(state).settings(),
        final(state).pending() == old(state).pending(),
        final(state).registry == old(state).registry,
{
    state.logs.clear();
}

/// The Copy All text: newest first, one formatted line per entry.
pub fn get_logs_text(state: &AppState) -> (r: String)
    ensures
        r@ == formatted_lines(state.logs@),
{
    state.log_buffer().formatted_text()
}

} // verus!
