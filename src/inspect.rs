use vstd::prelude::*;

use crate::envelope::opt_view;
use crate::text::{has_substring, str_contains};

verus! {

/// A log line marks a failed invocation when it holds an error marker or a
/// timeout marker.
pub open spec fn message_shows_failure(m: Seq<char>) -> bool {
    has_substring(m, "ERROR"@) || has_substring(m, "Task timed out"@)
}

/// An event's message shows a failure; an event without a message shows none.
pub open spec fn event_shows_failure(message: Option<Seq<char>>) -> bool {
    match message {
        Some(m) => message_shows_failure(m),
        None => false,
    }
}

/// Some event's message shows a failure.
pub open spec fn events_show_failure(messages: Seq<Option<Seq<char>>>) -> bool {
    exists|i: int| 0 <= i < messages.len() && event_shows_failure(#[trigger] messages[i])
}

pub open spec fn messages_view(messages: Seq<Option<String>>) -> Seq<Option<Seq<char>>> {
    messages.map_values(|m: Option<String>| opt_view(m))
}

/// Whether one log message marks a failed invocation.
pub fn message_indicates_failure(message: &str) -> (r: bool)
    ensures
        r == message_shows_failure(message@),
{
    str_contains(message, "ERROR") || str_contains(message, "Task timed out")
}

/// Whether the inspected log events (their messages, in order) hold failure
/// evidence.
pub fn log_events_indicate_failure(messages: &Vec<Option<String>>) -> (r: bool)
    ensures
        r == events_show_failure(messages_view(messages@)),
{
    let ghost mv = messages_view(messages@);
    let mut i: usize = 0;
    while i < messages.len()
        invariant
            i <= messages@.len(),
            mv == messages_view(messages@),
            forall|k: int| 0 <= k < i ==> !event_shows_failure(#[trigger] mv[k]),
        decreases messages@.len() - i,
    {
        match &messages[i] {
            Some(m) => {
                if message_indicates_failure(m.as_str()) {
                    assert(event_shows_failure(mv[i as int]));
                    return true;
                }
            },
            None => {},
        }
        i = i + 1;
    }
    false
}

} // verus!
