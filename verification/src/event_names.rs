//! Names of the events the backend sends to the WebView.
//!
//! An event name may hold only ASCII letters and digits and the characters `-`, `/`, `:`
//! and `_`, and may not be empty.

use vstd::prelude::*;

use crate::text::str_equal;

verus! {

pub const APP_READY_EVENT: &'static str = "app:ready";
pub const SESSION_STARTED_EVENT: &'static str = "session:started";
pub const SESSION_EXITED_EVENT: &'static str = "session:exited";
pub const SESSION_CRASHED_EVENT: &'static str = "session:crashed";
pub const SESSION_FAILED_EVENT: &'static str = "session:failed";
pub const SESSION_PAUSED_EVENT: &'static str = "session:paused";
pub const SESSION_RESUMED_EVENT: &'static str = "session:resumed";
pub const SESSION_STATE_SAVED_EVENT: &'static str = "session:state-saved";
pub const SESSION_STATE_SAVE_FAILED_EVENT: &'static str = "session:state-save-failed";
pub const SESSION_STATE_LOADED_EVENT: &'static str = "session:state-loaded";
pub const SESSION_STATE_LOAD_FAILED_EVENT: &'static str = "session:state-load-failed";

/// A character allowed in an event name.
pub open spec fn event_name_char(c: char) -> bool {
    ('a' <= c <= 'z') || ('A' <= c <= 'Z') || ('0' <= c <= '9') || c == '-' || c == '/' || c
        == ':' || c == '_'
}

/// A well-formed event name.
pub open spec fn valid_event_name(s: Seq<char>) -> bool {
    s.len() > 0 && forall|i: int| 0 <= i < s.len() ==> #[trigger] event_name_char(s[i])
}

/// The internal lifecycle names that have an external event, with that event.
pub open spec fn lifecycle_event_of(internal: Seq<char>) -> Option<Seq<char>> {
    if internal == "session.started"@ {
        Some(SESSION_STARTED_EVENT@)
    } else if internal == "session.exited"@ {
        Some(SESSION_EXITED_EVENT@)
    } else if internal == "session.crashed"@ {
        Some(SESSION_CRASHED_EVENT@)
    } else if internal == "session.failed"@ {
        Some(SESSION_FAILED_EVENT@)
    } else {
        None
    }
}

/// The external event for a supervisor lifecycle name; other names have none.
pub fn external_session_lifecycle_event(internal_name: &str) -> (r: Option<&'static str>)
    ensures
        match r {
            Some(e) => lifecycle_event_of(internal_name@) == Some(e@),
            None => lifecycle_event_of(internal_name@) is None,
        },
{
    if str_equal(internal_name, "session.started") {
        Some(SESSION_STARTED_EVENT)
    } else if str_equal(internal_name, "session.exited") {
        Some(SESSION_EXITED_EVENT)
    } else if str_equal(internal_name, "session.crashed") {
        Some(SESSION_CRASHED_EVENT)
    } else if str_equal(internal_name, "session.failed") {
        Some(SESSION_FAILED_EVENT)
    } else {
        None
    }
}

/// Every event name the backend emits is well formed.
pub proof fn law_event_names_are_well_formed()
    ensures
        valid_event_name(APP_READY_EVENT@),
        valid_event_name(SESSION_STARTED_EVENT@),
        valid_event_name(SESSION_EXITED_EVENT@),
        valid_event_name(SESSION_CRASHED_EVENT@),
        valid_event_name(SESSION_FAILED_EVENT@),
        valid_event_name(SESSION_PAUSED_EVENT@),
        valid_event_name(SESSION_RESUMED_EVENT@),
        valid_event_name(SESSION_STATE_SAVED_EVENT@),
        valid_event_name(SESSION_STATE_SAVE_FAILED_EVENT@),
        valid_event_name(SESSION_STATE_LOADED_EVENT@),
        valid_event_name(SESSION_STATE_LOAD_FAILED_EVENT@),
{
    reveal_strlit("app:ready");
    reveal_strlit("session:started");
    reveal_strlit("session:exited");
    reveal_strlit("session:crashed");
    reveal_strlit("session:failed");
    reveal_strlit("session:paused");
    reveal_strlit("session:resumed");
    reveal_strlit("session:state-saved");
    reveal_strlit("session:state-save-failed");
    reveal_strlit("session:state-loaded");
    reveal_strlit("session:state-load-failed");
}

/// Every external lifecycle event is one of the emitted, well-formed names.
pub proof fn law_lifecycle_events_are_well_formed(internal: Seq<char>)
    ensures
        lifecycle_event_of(internal) matches Some(e) ==> valid_event_name(e),
{
    law_event_names_are_well_formed();
}

} // verus!
