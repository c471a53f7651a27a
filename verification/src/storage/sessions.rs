//! Session persistence: the event log of a session and its store contract.
use vstd::prelude::*;

use crate::model::{Message, ProviderEvent, SessionMeta, ToolResult};
use crate::text::{concat2, i64_decimal, owned, signed_decimal, trim, trim_chars, chars_of, string_of};

verus! {

/// One persisted entry of a session's log.
#[derive(Debug, Clone, PartialEq, Eq)]
pub enum SessionEvent {
    Message(Message),
    Provider(ProviderEvent),
    ToolResult(ToolResult),
    Status(String),
}

/// A session's metadata and its ordered event log.
#[derive(Debug, Clone, PartialEq, Eq)]
pub struct SessionRecord {
    pub meta: SessionMeta,
    pub events: Vec<SessionEvent>,
}

/// A place where session logs are appended and read back.
pub trait SessionStore {
    fn append_event(&self, session_id: &str, model: &str, event: &SessionEvent) -> Result<(), String>;

    fn load_session(&self, session_id: &str) -> Result<Option<SessionRecord>, String>;

    fn load_latest(&self) -> Result<Option<SessionRecord>, String>;
}

pub open spec fn spec_event_type(event: SessionEvent) -> Seq<char> {
    match event {
        SessionEvent::Message(_) => "message"@,
        SessionEvent::Provider(_) => "provider"@,
        SessionEvent::ToolResult(_) => "tool_result"@,
        SessionEvent::Status(_) => "status"@,
    }
}

/// The `event_type` column stored with an event.
pub fn session_event_type(event: &SessionEvent) -> (r: &'static str)
    ensures
        r@ == spec_event_type(*event),
{
    match event {
        SessionEvent::Message(_) => "message",
        SessionEvent::Provider(_) => "provider",
        SessionEvent::ToolResult(_) => "tool_result",
        SessionEvent::Status(_) => "status",
    }
}

/// The model recorded for a session: the trimmed name, or `unknown` when blank.
pub fn normalized_model(model: &str) -> (r: String)
    ensures
        r@ == if trim(model@).len() == 0 {
            "unknown"@
        } else {
            trim(model@)
        },
{
    let t = trim_chars(&chars_of(model));
    if t.len() == 0 {
        owned("unknown")
    } else {
        string_of(&t)
    }
}

/// A stored (signed) timestamp as seconds; negative values are out of range.
pub fn signed_to_unsigned_timestamp(value: i64) -> (r: Result<u64, String>)
    ensures
        value >= 0 ==> r == Ok::<u64, String>(value as u64),
        value < 0 ==> (r matches Err(e) && e@ == "timestamp out of range: "@ + signed_decimal(
            value as int,
        )),
{
    if value >= 0 {
        Ok(value as u64)
    } else {
        let d = i64_decimal(value);
        Err(concat2("timestamp out of range: ", d.as_str()))
    }
}

/// Seconds since the epoch as a signed value, capped at `i64::MAX`.
pub fn unix_timestamp_seconds_i64() -> (r: i64)
    ensures
        r >= 0,
{
    let secs = crate::clock::unix_timestamp_secs();
    if secs > 9223372036854775807u64 {
        9223372036854775807i64
    } else {
        secs as i64
    }
}

} // verus!
