//! A single request/response exchange with a model.
use vstd::prelude::*;

use crate::model::ProviderEvent;

verus! {

#[derive(Debug, Clone, PartialEq, Eq)]
pub struct TurnRequest {
    pub session_id: String,
    pub model: String,
    pub user_input: String,
}

#[derive(Debug, Clone, PartialEq, Eq)]
pub struct TurnOutcome {
    pub events: Vec<ProviderEvent>,
}

impl TurnOutcome {
    /// A turn that streamed `text` in one delta and then completed.
    pub fn completed_with_text(text: String) -> (r: Self)
        ensures
            r.events@ == seq![ProviderEvent::TextDelta(text), ProviderEvent::Completed],
    {
        let mut events: Vec<ProviderEvent> = Vec::new();
        events.push(ProviderEvent::TextDelta(text));
        events.push(ProviderEvent::Completed);
        assert(events@ =~= seq![ProviderEvent::TextDelta(text), ProviderEvent::Completed]);
        TurnOutcome { events }
    }
}

} // verus!
