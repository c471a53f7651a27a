//! The message log of an agent session.
use vstd::prelude::*;

use crate::model::{Message, MessageRole, SessionMeta};

verus! {

#[derive(Debug, Clone)]
pub struct AgentSession {
    pub meta: SessionMeta,
    pub messages: Vec<Message>,
}

impl AgentSession {
    pub fn new(meta: SessionMeta) -> (r: Self)
        ensures
            r.meta == meta,
            r.messages@.len() == 0,
    {
        AgentSession { meta, messages: Vec::new() }
    }

    /// Appends a message and records its timestamp as the session's last update.
    pub fn append_message(&mut self, id: String, role: MessageRole, content: String, timestamp: u64)
        ensures
            final(self).messages@ == old(self).messages@.push(
                Message { id, role, content, timestamp },
            ),
            final(self).meta == (SessionMeta { updated_at: timestamp, ..old(self).meta }),
    {
        self.messages.push(Message { id, role, content, timestamp });
        self.meta.updated_at = timestamp;
    }
}

} // verus!
