//! The provider turn protocol: requests, cancellation handles and streams.
use vstd::prelude::*;

use std::sync::atomic::AtomicBool;
use std::sync::mpsc::Receiver;
use std::sync::Arc;

use crate::model::{Message, ProviderEvent};

verus! {

#[verifier::external_type_specification]
#[verifier::external_body]
#[verifier::reject_recursive_types(T)]
pub struct ExReceiver<T>(std::sync::mpsc::Receiver<T>);

/// Credentials and auth facts handed to a provider with each request.
#[derive(Debug, Clone, PartialEq, Eq)]
pub struct ProviderAuthContext {
    pub access_token: Option<String>,
    pub source: String,
    pub status: String,
    pub provider_id: String,
}

/// Everything a provider needs to run one turn.
#[derive(Debug, Clone, PartialEq, Eq)]
pub struct ProviderTurnRequest {
    pub turn_id: String,
    pub session_id: String,
    pub model: String,
    pub variant: String,
    pub messages: Vec<Message>,
    pub auth: ProviderAuthContext,
}

/// Names a running turn and carries the flag that cancels it.
#[derive(Debug, Clone)]
pub struct TurnHandle {
    turn_id: String,
    cancellation_flag: Arc<AtomicBool>,
}

/// `Arc::clone`: another pointer to the same allocation, so the same value.
#[verifier::external_body]
fn arc_clone<T>(a: &Arc<T>) -> (r: Arc<T>)
    ensures
        r == *a,
{
    Arc::clone(a)
}

impl TurnHandle {
    pub closed spec fn spec_turn_id(&self) -> Seq<char> {
        self.turn_id@
    }

    /// The cancellation flag this handle shares.
    pub closed spec fn spec_flag(&self) -> Arc<AtomicBool> {
        self.cancellation_flag
    }

    /// A handle whose cancellation flag is not set.
    pub fn new(turn_id: String) -> (r: Self)
        ensures
            r.spec_turn_id() == turn_id@,
    {
        TurnHandle { turn_id, cancellation_flag: Arc::new(AtomicBool::new(false)) }
    }

    pub fn turn_id(&self) -> (r: &str)
        ensures
            r@ == self.spec_turn_id(),
    {
        self.turn_id.as_str()
    }

    /// Sets the cancellation flag; `true` when this call set it. The flag is
    /// shared with the thread that streams the turn, so nothing is stated of
    /// the result.
    pub fn cancel(&self) -> bool {
        self.cancellation_flag.compare_exchange(
            false,
            true,
            std::sync::atomic::Ordering::SeqCst,
            std::sync::atomic::Ordering::SeqCst,
        ).is_ok()
    }

    /// Whether the cancellation flag is set (shared state; nothing is stated).
    pub fn is_cancelled(&self) -> bool {
        self.cancellation_flag.load(std::sync::atomic::Ordering::SeqCst)
    }

    /// Another handle to the same cancellation flag.
    pub fn cancellation_flag(&self) -> (r: Arc<AtomicBool>)
        ensures
            r == self.spec_flag(),
    {
        arc_clone(&self.cancellation_flag)
    }
}

/// A started turn: its id, the stream of its events and its handle.
pub struct ProviderTurn {
    pub turn_id: String,
    pub event_rx: Receiver<ProviderEvent>,
    pub handle: TurnHandle,
}

/// A model provider that streams turns.
pub trait ModelProvider {
    fn id(&self) -> &'static str;

    fn stream_turn(&self, request: ProviderTurnRequest) -> Result<ProviderTurn, String>;
}

} // verus!
