//! The interactive chat application: state, events and the controller that
//! turns events into state changes.
pub mod controller;
pub mod event;
pub mod markdown;
pub mod state;
pub mod ui;

use vstd::prelude::*;

verus! {

/// How the application starts: resume a persisted session, or force a new one.
#[derive(Debug, Clone, Default, PartialEq, Eq)]
pub struct StartupOptions {
    pub resume_session_id: Option<String>,
    pub force_new_session: bool,
}

} // verus!
