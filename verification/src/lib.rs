//! Core logic of the maky agent CLI: command parsing, input editing, chat
//! state transitions, authentication decisions and provider/tool helpers.
pub mod clock;
pub mod model;
pub mod text;
pub mod app;
pub mod auth;
pub mod storage;
pub mod agent;
pub mod providers;
pub mod tools;
