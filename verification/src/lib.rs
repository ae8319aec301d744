//! The decisions of a debug adapter session.
//!
//! A session stands between a client, which speaks the debug adapter protocol, and a debugger. This
//! crate holds what the session decides: which requests it serves, what it asks the debugger for,
//! what it makes of the answers, and what it tells the client. It does no input or output of its
//! own. Where the debugger has to be asked in the middle of a request, the request is split: a first
//! function says what to ask for, and a second one takes the answer.
pub mod cancel;
pub mod completions;
pub mod console;
pub mod control;
pub mod data_breakpoints;
pub mod error;
pub mod events;
pub mod goto_requests;
pub mod memory;
pub mod modules;
pub mod outside;
pub mod protocol;
pub mod request;
pub mod session;
pub mod source_map;
pub mod stack;
pub mod symbols;
pub mod text;
