//! Remote feedback over a chat bot.
//!
//! A desktop application posts a question to a chat, with options to
//! toggle and buttons to send or continue, and waits for the remote user
//! to answer. This library is the engine of that exchange: it decides
//! what each update from the bot API means for the session and what is to
//! be done about it. It performs no input or output. A driver makes the
//! requests, keeps the time and carries out the effects that the engine
//! returns.
//!
//! The modules, from the leaves up:
//!
//! - [`text`], [`protocol`]: text operations, and the identifiers and
//!   command texts shared with the chat;
//! - [`update`]: updates as plain values;
//! - [`feedback`], [`keyboard`]: the texts and the inline keyboard shown
//!   to the remote user;
//! - [`session`]: the state of one session;
//! - [`router`], [`engine`]: sorting of updates, and what each does;
//! - [`polling`]: the polling loop as a state machine;
//! - [`chat_id`], [`chat_probe`], [`endpoint`], [`startup`]: reading and
//!   finding the identifier of a chat, choosing the API endpoint, and
//!   deciding whether a session can start;
//! - [`window`]: placement of the application's window.
//!
//! Every executable function states what it returns over the
//! mathematical value of its arguments, and the proof functions named
//! `law_` state what holds across functions and across whole runs.

pub mod chat_id;
pub mod chat_probe;
pub mod endpoint;
pub mod engine;
pub mod feedback;
pub mod keyboard;
pub mod polling;
pub mod protocol;
pub mod router;
pub mod session;
pub mod startup;
pub mod text;
pub mod update;
pub mod window;
