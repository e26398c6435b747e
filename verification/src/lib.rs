//! The core of a chat session whose two parties, a user and a generation
//! backend, may ask for changes to a filesystem by writing commands into
//! their messages.
//!
//! Every message is kept in an append-only store and names the message before
//! it. The library parses the commands out of a text, decides which of them
//! the session permits, says what is to be sent to the executor and what the
//! answer means, composes the request to the backend, and decides after a
//! failure whether a message gets another attempt. It reaches nothing outside
//! itself: `pipeline` says, step by step, what is to be done next, and takes
//! what came of it.

pub mod dispatch;
pub mod events;
pub mod generate;
pub mod history;
pub mod json;
pub mod message;
pub mod parser;
pub mod pipeline;
pub mod render;
pub mod session;
pub mod store;
pub mod text;
