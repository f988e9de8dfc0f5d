//! A conversational-session dispatcher: for each incoming chat message it
//! decides whether the message is ignored, a persona-selecting command, or
//! content to answer, recovers text from image attachments when the message
//! carries none, drives one completion call, and re-chunks oversized replies
//! into transport-safe segments.

pub mod chunk;
pub mod extract;
pub mod laws;
pub mod orchestrate;
pub mod router;
pub mod session;
pub mod strutil;
