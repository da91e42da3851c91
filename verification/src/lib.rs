//! The rules of a shared group progress tracker: what a submitted member state
//! must look like, who may change what, and how a request for an item is told
//! to the group's Discord channel.
//!
//! The library decides and never performs. The store that keeps the members and
//! the channel that carries the messages are reached by whoever uses it:
//!
//! - [`validators`] checks a submitted state against the bounds of each part
//!   and against the collection log's schema ([`collection_log`]);
//! - [`models`] holds the members, their names and the table of bounds;
//! - [`discord_webhook`] builds the message of an item request, says which
//!   addresses a group may set, and judges the answer to a message;
//! - [`authed`] takes each request through its steps, from the first check to the reply;
//! - [`error`] names every way in which a request can fail;
//! - [`text`] compares and renders text.

pub mod authed;
pub mod collection_log;
pub mod discord_webhook;
pub mod error;
pub mod models;
pub mod text;
pub mod validators;
