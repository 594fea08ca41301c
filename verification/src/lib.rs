//! A library for writing Matrix bots.
//!
//! A bot polls its homeserver for what is new and answers. This crate holds the
//! part of that which needs no network: the typed events of a room, the decoding
//! of a sync reply into them, the cursor that follows one room through the
//! server's stream of events, the scan for invitations, and the requests that a
//! bot sends. Whoever sends the requests hands the replies back as bytes.
//!
//! * [`json`]: JSON documents as plain data, read with `serde_json`.
//! * [`sync`]: the rooms and events of a sync reply.
//! * [`decode`]: from a document to rooms and events.
//! * [`cursor`]: the place of one room in the stream, poll by poll.
//! * [`invites`]: the rooms that the account is invited to.
//! * [`message`]: messages as they are written and read.
//! * [`builder`]: the homeserver's address and credentials, and the login.
//! * [`room`]: joining, creating and inviting.
//! * [`address`]: where each request goes.

pub mod json;
pub mod sync;
pub mod decode;
pub mod cursor;
pub mod invites;
pub mod message;
pub mod builder;
pub mod room;
pub mod address;
