//! The protocol core of a one-room chat client.
//!
//! A frame of text arrives from the room, is decoded into one of three
//! operations and applied to the local state: the roster of members who are
//! online and the log of messages. In the other direction the client builds
//! an operation, encodes it, and hands the frame to whoever owns the
//! connection. Nothing here touches a socket or a screen.
//!
//! * [`json`]: the boundary to `serde_json`, and the model of a JSON document
//!   that the contracts of the codec are stated over.
//! * [`text`]: small verified helpers on strings.
//! * [`codec`]: the wire envelope, `encode` and `decode`.
//! * [`room`]: the state of the room and the rules that change it.
//! * [`session`]: the events of one session and the reaction to each.

pub mod codec;
pub mod json;
pub mod room;
pub mod session;
pub mod text;
