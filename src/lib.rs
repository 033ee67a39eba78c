//! Client-side state of a real-time chat: the wire envelopes exchanged with
//! the server, the presence directory and message log they drive, and the
//! renderable projection of that state.
pub mod json;
pub mod envelope;
pub mod presence;
pub mod view;
pub mod chat;
