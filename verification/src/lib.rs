//! An HTTP/1.1 protocol engine that speaks the wire format itself.
//!
//! The engine writes requests as bytes, assembles responses from lines and
//! bytes, reads headers and cookies, settles how a body is framed, asks the
//! server what it allows before a request is sent, and follows a redirect to
//! the secure scheme once. It opens no socket: it says what is to be sent
//! where, and is handed what came back.
//!
//! A call starts with [`exchange::Session::begin`], which hands out the
//! bytes of the first request. Its response is read with an
//! [`assembler::Assembler`], or with [`assembler::read_response`] where the
//! bytes are in memory, and goes back to the session, which says what comes
//! next, until the call is over.

pub mod assembler;
pub mod chunked;
pub mod definitions;
pub mod exchange;
pub mod framing;
pub mod map;
pub mod preflight;
pub mod prelude;
pub mod serializer;
pub mod structs;
pub mod text;
pub mod types;
pub mod utils;
