//! Client-side protocol layer for a conversational service: the wire records
//! of the service, the frame codec, the stream decoder of a generation, and
//! the request and response rules of each remote call.

pub mod client;
pub mod connection;
pub mod decoder;
pub mod frame;
pub mod gate;
pub mod json;
pub mod methods;
pub mod outside;
pub mod protocol;
pub mod requester;
pub mod string_map;
pub mod text;
pub mod types;
