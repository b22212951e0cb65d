//! The records of the service.

pub mod character;
pub mod chat;
pub mod enums;
pub mod media;
pub mod user;
