//! The protocol between the daemon and its clients.
pub mod body;
pub mod cursor;
pub mod error;
pub mod field;
pub mod frame;
pub mod kind;
pub mod laws;
pub mod management;
pub mod record;
pub mod request;
pub mod response;
