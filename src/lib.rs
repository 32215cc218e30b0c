//! Connection manager and message protocol of a small multi-user chat client.

pub mod user;
pub mod message;
pub mod json;
pub mod codec;
pub mod frame;
pub mod link;
pub mod networker;
pub mod display;
pub mod session;
