//! Protocol version 5.0.

pub mod common;
pub mod connect;
pub mod message;
pub mod packet;
pub mod publish;
pub mod session;
pub mod subscribe;
pub mod types;
