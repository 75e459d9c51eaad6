//! Protocol versions 3.1 and 3.1.1.

pub mod common;
pub mod connect;
pub mod message;
pub mod packet;
pub mod publish;
pub mod session;
pub mod subscribe;
