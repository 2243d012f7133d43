//! The decisions of a bridge between Matrix rooms and a SIP exchange.

pub mod auth;
pub mod branch;
pub mod call;
pub mod connection;
pub mod error;
pub mod laws;
pub mod matrix_types;
pub mod media;
pub mod message;
pub mod parser;
pub mod room;
pub mod session;
pub mod sip;
pub mod surroundings;
pub mod text;
pub mod wire;
