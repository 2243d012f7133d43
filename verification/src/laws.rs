//! What the library promises, said of what goes in and what comes out.

pub mod answers;
pub mod dialling;
pub mod exchange;
pub mod requests;
pub mod rooms;
pub mod views;
pub mod writing;
