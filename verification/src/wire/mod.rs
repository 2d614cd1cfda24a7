//! The messages that go to the server and come from it.

pub mod persistent;
pub mod shared;
pub mod streams;
