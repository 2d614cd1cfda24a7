//! The commands of an EventStoreDB client: what each command puts on the wire,
//! what it makes of the server's answer, and when it retries or gives up.

pub mod commands;
pub mod ids;
pub mod laws;
pub mod options;
pub mod request;
pub mod settings;
pub mod string_map;
pub mod text;
pub mod time;
pub mod types;
pub mod wire;
