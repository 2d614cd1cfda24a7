//! The commands.

pub mod append;
pub mod batch;
pub mod delete;
pub mod event;
pub mod persistent;
pub mod position;
pub mod ps_admin;
pub mod ps_info;
pub mod ps_settings;
pub mod read;
pub mod start;
pub mod subscription;
