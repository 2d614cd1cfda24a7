//! What the operations are for: relations between what goes into them and what comes out.

pub mod append;
pub mod basics;
pub mod batch;
pub mod event;
pub mod options;
pub mod persistent;
pub mod position;
pub mod ps_admin;
pub mod ps_info;
pub mod ps_settings;
pub mod request;
pub mod streams;
pub mod subscription;
