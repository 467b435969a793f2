pub mod config;
pub mod dispatch;
pub mod drain;
pub mod payload;
pub mod source;
