//! A small webhook receiver: it routes requests, decodes push deliveries into
//! a repository name, and plans the commands of the configured projects that
//! match it, with the names of the files their output is kept in.

pub mod command;
pub mod config;
pub mod dispatch;
pub mod logs;
pub mod payload;
pub mod router;
pub mod text;
