//! A job-dispatch core for a stock portfolio server: command parsing, the
//! wire codec, connection and reply correlation, reply construction, and an
//! in-memory asset store.

pub mod text;
pub mod stock;
pub mod operation;
pub mod command;
pub mod wire;
pub mod job;
pub mod error;
pub mod reply;
pub mod dispatch;
pub mod persistance;
