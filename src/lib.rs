//! Shutdown and cancellation coordination for a request/response network
//! service: a take-once cancellation trigger, the race rules that accept and
//! read loops follow, an idle watchdog, per-connection request handling and a
//! bounded drain of in-flight work.

pub mod cancel;
pub mod timeout;
pub mod idle;
pub mod handler;
pub mod accept;
pub mod drain;
