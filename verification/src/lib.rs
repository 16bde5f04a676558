//! Verified core of a DCS World companion client: aircraft identification,
//! GUI state transitions, the worker's poll decisions, and the conversions that
//! the gRPC services apply to mission times.
pub mod client;
pub mod dcs;
pub mod export;
pub mod gui;
pub mod mission;
pub mod service;
pub mod worker;
