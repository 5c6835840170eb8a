//! Request handling rules, event model and per-thread event channels of a
//! conversation service: threads hold messages, runs publish events, and
//! subscribers receive them as server-sent events.

pub mod stamp;
pub mod text;
pub mod reply;
pub mod messages;
pub mod threads;
pub mod events;
pub mod hub;
pub mod stream;
pub mod run;
pub mod proxy;
