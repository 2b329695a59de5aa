//! Verified core of a small HTTP service: a monotone request counter, path
//! routing, id parsing, and the decision logic of the three request handlers.
//! All I/O (the HTTP listener, the database, the environment) lives outside
//! this crate; the functions here are pure decisions over plain values.

pub mod counter;
pub mod digits;
pub mod handlers;
pub mod ids;
pub mod model;
pub mod route;
pub mod text;
