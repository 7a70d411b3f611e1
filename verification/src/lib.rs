//! The core of a small key-value service, verified.
//!
//! - [`hash`] and [`store`]: the store, as one mapping or partitioned into shards by a hash
//!   of the key, with what holds of every store in [`store_laws`].
//! - [`frame`], [`request`] and [`dispatch`]: what a frame asks for, and what the store
//!   answers.
//! - [`connection`]: the phases of one connection, from reading a request to writing its
//!   response.
//! - [`command`]: requests on their way to a single owner of the store, each with the slot
//!   for its reply.
//! - [`fan_in`]: several channels merged into one stream, with what holds of every run of
//!   the selector in [`fan_in_laws`].
//!
//! The library does no transport work, starts no task and never waits: whoever uses it
//! reads, writes, waits and locks, and hands the library what came of it.

pub mod command;
pub mod connection;
pub mod dispatch;
pub mod fan_in;
pub mod fan_in_laws;
pub mod frame;
pub mod hash;
pub mod request;
pub mod store;
pub mod store_laws;
