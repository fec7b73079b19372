//! Verified core of a live-stream capture and query platform.
//!
//! A data-center process discovers active streams, records opted-in
//! streamers' chat signals into per-streamer stores, and a backend process
//! answers token-gated queries over those stores.  This crate holds the
//! decision logic of both processes — the catalog of tokens, the opt-in
//! set, the stream supervisor, the per-streamer writer, the query builder
//! and the caches — as verified state machines over plain values.  The
//! surrounding I/O (sockets, HTTP, the embedded SQL engine) lives outside
//! and drives these machines.

pub mod auth;
pub mod capture;
pub mod catalog;
pub mod data;
pub mod database;
pub mod global;
pub mod interval;
pub mod live;
pub mod parse;
pub mod query;
pub mod supervisor;
pub mod message;
pub mod table;
pub mod text;
pub mod writer;
