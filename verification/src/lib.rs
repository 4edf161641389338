//! Verified core of a distributed image-processing pipeline.
//!
//! Two services cooperate over a message broker: a projects service that owns
//! projects, source images and an ordered list of tools, and a pool of tool
//! workers that apply one image operation per request. This crate holds the
//! logic of that pipeline — the wire protocol and its codec, the per-image
//! tool-chain state machine, the in-flight job table, the routing table and
//! the push-channel registry — with contracts proved by Verus. The I/O shell
//! (broker, database, HTTP, filesystem) lives outside and hands this crate
//! plain values.
#![allow(unused_imports)]

pub mod clock;
pub mod coordinator;
pub mod errors;
pub mod ids;
pub mod json;
pub mod paths;
pub mod projects;
pub mod registry;
pub mod routing;
pub mod text;
pub mod users;
pub mod wire;
pub mod worker;

