//! A control plane for live HLS playlists.
//!
//! A worker takes playback requests, checks their tokens and sends each to one of many shards.
//! A shard is an object that keeps the latest playlists of one stream, fed by the stream's
//! origin. Requests for what the stream has not reached wait there until it does, and viewers
//! that hold a WebSocket are pushed every update.
//!
//! - `gateway`: a request's way through the worker, with `path`, `auth` and `shard`
//! - `llhls`, `simple`: the two kinds of objects, with `fetch`, `route`, `origin`
//!   and `waiting`
//! - `protocol`, `delivery`, `http`, `text`, `base64url`: messages, answers, replies and text

pub mod auth;
pub mod base64url;
pub mod delivery;
pub mod fetch;
pub mod gateway;
pub mod http;
pub mod llhls;
pub mod origin;
pub mod path;
pub mod protocol;
pub mod route;
pub mod shard;
pub mod simple;
pub mod text;
pub mod waiting;
