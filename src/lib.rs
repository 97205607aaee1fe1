//! A client library for a Phabricator-style task tracker: typed records decoded
//! from the Conduit JSON API, request building and response decoding for the
//! task and user searches, recursive task-family assembly, a watchlist store and
//! a tree rendering of task families.

pub mod client;
pub mod dto;
pub mod error;
pub mod json;
pub mod metric;
pub mod render;
pub mod storage;
pub mod stored;
pub mod task_service;
pub mod text;
