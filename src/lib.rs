//! A media transcoding worker's logic: for each "video uploaded" event, the
//! steps that turn a raw upload into an HLS rendition ladder with a
//! thumbnail, the object keys and command lines those steps use, and how the
//! outcome is answered to the broker.

pub mod text;
pub mod layout;
pub mod ladder;
pub mod upload;
pub mod endpoint;
pub mod retry;
pub mod job;
pub mod consumer;
pub mod config;
