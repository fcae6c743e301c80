//! Sends text and media files to one chat through an HTTP bot API.
//!
//! The verified core classifies attachments, assigns captions and spoiler
//! flags, partitions a batch into single and grouped sends, and builds the
//! per-step request descriptions; the transport itself lives outside.
pub mod args;
pub mod batch;
pub mod config;
pub mod markup;
pub mod media;
pub mod planner;
pub mod progress;
pub mod request;
pub mod session;
pub mod text;
