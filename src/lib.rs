//! Ruka: the verified core of an audio downloader and transcoder.
//!
//! The library holds the decisions of the transcoding pipeline (stream
//! selection, encoder configuration, timestamp rescaling, the drain sequence
//! and the muxer protocol) and the mapping of user metadata to container tags.
//! Codec work, network and file access are done by the caller, which feeds
//! what it observes back into these functions.

pub mod error;
pub mod timebase;
pub mod stream;
pub mod codec;
pub mod tags;
pub mod mux;
pub mod pipeline;
pub mod cli;
pub mod metadata;
pub mod prelude;
pub mod audio;
