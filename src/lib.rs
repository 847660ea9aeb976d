//! Playback and download orchestration core of a playlist music player.
//!
//! The library decides *when* tracks are downloaded and played and in *what
//! order*; the surrounding program performs the audio, network and file work
//! and feeds the outcomes back in.
pub mod audio;
pub mod counter;
pub mod download;
pub mod events;
pub mod heartbeat;
pub mod id;
pub mod metadata;
pub mod order;
pub mod paths;
pub mod playback;
pub mod policy;
pub mod service;
pub mod text;
pub mod title;
pub mod track;
