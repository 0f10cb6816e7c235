//! Download queue bookkeeping and error classification for a media downloader.
pub mod text;
pub mod errors;
pub mod outside;
pub mod status;
pub mod media;
pub mod item;
pub mod request;
pub mod queue;
pub mod pipeline;
pub mod recovery;
pub mod throttle;
pub mod cache;
pub mod options;
pub mod theme;
pub mod gui;
pub mod laws;
