//! Building the track list: which files are audio files, and tracks from tags.
pub mod metadata;
pub mod scanner;
