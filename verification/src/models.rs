//! The track record shared by the whole library.
use vstd::prelude::*;

verus! {

/// One track's metadata. Created from a file's tags and read-only afterwards.
#[derive(Debug)]
pub struct TrackInfo {
    /// Absolute path of the audio file.
    pub path: String,
    /// Track title; the file name without extension when the tags have none.
    pub title: String,
    /// Artist; empty when the tags have none.
    pub artist: String,
    /// Album; empty when the tags have none.
    pub album: String,
    /// Duration in seconds.
    pub duration_secs: u64,
}

impl Clone for TrackInfo {
    fn clone(&self) -> (r: Self)
        ensures
            r == *self,
    {
        TrackInfo {
            path: self.path.clone(),
            title: self.title.clone(),
            artist: self.artist.clone(),
            album: self.album.clone(),
            duration_secs: self.duration_secs,
        }
    }
}

} // verus!
