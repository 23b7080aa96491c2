//! A track record from the tags read out of an audio file.
use vstd::prelude::*;

use crate::models::TrackInfo;

verus! {

/// The text of an optional tag, empty when it is missing.
pub open spec fn tag_or_empty(tag: Option<String>) -> Seq<char> {
    match tag {
        Some(s) => s@,
        None => Seq::empty(),
    }
}

/// The track for a file at `path` whose name without extension is `file_stem`:
/// the title tag, else the file stem; artist and album, else empty.
pub fn track_from_tags(
    path: String,
    file_stem: String,
    title: Option<String>,
    artist: Option<String>,
    album: Option<String>,
    duration_secs: u64,
) -> (t: TrackInfo)
    ensures
        t.path@ == path@,
        t.title@ == match title {
            Some(s) => s@,
            None => file_stem@,
        },
        t.artist@ == tag_or_empty(artist),
        t.album@ == tag_or_empty(album),
        t.duration_secs == duration_secs,
{
    let title = match title {
        Some(s) => s,
        None => file_stem,
    };
    let artist = match artist {
        Some(s) => s,
        None => String::new(),
    };
    let album = match album {
        Some(s) => s,
        None => String::new(),
    };
    TrackInfo { path, title, artist, album, duration_secs }
}

} // verus!
