use crabplay::models::TrackInfo;
use crabplay::ui::tui::{filter_tracks, SourceEntry};

fn make_track(title: &str, artist: &str) -> TrackInfo {
    make_track_full(title, artist, "")
}

fn make_track_full(title: &str, artist: &str, album: &str) -> TrackInfo {
    TrackInfo {
        path: "/dummy".to_string(),
        title: title.to_string(),
        artist: artist.to_string(),
        album: album.to_string(),
        duration_secs: 0,
    }
}

#[test]
fn filter_tracks_empty_query_returns_all() {
    let tracks = vec![
        make_track("Song A", "Artist 1"),
        make_track("Song B", "Artist 2"),
    ];
    assert_eq!(filter_tracks(&tracks, ""), vec![0, 1]);
}

#[test]
fn filter_tracks_matches_title_case_insensitive() {
    let tracks = vec![
        make_track("Rock Anthem", "Band"),
        make_track("Jazz Night", "Trio"),
    ];
    assert_eq!(filter_tracks(&tracks, "rock"), vec![0]);
    assert_eq!(filter_tracks(&tracks, "JAZZ"), vec![1]);
}

#[test]
fn filter_tracks_matches_artist() {
    let tracks = vec![
        make_track("Title", "The Beatles"),
        make_track("Title", "Rolling Stones"),
    ];
    assert_eq!(filter_tracks(&tracks, "beatles"), vec![0]);
    assert_eq!(filter_tracks(&tracks, "stones"), vec![1]);
}

#[test]
fn filter_tracks_no_match_returns_empty() {
    let tracks = vec![make_track("Song", "Artist")];
    assert!(filter_tracks(&tracks, "zzz").is_empty());
}

#[test]
fn filter_tracks_matches_both_title_and_artist() {
    let tracks = vec![
        make_track("Love Song", "Artist"),
        make_track("Title", "Love Band"),
        make_track("Other", "Other"),
    ];
    assert_eq!(filter_tracks(&tracks, "love"), vec![0, 1]);
}

#[test]
fn filter_tracks_matches_album() {
    let tracks = vec![
        make_track_full("Song A", "Artist A", "Blue Album"),
        make_track_full("Song B", "Artist B", "Red Album"),
        make_track_full("Song C", "Artist C", "Other"),
    ];
    assert_eq!(filter_tracks(&tracks, "blue"), vec![0]);
    assert_eq!(filter_tracks(&tracks, "album"), vec![0, 1]);
    assert_eq!(filter_tracks(&tracks, "BLUE"), vec![0]);
}

#[test]
fn filter_tracks_non_ascii_and_empty_list() {
    let tracks = vec![make_track("東京フラワー", "Ado"), make_track("ÉTÉ", "x")];
    assert_eq!(filter_tracks(&tracks, "フラ"), vec![0]);
    assert_eq!(filter_tracks(&tracks, "été"), vec![1]);
    assert!(filter_tracks(&[], "a").is_empty());
    assert!(filter_tracks(&[], "").is_empty());
}

#[test]
fn source_entry_labels_and_dirs() {
    let d = SourceEntry::Directory("/music".to_string());
    let r = SourceEntry::RecentDir("/recent".to_string());
    let p = SourceEntry::Playlist {
        path: "/p.json".to_string(),
        name: "MyList".to_string(),
    };
    assert_eq!(d.label(), "[Dir]    /music");
    assert_eq!(r.label(), "[Recent] /recent");
    assert_eq!(p.label(), "[PL]     MyList");
    assert_eq!(d.loaded_dir(), Some("/music".to_string()));
    assert_eq!(r.loaded_dir(), Some("/recent".to_string()));
    assert_eq!(p.loaded_dir(), None);
}
