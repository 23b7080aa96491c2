use crabplay::error::AppError;
use crabplay::library::metadata::track_from_tags;
use crabplay::library::scanner::is_supported_extension;
use crabplay::playlist::Playlist;

#[test]
fn file_name_keeps_plain_names() {
    let pl = Playlist::new("my-playlist", vec!["/music/track1.mp3".to_string()]);
    assert_eq!(pl.file_name().unwrap(), "my-playlist.json");
    assert_eq!(pl.name, "my-playlist");
    assert_eq!(pl.paths, vec!["/music/track1.mp3".to_string()]);
    let jp = Playlist::new("お気に入り", vec![]);
    assert_eq!(jp.file_name().unwrap(), "お気に入り.json");
}

#[test]
fn file_name_trims_whitespace() {
    let pl = Playlist::new("  spaced  ", vec![]);
    assert_eq!(pl.file_name().unwrap(), "spaced.json");
    assert_eq!(pl.name, "  spaced  ");
    let wide = Playlist::new("\u{3000}全角\u{3000}", vec![]);
    assert_eq!(wide.file_name().unwrap(), "全角.json");
}

#[test]
fn file_name_replaces_unsafe_characters() {
    assert_eq!(
        Playlist::new("BGM/作業用", vec![]).file_name().unwrap(),
        "BGM_作業用.json"
    );
    assert_eq!(
        Playlist::new("name\twith\ttabs", vec![]).file_name().unwrap(),
        "name_with_tabs.json"
    );
    assert_eq!(
        Playlist::new("name\0with\0nulls", vec![]).file_name().unwrap(),
        "name_with_nulls.json"
    );
    assert_eq!(
        Playlist::new("a\u{7f}b\u{85}c", vec![]).file_name().unwrap(),
        "a_b_c.json"
    );
}

#[test]
fn file_name_rejects_empty_names() {
    for name in ["", "   ", "\t\n", "\u{3000}"] {
        match Playlist::new(name, vec![]).file_name() {
            Err(AppError::Other(m)) => {
                assert_eq!(m, "playlist name must not be empty or whitespace-only")
            }
            _ => panic!("{name:?} should be refused"),
        }
    }
}

#[test]
fn supported_extensions() {
    assert!(is_supported_extension("mp3"));
    assert!(is_supported_extension("MP3"));
    assert!(is_supported_extension("Flac"));
    assert!(!is_supported_extension("wav"));
    assert!(!is_supported_extension(""));
    assert!(!is_supported_extension("mp33"));
}

#[test]
fn track_from_tags_falls_back() {
    let t = track_from_tags(
        "/m/a.mp3".to_string(),
        "a".to_string(),
        None,
        None,
        Some("Album".to_string()),
        42,
    );
    assert_eq!(t.title, "a");
    assert_eq!(t.artist, "");
    assert_eq!(t.album, "Album");
    assert_eq!(t.path, "/m/a.mp3");
    assert_eq!(t.duration_secs, 42);
    let u = track_from_tags(
        "/m/b.flac".to_string(),
        "b".to_string(),
        Some("Title".to_string()),
        Some("Artist".to_string()),
        None,
        0,
    );
    assert_eq!(u.title, "Title");
    assert_eq!(u.artist, "Artist");
    assert_eq!(u.album, "");
}
