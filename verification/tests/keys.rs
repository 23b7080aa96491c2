use crabplay::app::{AppState, PlayerState, RepeatMode};
use crabplay::config::Config;
use crabplay::models::TrackInfo;
use crabplay::ui::keys::{
    apply_config, pause_toggled, play_result, play_target, playlist_deleted, playlist_saved,
    recent_removed, seek_failed, seek_target, source_loaded, Command, Key, UiMode, UiState,
};
use crabplay::ui::tui::{source_entries, PlaylistFile, SourceEntry};

fn track(title: &str, artist: &str) -> TrackInfo {
    TrackInfo {
        path: format!("/m/{title}.mp3"),
        title: title.to_string(),
        artist: artist.to_string(),
        album: String::new(),
        duration_secs: 61,
    }
}

fn setup() -> (AppState, UiState, Config) {
    let tracks = vec![track("Rock", "A"), track("Jazz", "B"), track("Blues", "C")];
    let state = AppState::new(tracks, "/music".to_string());
    let ui = UiState::new(&state);
    (state, ui, Config::default())
}

#[test]
fn normal_keys_move_and_play() {
    let (mut s, mut ui, mut c) = setup();
    assert!(matches!(ui.handle_key(&mut s, &mut c, Key::Down), Command::Idle));
    assert_eq!(s.selected(), 1);
    assert!(matches!(ui.handle_key(&mut s, &mut c, Key::Char('n')), Command::PlayCurrent));
    assert_eq!(s.selected(), 2);
    assert_eq!(play_target(&mut s), Some("/m/Blues.mp3".to_string()));
    play_result(&mut s, Ok(()));
    assert_eq!(s.playing_index(), Some(2));
    assert!(matches!(ui.handle_key(&mut s, &mut c, Key::Char(' ')), Command::TogglePause));
    pause_toggled(&mut s, true);
    assert_eq!(s.player_state(), PlayerState::Paused);
    assert!(matches!(
        ui.handle_key(&mut s, &mut c, Key::Right),
        Command::Seek { forward: true }
    ));
    assert!(matches!(ui.handle_key(&mut s, &mut c, Key::Char('q')), Command::Quit));
}

#[test]
fn stopped_player_ignores_pause_and_seek() {
    let (mut s, mut ui, mut c) = setup();
    assert!(matches!(ui.handle_key(&mut s, &mut c, Key::Char(' ')), Command::Idle));
    assert!(matches!(ui.handle_key(&mut s, &mut c, Key::Left), Command::Idle));
}

#[test]
fn failed_load_shows_error_and_stops() {
    let (mut s, _ui, _c) = setup();
    play_result(&mut s, Err("audio error: boom".to_string()));
    assert_eq!(s.error_message().map(|m| m.as_str()), Some("audio error: boom"));
    assert_eq!(s.player_state(), PlayerState::Stopped);
    s.set_selected(7);
    assert_eq!(play_target(&mut s), None);
    assert!(s.error_message().is_none());
}

#[test]
fn playlist_keys_and_messages() {
    let (mut s, mut ui, mut c) = setup();
    ui.handle_key(&mut s, &mut c, Key::Char('a'));
    assert_eq!(s.info_message().map(|m| m.as_str()), Some("Added  (PL:1)"));
    assert!(ui.playlist_dirty);
    ui.handle_key(&mut s, &mut c, Key::Char('a'));
    assert_eq!(s.info_message().map(|m| m.as_str()), Some("Already in playlist"));
    ui.begin_frame(&mut s);
    assert!(!ui.playlist_dirty);
    assert_eq!(ui.badges.get(&0), Some(&vec![1]));
    ui.handle_key(&mut s, &mut c, Key::Char('c'));
    assert_eq!(s.info_message().map(|m| m.as_str()), Some("Playlist cleared"));
    assert!(s.playlist_is_empty());
    ui.handle_key(&mut s, &mut c, Key::Char('s'));
    assert_eq!(
        s.error_message().map(|m| m.as_str()),
        Some("Playlist is empty. Add tracks with [a] before saving.")
    );
    assert_eq!(ui.mode, UiMode::Normal);
}

#[test]
fn settings_keys_update_config() {
    let (mut s, mut ui, mut c) = setup();
    assert!(matches!(ui.handle_key(&mut s, &mut c, Key::Char('r')), Command::SaveConfig));
    assert_eq!(s.repeat(), RepeatMode::All);
    assert_eq!(c.repeat, RepeatMode::All);
    assert_eq!(s.info_message().map(|m| m.as_str()), Some("Repeat: All"));
    assert!(matches!(ui.handle_key(&mut s, &mut c, Key::Char('z')), Command::SaveConfig));
    assert!(s.shuffle() && c.shuffle);
    assert_eq!(s.info_message().map(|m| m.as_str()), Some("Shuffle: On"));
    assert!(matches!(ui.handle_key(&mut s, &mut c, Key::Char('+')), Command::ApplyVolume));
    assert_eq!(s.volume(), 105);
    assert_eq!(c.volume, 105);
    assert_eq!(s.info_message().map(|m| m.as_str()), Some("Volume: 105%"));
    ui.handle_key(&mut s, &mut c, Key::Char('-'));
    ui.handle_key(&mut s, &mut c, Key::Char('-'));
    assert_eq!(s.info_message().map(|m| m.as_str()), Some("Volume: 95%"));
}

#[test]
fn name_input_and_save() {
    let (mut s, mut ui, mut c) = setup();
    ui.handle_key(&mut s, &mut c, Key::Char('a'));
    ui.handle_key(&mut s, &mut c, Key::Char('s'));
    assert_eq!(ui.mode, UiMode::NameInput);
    for ch in ['m', '/', 'i', ':', 'x'] {
        ui.handle_key(&mut s, &mut c, Key::Char(ch));
    }
    assert_eq!(ui.name_input, "mix");
    ui.handle_key(&mut s, &mut c, Key::Backspace);
    match ui.handle_key(&mut s, &mut c, Key::Enter) {
        Command::SavePlaylist(name) => {
            assert_eq!(name, "mi");
            playlist_saved(&mut s, &name, Ok(()));
            assert_eq!(s.info_message().map(|m| m.as_str()), Some("Saved as 'mi'"));
        }
        _ => panic!("expected a save"),
    }
    assert_eq!(ui.mode, UiMode::Normal);
    ui.handle_key(&mut s, &mut c, Key::Char('s'));
    ui.handle_key(&mut s, &mut c, Key::Enter);
    assert_eq!(s.error_message().map(|m| m.as_str()), Some("Name cannot be empty."));
}

#[test]
fn search_mode_filters_and_selects() {
    let (mut s, mut ui, mut c) = setup();
    ui.handle_key(&mut s, &mut c, Key::Char('/'));
    assert_eq!(ui.mode, UiMode::Search);
    assert_eq!(ui.search_indices, vec![0, 1, 2]);
    assert_eq!(ui.list_selection(&s), Some(0));
    ui.handle_key(&mut s, &mut c, Key::Char('J'));
    assert_eq!(ui.search_indices, vec![1]);
    ui.handle_key(&mut s, &mut c, Key::Char('q'));
    assert!(ui.search_indices.is_empty());
    assert_eq!(ui.list_selection(&s), None);
    ui.handle_key(&mut s, &mut c, Key::Backspace);
    assert_eq!(ui.search_indices, vec![1]);
    ui.handle_key(&mut s, &mut c, Key::Enter);
    assert_eq!(s.selected(), 1);
    assert_eq!(ui.last_selected, 1);
    assert_eq!(ui.mode, UiMode::Normal);
}

#[test]
fn help_scrolls_and_closes() {
    let (mut s, mut ui, mut c) = setup();
    ui.handle_key(&mut s, &mut c, Key::Char('?'));
    assert_eq!(ui.mode, UiMode::Help);
    ui.handle_key(&mut s, &mut c, Key::Down);
    ui.handle_key(&mut s, &mut c, Key::Down);
    ui.handle_key(&mut s, &mut c, Key::Up);
    assert_eq!(ui.help_scroll, 1);
    ui.handle_key(&mut s, &mut c, Key::Char('x'));
    assert_eq!(ui.mode, UiMode::Normal);
    assert_eq!(ui.help_scroll, 0);
}

#[test]
fn picker_entries_order_and_keys() {
    let (mut s, mut ui, mut c) = setup();
    let recent = vec!["/music".to_string(), "/old".to_string()];
    let files = vec![
        PlaylistFile { mtime: 5, path: "/pl/a.json".to_string(), name: "A".to_string() },
        PlaylistFile { mtime: 9, path: "/pl/b.json".to_string(), name: "B".to_string() },
        PlaylistFile { mtime: 5, path: "/pl/c.json".to_string(), name: "C".to_string() },
        PlaylistFile { mtime: -3, path: "/pl/d.json".to_string(), name: "D".to_string() },
    ];
    let entries = source_entries(&"/music".to_string(), &recent, files);
    let labels: Vec<String> = entries.iter().map(|e| e.label()).collect();
    assert_eq!(
        labels,
        vec![
            "[Dir]    /music",
            "[Recent] /old",
            "[PL]     B",
            "[PL]     A",
            "[PL]     C",
            "[PL]     D"
        ]
    );
    assert!(matches!(ui.handle_key(&mut s, &mut c, Key::Char('o')), Command::OpenPicker));
    ui.open_picker(entries);
    assert_eq!(ui.mode, UiMode::SourcePicker);
    ui.handle_key(&mut s, &mut c, Key::Char('d'));
    assert_eq!(s.error_message().map(|m| m.as_str()), Some("Cannot delete current directory entry"));
    ui.handle_key(&mut s, &mut c, Key::Down);
    c.push_recent_dir("/old".to_string());
    match ui.handle_key(&mut s, &mut c, Key::Char('d')) {
        Command::SaveRecentRemoval(dir) => {
            assert_eq!(dir, "/old");
            assert!(c.recent_dirs.is_empty());
            assert!(recent_removed(&mut s, &dir, Ok(())));
            assert_eq!(s.info_message().map(|m| m.as_str()), Some("Removed '/old' from recents"));
        }
        _ => panic!("expected a recent removal"),
    }
    ui.handle_key(&mut s, &mut c, Key::Down);
    match ui.handle_key(&mut s, &mut c, Key::Char('d')) {
        Command::DeletePlaylist { path, name } => {
            assert_eq!(path, "/pl/b.json");
            assert!(!playlist_deleted(&mut s, &name, Err("denied".to_string())));
            assert_eq!(s.error_message().map(|m| m.as_str()), Some("Delete failed: denied"));
        }
        _ => panic!("expected a deletion"),
    }
    ui.refresh_picker(vec![SourceEntry::Directory("/music".to_string())]);
    assert_eq!(ui.picker_selected, 0);
    match ui.handle_key(&mut s, &mut c, Key::Enter) {
        Command::LoadSource(SourceEntry::Directory(d)) => assert_eq!(d, "/music"),
        _ => panic!("expected a load"),
    }
    assert_eq!(ui.mode, UiMode::Normal);
}

#[test]
fn loading_sources() {
    let (mut s, mut ui, mut c) = setup();
    let dir = SourceEntry::RecentDir("/other".to_string());
    assert!(!ui.finish_load(&mut s, &mut c, &dir, Ok((vec![], 2))));
    assert_eq!(s.error_message().map(|m| m.as_str()), Some("No tracks found in '/other'"));
    assert!(ui.finish_load(&mut s, &mut c, &dir, Ok((vec![track("X", "Y")], 2))));
    assert_eq!(s.tracks().len(), 1);
    assert_eq!(
        s.info_message().map(|m| m.as_str()),
        Some("Loaded (2 file(s) skipped, playlist cleared)")
    );
    assert_eq!(c.recent_dirs, vec!["/other".to_string()]);
    assert!(ui.playlist_dirty);
    let pl = SourceEntry::Playlist { path: "/p.json".to_string(), name: "P".to_string() };
    assert!(!source_loaded(&mut s, &pl, Err("bad json".to_string())));
    assert_eq!(s.error_message().map(|m| m.as_str()), Some("Failed to load playlist: bad json"));
    assert!(!source_loaded(&mut s, &pl, Ok((vec![], 0))));
    assert_eq!(
        s.error_message().map(|m| m.as_str()),
        Some("Playlist is empty or all paths are missing")
    );
    assert!(source_loaded(&mut s, &pl, Ok((vec![track("Z", "")], 1))));
    assert_eq!(
        s.info_message().map(|m| m.as_str()),
        Some("Playlist loaded: 1 missing file(s) skipped")
    );
    assert!(!source_loaded(&mut s, &dir, Err("scan error: x".to_string())));
    assert_eq!(s.error_message().map(|m| m.as_str()), Some("Scan failed: scan error: x"));
    assert!(source_loaded(&mut s, &SourceEntry::Directory("/d".to_string()), Ok((vec![track("Q", "")], 0))));
    assert_eq!(s.info_message().map(|m| m.as_str()), Some("Source loaded (playlist cleared)"));
}

#[test]
fn frames_and_auto_advance() {
    let (mut s, mut ui, mut c) = setup();
    for _ in 0..4 {
        ui.end_frame(&s);
    }
    assert_eq!(ui.marquee.offset(), 0);
    ui.end_frame(&s);
    assert_eq!(ui.marquee.offset(), 1);
    assert_eq!(ui.marquee_tick, 0);
    ui.handle_key(&mut s, &mut c, Key::Down);
    ui.end_frame(&s);
    assert_eq!(ui.marquee.offset(), 0);
    assert_eq!(ui.last_selected, 1);
    assert!(matches!(ui.check_finished(&mut s, true), Command::Idle));
    s.set_selected(2);
    play_result(&mut s, Ok(()));
    s.set_paused();
    s.set_resumed();
    assert!(matches!(ui.check_finished(&mut s, false), Command::Idle));
    assert!(matches!(ui.check_finished(&mut s, true), Command::Idle));
    assert_eq!(s.player_state(), PlayerState::Stopped);
    s.set_repeat(RepeatMode::All);
    play_result(&mut s, Ok(()));
    s.set_paused();
    s.set_resumed();
    assert!(matches!(ui.check_finished(&mut s, true), Command::PlayCurrent));
    assert_eq!(s.selected(), 0);
    assert_eq!(ui.last_selected, 0);
}

#[test]
fn seek_and_config_helpers() {
    assert_eq!(seek_target(3_000_000_000, false), 0);
    assert_eq!(seek_target(7_000_000_000, false), 2_000_000_000);
    assert_eq!(seek_target(1, true), 5_000_000_001);
    let (mut s, _ui, mut c) = setup();
    seek_failed(&mut s, "no source".to_string());
    assert_eq!(s.error_message().map(|m| m.as_str()), Some("Seek failed: no source"));
    c.volume = 150;
    c.repeat = RepeatMode::One;
    c.shuffle = true;
    c.recent_dirs = vec!["/x".to_string(), "/music".to_string()];
    apply_config(&mut s, &mut c);
    assert_eq!(s.volume(), 150);
    assert_eq!(s.repeat(), RepeatMode::One);
    assert!(s.shuffle());
    assert_eq!(c.recent_dirs, vec!["/music".to_string(), "/x".to_string()]);
}
