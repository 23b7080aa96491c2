use crabplay::app::{AppState, PlayerState, RepeatMode};
use crabplay::config::Config;
use crabplay::models::TrackInfo;
use crabplay::output::{JsonFormatter, OutputFormatter};
use crabplay::pathname::same_dir;
use crabplay::playlist::is_playlist_extension;
use crabplay::ui::keys::{play_result, Command, Key, UiMode, UiState, NAME_MAX};
use crabplay::ui::layout::pad_display;
use crabplay::ui::tui::source_entries;

fn track(title: &str) -> TrackInfo {
    TrackInfo {
        path: format!("/m/{title}.mp3"),
        title: title.to_string(),
        artist: "A".to_string(),
        album: String::new(),
        duration_secs: 30,
    }
}

fn three() -> AppState {
    AppState::new(vec![track("a"), track("b"), track("c")], "/music".to_string())
}

#[test]
fn name_input_stops_at_two_hundred_characters() {
    let mut s = three();
    let mut ui = UiState::new(&s);
    let mut c = Config::default();
    ui.handle_key(&mut s, &mut c, Key::Char('a'));
    ui.handle_key(&mut s, &mut c, Key::Char('s'));
    assert_eq!(ui.mode, UiMode::NameInput);
    for _ in 0..NAME_MAX {
        ui.handle_key(&mut s, &mut c, Key::Char('x'));
    }
    assert_eq!(ui.name_input.chars().count(), 200);
    ui.handle_key(&mut s, &mut c, Key::Char('y'));
    assert_eq!(ui.name_input.chars().count(), 200);
    assert!(!ui.name_input.contains('y'));
    ui.handle_key(&mut s, &mut c, Key::Backspace);
    ui.handle_key(&mut s, &mut c, Key::Char('y'));
    assert_eq!(ui.name_input.chars().count(), 200);
    assert!(ui.name_input.ends_with('y'));
}

#[test]
fn paths_compare_by_component() {
    assert!(same_dir("/music", "/music/"));
    assert!(same_dir("/music//rock", "/music/./rock"));
    assert!(same_dir("a/b", "a/b/."));
    assert!(same_dir("//a", "/a"));
    assert!(same_dir(".", "./"));
    assert!(!same_dir("./a", "a"));
    assert!(!same_dir("/a", "a"));
    assert!(!same_dir("/a/..", "/"));
    assert!(!same_dir("/music", "/Music"));
}

#[test]
fn recent_dirs_compare_as_paths() {
    let mut config = Config::default();
    config.push_recent_dir("/a/".to_string());
    config.push_recent_dir("/b".to_string());
    config.push_recent_dir("/a".to_string());
    assert_eq!(config.recent_dirs, vec!["/a".to_string(), "/b".to_string()]);
    config.push_recent_dir("/b/".to_string());
    config.remove_recent_dir(&"/b".to_string());
    assert_eq!(config.recent_dirs, vec!["/a".to_string()]);
}

#[test]
fn picker_drops_the_source_written_with_a_slash() {
    let recent = vec!["/music/".to_string(), "/old".to_string()];
    let entries = source_entries(&"/music".to_string(), &recent, vec![]);
    let labels: Vec<String> = entries.iter().map(|e| e.label()).collect();
    assert_eq!(labels, vec!["[Dir]    /music", "[Recent] /old"]);
}

#[test]
fn messages_clear_after_their_times() {
    let mut s = three();
    s.set_error("bad".to_string());
    s.set_info("good".to_string());
    s.clear_expired(Some(4999), Some(2999));
    assert_eq!(s.error_message().map(|m| m.as_str()), Some("bad"));
    assert_eq!(s.info_message().map(|m| m.as_str()), Some("good"));
    s.clear_expired(Some(4999), Some(3000));
    assert_eq!(s.error_message().map(|m| m.as_str()), Some("bad"));
    assert!(s.info_message().is_none());
    s.clear_expired(Some(5000), None);
    assert!(s.error_message().is_none());
    s.set_info("again".to_string());
    s.clear_expired(None, None);
    assert!(s.has_info());
}

#[test]
fn playback_settles_after_half_a_second() {
    let mut s = three();
    assert!(s.settled_after(0));
    play_result(&mut s, Ok(()));
    assert!(!s.settled_after(499));
    assert!(s.settled_after(500));
    s.set_paused();
    assert!(s.settled_after(0));
}

#[test]
fn track_end_advances_only_when_settled() {
    let mut s = three();
    let mut ui = UiState::new(&s);
    s.set_repeat(RepeatMode::All);
    s.set_selected(2);
    play_result(&mut s, Ok(()));
    assert_eq!(s.player_state(), PlayerState::Playing);
    assert!(matches!(ui.finish_step(&mut s, true, false), Command::Idle));
    assert_eq!(s.selected(), 2);
    assert!(matches!(ui.finish_step(&mut s, false, true), Command::Idle));
    assert_eq!(s.selected(), 2);
    assert!(matches!(ui.finish_step(&mut s, true, true), Command::PlayCurrent));
    assert_eq!(s.selected(), 0);
    s.set_repeat(RepeatMode::Off);
    s.set_selected(2);
    s.set_playing();
    assert!(matches!(ui.track_ended(&mut s), Command::Idle));
    assert_eq!(s.player_state(), PlayerState::Stopped);
}

#[test]
fn json_listing_always_succeeds() {
    let t = TrackInfo {
        path: "/m/\"q\"\n.mp3".to_string(),
        title: "タイトル".to_string(),
        artist: String::new(),
        album: "\\".to_string(),
        duration_secs: u64::MAX,
    };
    let out = JsonFormatter.format_track(&t).unwrap();
    assert!(out.contains("18446744073709551615"));
}

#[test]
fn playlist_files_end_in_json_any_case() {
    assert!(is_playlist_extension("json"));
    assert!(is_playlist_extension("JSON"));
    assert!(is_playlist_extension("jSoN"));
    assert!(!is_playlist_extension("jsn"));
    assert!(!is_playlist_extension("jsonl"));
    assert!(!is_playlist_extension("ｊson"));
    assert!(!is_playlist_extension(""));
}

#[test]
fn added_track_badge_is_its_new_position() {
    let mut s = three();
    s.set_selected(2);
    assert!(s.playlist_add_selected());
    s.set_selected(0);
    assert!(s.playlist_add_selected());
    assert!(!s.playlist_add_selected());
    let map = s.playlist_badge_map();
    assert_eq!(map.get(&2), Some(&vec![1]));
    assert_eq!(map.get(&0), Some(&vec![2]));
    assert!(map.values().all(|v| v.len() == 1));
}

#[test]
fn ascii_text_is_padded_to_exact_width() {
    assert_eq!(pad_display("abc", 6), "abc   ");
    assert_eq!(pad_display("abcdefgh", 5), "abcde");
    assert_eq!(pad_display("", 2), "  ");
}
