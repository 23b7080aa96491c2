use crabplay::app::{AppState, PlayerState, RepeatMode};
use crabplay::models::TrackInfo;

fn make_state(n: usize) -> AppState {
    let tracks = (0..n)
        .map(|i| TrackInfo {
            path: format!("/track{i}.mp3"),
            title: format!("Track {i}"),
            artist: "Artist".to_string(),
            album: "Album".to_string(),
            duration_secs: 180,
        })
        .collect();
    AppState::new(tracks, ".".to_string())
}

#[test]
fn replace_tracks_resets_all_state() {
    let mut state = make_state(3);
    state.set_selected(2);
    state.set_playing();
    state.playlist_add_selected();
    state.set_error("err".to_string());
    let new_tracks = vec![TrackInfo {
        path: "/new.mp3".to_string(),
        title: "New".to_string(),
        artist: "A".to_string(),
        album: "B".to_string(),
        duration_secs: 60,
    }];
    state.replace_tracks(new_tracks);
    assert_eq!(state.tracks().len(), 1);
    assert_eq!(state.selected(), 0);
    assert_eq!(state.playing_index(), None);
    assert!(state.playlist_is_empty());
    assert!(state.error_message().is_none());
    assert!(state.info_message().is_none());
}

#[test]
fn replace_tracks_clears_playlist() {
    let mut state = make_state(3);
    state.set_selected(1);
    state.playlist_add_selected();
    assert_eq!(state.playlist_len(), 1);
    state.replace_tracks(vec![]);
    assert!(state.playlist_is_empty());
}

#[test]
fn playlist_add_dedup() {
    let mut state = make_state(3);
    state.set_selected(0);
    assert!(state.playlist_add_selected());
    assert!(!state.playlist_add_selected());
    assert_eq!(state.playlist_len(), 1);
}

#[test]
fn playlist_not_consumed_by_advance() {
    let mut state = make_state(3);
    state.set_selected(0);
    state.playlist_add_selected();
    state.set_playing();
    state.advance();
    assert_eq!(state.playlist_len(), 1);
}

#[test]
fn is_playback_settled_when_never_started() {
    let state = make_state(1);
    assert!(state.is_playback_settled());
}

#[test]
fn advance_repeat_one_returns_false_when_not_playing() {
    let mut state = make_state(3);
    state.set_repeat(RepeatMode::One);
    assert!(!state.advance());
}

#[test]
fn advance_repeat_all_loops_around() {
    let mut state = make_state(3);
    state.set_selected(2);
    state.set_playing();
    state.set_repeat(RepeatMode::All);
    assert!(state.advance());
    assert_eq!(state.selected(), 0);
}

#[test]
fn advance_repeat_all_empty_tracks() {
    let mut state = AppState::new(vec![], ".".to_string());
    state.set_repeat(RepeatMode::All);
    assert!(!state.advance());
}

#[test]
fn advance_repeat_all_uses_playing_index_as_base() {
    let mut state = make_state(5);
    state.set_selected(0);
    state.set_playing();
    state.set_selected(3);
    state.set_repeat(RepeatMode::All);
    assert!(state.advance());
    assert_eq!(state.selected(), 1);
}

#[test]
fn advance_repeat_one_resets_cursor_to_playing_index() {
    let mut state = make_state(3);
    state.set_selected(0);
    state.set_playing();
    state.set_selected(2);
    state.set_repeat(RepeatMode::One);
    assert!(state.advance());
    assert_eq!(
        state.selected(), 0,
        "RepeatMode::One は playing_index のトラックに戻す"
    );
}

#[test]
fn advance_shuffle_returns_true_and_different_track() {
    let mut state = make_state(10);
    state.set_selected(0);
    state.set_playing();
    state.set_shuffle(true);
    let mut saw_different = false;
    for _ in 0..20 {
        assert!(state.advance());
        if state.selected() != 0 {
            saw_different = true;
            break;
        }
    }
    assert!(saw_different, "shuffle should select a different track");
}

#[test]
fn advance_shuffle_empty_returns_false() {
    let mut state = AppState::new(vec![], ".".to_string());
    state.set_shuffle(true);
    assert!(!state.advance());
}

#[test]
fn advance_shuffle_single_track_returns_true() {
    let mut state = make_state(1);
    state.set_selected(0);
    state.set_playing();
    state.set_shuffle(true);
    assert!(state.advance());
    assert_eq!(state.selected(), 0);
}

#[test]
fn advance_repeat_one_takes_priority_over_shuffle() {
    let mut state = make_state(5);
    state.set_selected(2);
    state.set_playing();
    state.set_shuffle(true);
    state.set_repeat(RepeatMode::One);
    assert!(state.advance());
    assert_eq!(state.selected(), 2, "RepeatMode::One はシャッフルより優先");
}

// ── further cases ──────────────────────────────────────────────

#[test]
fn repeat_mode_cycles_and_labels() {
    assert_eq!(RepeatMode::Off.cycle(), RepeatMode::All);
    assert_eq!(RepeatMode::All.cycle(), RepeatMode::One);
    assert_eq!(RepeatMode::One.cycle(), RepeatMode::Off);
    assert_eq!(RepeatMode::Off.label(), "Off");
    assert_eq!(RepeatMode::All.label(), "All");
    assert_eq!(RepeatMode::One.label(), "One");
    for m in [RepeatMode::Off, RepeatMode::All, RepeatMode::One] {
        assert_eq!(m.cycle().cycle().cycle(), m);
    }
}

#[test]
fn new_state_defaults() {
    let state = make_state(2);
    assert_eq!(state.selected(), 0);
    assert_eq!(state.player_state(), PlayerState::Stopped);
    assert_eq!(state.volume(), 100);
    assert!(!state.shuffle());
    assert_eq!(state.repeat(), RepeatMode::Off);
    assert!(state.current().is_none());
}

#[test]
fn cursor_stays_within_list() {
    let mut state = make_state(2);
    state.prev();
    assert_eq!(state.selected(), 0);
    state.next();
    state.next();
    assert_eq!(state.selected(), 1);
    let mut empty = AppState::new(vec![], ".".to_string());
    empty.next();
    assert_eq!(empty.selected(), 0);
}

#[test]
fn advance_off_stops_at_end() {
    let mut state = make_state(2);
    assert!(state.advance());
    assert_eq!(state.selected(), 1);
    assert!(!state.advance());
    assert_eq!(state.selected(), 1);
}

#[test]
fn advance_with_draw_skips_current_track() {
    let mut state = make_state(4);
    state.set_selected(1);
    state.set_playing();
    state.set_shuffle(true);
    let picks: Vec<usize> = (0..3)
        .map(|d| {
            let mut s = make_state(4);
            s.set_selected(1);
            s.set_playing();
            s.set_shuffle(true);
            assert!(s.advance_with(d));
            s.selected()
        })
        .collect();
    assert_eq!(picks, vec![0, 2, 3]);
}

#[test]
fn play_pause_stop_transitions() {
    let mut state = make_state(3);
    state.set_selected(1);
    state.set_playing();
    assert_eq!(state.playing_index(), Some(1));
    assert_eq!(state.player_state(), PlayerState::Playing);
    assert!(!state.is_playback_settled());
    state.set_selected(2);
    state.set_paused();
    assert_eq!(state.player_state(), PlayerState::Paused);
    assert!(state.is_playback_settled());
    state.set_resumed();
    assert_eq!(state.playing_index(), Some(1));
    assert_eq!(state.current().unwrap().title, "Track 1");
    state.set_stopped();
    assert_eq!(state.playing_index(), None);
    assert_eq!(state.player_state(), PlayerState::Stopped);
}

#[test]
fn volume_steps_are_clamped() {
    let mut state = make_state(1);
    for _ in 0..30 {
        state.volume_up();
    }
    assert_eq!(state.volume(), 200);
    state.volume_down();
    assert_eq!(state.volume(), 195);
    for _ in 0..50 {
        state.volume_down();
    }
    assert_eq!(state.volume(), 0);
    state.set_volume(3);
    state.volume_down();
    assert_eq!(state.volume(), 0);
}

#[test]
fn messages_set_and_clear() {
    let mut state = make_state(1);
    state.set_error("bad".to_string());
    state.set_info("good".to_string());
    state.tick_timeouts();
    assert_eq!(state.error_message().map(|m| m.as_str()), Some("bad"));
    assert_eq!(state.info_message().map(|m| m.as_str()), Some("good"));
    state.clear_messages();
    assert!(state.error_message().is_none());
    assert!(state.info_message().is_none());
}

#[test]
fn playlist_paths_and_badges() {
    let mut state = make_state(4);
    state.set_selected(2);
    state.playlist_add_selected();
    state.set_selected(0);
    state.playlist_add_selected();
    state.set_selected(9);
    state.playlist_add_selected();
    assert_eq!(
        state.playlist_paths(),
        vec!["/track2.mp3".to_string(), "/track0.mp3".to_string()]
    );
    let map = state.playlist_badge_map();
    assert_eq!(map.get(&2), Some(&vec![1]));
    assert_eq!(map.get(&0), Some(&vec![2]));
    assert_eq!(map.get(&9), Some(&vec![3]));
    assert_eq!(map.len(), 3);
    state.clear_playlist();
    assert!(state.playlist_badge_map().is_empty());
}

#[test]
fn toggles_and_cycles() {
    let mut state = make_state(1);
    state.toggle_shuffle();
    assert!(state.shuffle());
    state.toggle_shuffle();
    assert!(!state.shuffle());
    state.cycle_repeat();
    assert_eq!(state.repeat(), RepeatMode::All);
}
