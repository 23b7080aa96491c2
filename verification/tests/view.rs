use crabplay::app::AppState;
use crabplay::models::TrackInfo;
use crabplay::ui::keys::UiState;
use crabplay::ui::view::{column_widths, keybinds, now_playing, NowKind};

fn state() -> AppState {
    let t = |title: &str, artist: &str, d: u64| TrackInfo {
        path: format!("/m/{title}"),
        title: title.to_string(),
        artist: artist.to_string(),
        album: String::new(),
        duration_secs: d,
    };
    AppState::new(
        vec![t("Hotel California", "Eagles", 390), t("Bohemian Rhapsody", "", 354)],
        "/m".to_string(),
    )
}

#[test]
fn column_widths_follow_terminal() {
    assert_eq!(column_widths(0), (20, 12));
    assert_eq!(column_widths(80), (37, 23));
    assert_eq!(column_widths(200), (111, 69));
}

#[test]
fn row_pieces() {
    let mut s = state();
    s.set_selected(1);
    s.set_playing();
    let mut ui = UiState::new(&s);
    let r = ui.row_text(&s, 1, false, 10, 8, &[2]);
    assert_eq!(r.marker, "▶ ");
    assert_eq!(r.title, "Bohemian R");
    assert_eq!(r.artist, " Unknown ");
    assert_eq!(r.time, "  5:54");
    assert_eq!(r.badge, " [2]   ");
    let r0 = ui.row_text(&s, 0, true, 10, 8, &[]);
    assert_eq!(r0.marker, "  ");
    assert_eq!(r0.title, "Hotel Cali");
    assert_eq!(r0.artist, " Eagles  ");
    assert_eq!(r0.time, "  6:30");
    assert_eq!(r0.badge, "       ");
}

#[test]
fn titles_and_lines() {
    let mut s = state();
    let ui = UiState::new(&s);
    assert_eq!(ui.list_title(&s), " crabplay ");
    s.playlist_add_selected();
    assert_eq!(ui.list_title(&s), " crabplay  [PL: 1] ");
    assert_eq!(ui.search_bar(&s), " / █  [0/2]  [↑↓] 移動  [Enter] 確定  [Esc] キャンセル");
    let (line, kind) = now_playing(&s, 0);
    assert_eq!(line, " ■  No track selected");
    assert_eq!(kind, NowKind::Nothing);
    s.set_playing();
    s.set_shuffle(true);
    let (line, kind) = now_playing(&s, 65);
    assert_eq!(line, " ▶ Hotel California — Eagles  [1:05 / 6:30]  VOL 100%  SHUF");
    assert_eq!(kind, NowKind::Track);
    s.set_error("oops".to_string());
    assert_eq!(now_playing(&s, 0), (" ⚠  oops".to_string(), NowKind::Error));
    s.set_info("hi".to_string());
    assert_eq!(now_playing(&s, 0), (" ✓  hi".to_string(), NowKind::Info));
    assert!(keybinds(&s).contains("[r] repeat:Off  [z] shuffle:On"));
}
