//! The texts the screen shows: column widths of the track list, each row's
//! pieces, the list title, the now-playing line, the search bar and the key line.
//! The program draws them with its terminal widgets and colours.
use vstd::prelude::*;

use crate::app::{mode_label, AppModel, AppState, PlayerState};
use crate::models::TrackInfo;
use crate::text::{decimal, decimal2, push_char, push_decimal, push_decimal2, push_str};
use crate::ui::keys::{UiMode, UiState};
use crate::ui::layout::{
    format_queue_badge, marquee_of, pad_display, padded_display, queue_badge, BADGE_WIDTH,
};
use crate::width::{str_columns, str_width};

verus! {

/// Columns taken by borders, marker, separators, time and badge in a row.
pub const FIXED_OVERHEAD: usize = 18;

/// The narrowest title column.
pub const TITLE_MIN: usize = 20;

/// The narrowest artist column.
pub const ARTIST_MIN: usize = 12;

/// The title and artist column widths for a track list `area_width` columns
/// wide: 62% of what the fixed parts leave to the title, the rest to the
/// artist, each at least its minimum.
pub open spec fn column_widths_spec(area_width: u16) -> (usize, usize) {
    let inner: int = if area_width >= 2 { area_width - 2 } else { 0 };
    let available: int = if inner >= 18 { inner - 18 } else { 0 };
    let title: int = if available * 62 / 100 >= 20 { available * 62 / 100 } else { 20 };
    let rest: int = if available >= title { available - title } else { 0 };
    let artist: int = if rest >= 12 { rest } else { 12 };
    (title as usize, artist as usize)
}

/// Title and artist column widths for a track list of the given width.
pub fn column_widths(area_width: u16) -> (r: (usize, usize))
    ensures
        r == column_widths_spec(area_width),
        r.0 >= TITLE_MIN,
        r.1 >= ARTIST_MIN,
{
    let inner: usize = if area_width >= 2 {
        (area_width - 2) as usize
    } else {
        0
    };
    let available: usize = if inner >= FIXED_OVERHEAD {
        inner - FIXED_OVERHEAD
    } else {
        0
    };
    let share = available * 62 / 100;
    let title = if share >= TITLE_MIN {
        share
    } else {
        TITLE_MIN
    };
    let rest = if available >= title {
        available - title
    } else {
        0
    };
    let artist = if rest >= ARTIST_MIN {
        rest
    } else {
        ARTIST_MIN
    };
    (title, artist)
}

/// `n` right-aligned in two characters (`{:>2}`).
pub open spec fn right2(n: nat) -> Seq<char> {
    if n < 10 {
        seq![' '] + decimal(n)
    } else {
        decimal(n)
    }
}

/// The duration column of a row: ` M:SS` with the minutes right-aligned in two.
pub open spec fn time_text(secs: u64) -> Seq<char> {
    seq![' '] + right2((secs / 60) as nat) + seq![':'] + decimal2((secs % 60) as nat)
}

/// The artist as listed: `Unknown` when the tags have none.
pub open spec fn artist_text(artist: Seq<char>) -> Seq<char> {
    if artist.len() == 0 {
        "Unknown"@
    } else {
        artist
    }
}

/// A title or artist cell: the marquee when this is the highlighted row and the
/// text is wider than the column, else the text padded or cut to the column.
pub open spec fn cell_text(s: Seq<char>, width: usize, marquee: bool, scroll: usize) -> Seq<char> {
    if marquee && str_columns(s) > width {
        marquee_of(s, scroll, width)
    } else {
        padded_display(s, width as nat)
    }
}

/// The pieces of one track row.
pub struct RowText {
    /// `▶ ` for the track being played, two spaces otherwise.
    pub marker: String,
    /// The title cell.
    pub title: String,
    /// A space and the artist cell.
    pub artist: String,
    /// The duration.
    pub time: String,
    /// A space and the playlist position badge.
    pub badge: String,
}

/// Whether the texts of a track can be measured without overflowing a column count.
pub open spec fn row_fits(t: TrackInfo, title_width: usize, artist_width: usize) -> bool {
    &&& 3 * t.title@.len() + 2 + title_width <= usize::MAX
    &&& 3 * 7 + 3 * t.artist@.len() + 2 + artist_width <= usize::MAX
}

fn cell(
    marquee: &mut crate::ui::layout::MarqueeCache,
    s: &str,
    width: usize,
    highlight: bool,
) -> (r: String)
    requires
        old(marquee).wf(),
        3 * s@.len() + 2 + width <= usize::MAX,
    ensures
        final(marquee).wf(),
        final(marquee).scroll() == old(marquee).scroll(),
        r@ == cell_text(s@, width, highlight, old(marquee).scroll()),
{
    if highlight && str_width(s) > width {
        marquee.render(s, width)
    } else {
        pad_display(s, width)
    }
}

impl UiState {
    /// The texts of row `i` of the track list. `highlight` marks the row under the
    /// cursor, whose over-wide texts scroll; `positions` are the track's playlist
    /// positions.
    pub fn row_text(
        &mut self,
        state: &AppState,
        i: usize,
        highlight: bool,
        title_width: usize,
        artist_width: usize,
        positions: &[usize],
    ) -> (r: RowText)
        requires
            old(self).wf(),
            i < state@.tracks.len(),
            row_fits(state@.tracks[i as int], title_width, artist_width),
        ensures
            final(self).wf(),
            final(self)@ == (crate::ui::keys::UiModel { cached: final(self)@.cached, ..old(self)@ }),
            ({
                let t = state@.tracks[i as int];
                let sc = old(self)@.scroll;
                &&& r.marker@ == if state@.playing == Some(i) {
                    "▶ "@
                } else {
                    "  "@
                }
                &&& r.title@ == cell_text(t.title@, title_width, highlight, sc)
                &&& r.artist@ == seq![' '] + cell_text(
                    artist_text(t.artist@),
                    artist_width,
                    highlight,
                    sc,
                )
                &&& r.time@ == time_text(t.duration_secs)
                &&& r.badge@ == seq![' '] + queue_badge(positions@)
            }),
    {
        let t = &state.tracks()[i];
        let marker = if state.playing_index() == Some(i) {
            "▶ ".to_owned()
        } else {
            "  ".to_owned()
        };
        let title = cell(&mut self.marquee, t.title.as_str(), title_width, highlight);
        let artist_src: &str = if t.artist.as_str().is_empty() {
            proof {
                reveal_strlit("Unknown");
            }
            "Unknown"
        } else {
            t.artist.as_str()
        };
        let cell_a = cell(&mut self.marquee, artist_src, artist_width, highlight);
        let mut artist = String::new();
        push_char(&mut artist, ' ');
        push_str(&mut artist, cell_a.as_str());
        let mut time = String::new();
        push_char(&mut time, ' ');
        let mins = t.duration_secs / 60;
        if mins < 10 {
            push_char(&mut time, ' ');
        }
        push_decimal(&mut time, mins);
        push_char(&mut time, ':');
        push_decimal2(&mut time, t.duration_secs % 60);
        assert(time@ =~= time_text(t.duration_secs));
        let b = format_queue_badge(positions);
        let mut badge = String::new();
        push_char(&mut badge, ' ');
        push_str(&mut badge, b.as_str());
        RowText { marker, title, artist, time, badge }
    }
}

/// The track list's title: the number of matches in search mode, the playlist
/// size when there is a playlist.
pub open spec fn list_title_spec(a: AppModel, mode: UiMode, matches: nat) -> Seq<char> {
    if mode == UiMode::Search {
        " crabplay  [検索: "@ + decimal(matches) + "/"@ + decimal(a.tracks.len()) + "] "@
    } else if a.queue.len() == 0 {
        " crabplay "@
    } else {
        " crabplay  [PL: "@ + decimal(a.queue.len()) + "] "@
    }
}

impl UiState {
    /// The track list's title.
    pub fn list_title(&self, state: &AppState) -> (r: String)
        ensures
            r@ == list_title_spec(state@, self@.mode, self@.search_indices.len()),
    {
        let mut s = String::new();
        if self.mode == UiMode::Search {
            push_str(&mut s, " crabplay  [検索: ");
            push_decimal(&mut s, self.search_indices.len() as u64);
            push_str(&mut s, "/");
            push_decimal(&mut s, state.tracks().len() as u64);
            push_str(&mut s, "] ");
        } else if state.playlist_is_empty() {
            push_str(&mut s, " crabplay ");
        } else {
            push_str(&mut s, " crabplay  [PL: ");
            push_decimal(&mut s, state.playlist_len() as u64);
            push_str(&mut s, "] ");
        }
        s
    }

    /// The search bar: the query with a cursor block, the number of matches, and
    /// the keys of search mode.
    pub fn search_bar(&self, state: &AppState) -> (r: String)
        ensures
            r@ == " / "@ + self@.search_query + "█  ["@ + decimal(self@.search_indices.len())
                + "/"@ + decimal(state@.tracks.len()) + "]  [↑↓] 移動  [Enter] 確定  [Esc] キャンセル"@,
    {
        let mut s = String::new();
        push_str(&mut s, " / ");
        push_str(&mut s, self.search_query.as_str());
        push_str(&mut s, "█  [");
        push_decimal(&mut s, self.search_indices.len() as u64);
        push_str(&mut s, "/");
        push_decimal(&mut s, state.tracks().len() as u64);
        push_str(&mut s, "]  [↑↓] 移動  [Enter] 確定  [Esc] キャンセル");
        s
    }
}

/// What the now-playing line shows.
#[derive(Debug, Clone, Copy, PartialEq, Eq, Structural)]
pub enum NowKind {
    /// An information message.
    Info,
    /// An error message.
    Error,
    /// The track being played, with a progress bar.
    Track,
    /// Nothing is playing.
    Nothing,
}

/// The play-state symbol.
pub open spec fn state_symbol(s: PlayerState) -> Seq<char> {
    match s {
        PlayerState::Playing => "▶"@,
        PlayerState::Paused => "⏸"@,
        PlayerState::Stopped => "■"@,
    }
}

/// `M:SS`.
pub open spec fn clock(secs: u64) -> Seq<char> {
    decimal((secs / 60) as nat) + seq![':'] + decimal2((secs % 60) as nat)
}

/// The now-playing line, `pos_secs` seconds into the track: the information
/// message first, then the error, then the playing track with its position,
/// length, volume and shuffle mark.
pub open spec fn now_playing_spec(a: AppModel, pos_secs: u64) -> (Seq<char>, NowKind) {
    match a.info_msg {
        Some(m) => (" ✓  "@ + m, NowKind::Info),
        None => match a.last_error {
            Some(e) => (" ⚠  "@ + e, NowKind::Error),
            None => match a.playing {
                Some(i) => if i < a.tracks.len() {
                    let t = a.tracks[i as int];
                    (
                        seq![' '] + state_symbol(a.state) + seq![' '] + t.title@ + " — "@
                            + t.artist@ + "  ["@ + clock(pos_secs) + " / "@ + clock(
                            t.duration_secs,
                        ) + "]  VOL "@ + decimal(a.volume as nat) + "%"@ + if a.shuffle {
                            "  SHUF"@
                        } else {
                            Seq::empty()
                        },
                        NowKind::Track,
                    )
                } else {
                    (" ■  No track selected"@, NowKind::Nothing)
                },
                None => (" ■  No track selected"@, NowKind::Nothing),
            },
        },
    }
}

fn push_clock(s: &mut String, secs: u64)
    ensures
        final(s)@ == old(s)@ + clock(secs),
{
    push_decimal(s, secs / 60);
    push_char(s, ':');
    push_decimal2(s, secs % 60);
    assert(final(s)@ =~= old(s)@ + clock(secs));
}

/// The now-playing line and what it shows.
pub fn now_playing(state: &AppState, pos_secs: u64) -> (r: (String, NowKind))
    ensures
        (r.0@, r.1) == now_playing_spec(state@, pos_secs),
{
    let mut s = String::new();
    match state.info_message() {
        Some(m) => {
            push_str(&mut s, " ✓  ");
            push_str(&mut s, m.as_str());
            return (s, NowKind::Info);
        },
        None => {},
    }
    match state.error_message() {
        Some(e) => {
            push_str(&mut s, " ⚠  ");
            push_str(&mut s, e.as_str());
            return (s, NowKind::Error);
        },
        None => {},
    }
    match state.current() {
        Some(t) => {
            push_char(&mut s, ' ');
            match state.player_state() {
                PlayerState::Playing => push_str(&mut s, "▶"),
                PlayerState::Paused => push_str(&mut s, "⏸"),
                PlayerState::Stopped => push_str(&mut s, "■"),
            }
            push_char(&mut s, ' ');
            push_str(&mut s, t.title.as_str());
            push_str(&mut s, " — ");
            push_str(&mut s, t.artist.as_str());
            push_str(&mut s, "  [");
            push_clock(&mut s, pos_secs);
            push_str(&mut s, " / ");
            push_clock(&mut s, t.duration_secs);
            push_str(&mut s, "]  VOL ");
            push_decimal(&mut s, state.volume() as u64);
            push_str(&mut s, "%");
            if state.shuffle() {
                push_str(&mut s, "  SHUF");
            }
            proof {
                assert(s@ =~= now_playing_spec(state@, pos_secs).0);
            }
            (s, NowKind::Track)
        },
        None => {
            push_str(&mut s, " ■  No track selected");
            (s, NowKind::Nothing)
        },
    }
}

/// The key line, with the current repeat mode and shuffle state.
pub open spec fn keybinds_spec(a: AppModel) -> Seq<char> {
    " [↑↓] select  [Enter] play  [Space] pause  [←/→] seek ±5s  [n/p] move+play  [/] search  [a] add to playlist  [c] clear playlist  [r] repeat:"@
        + mode_label(a.repeat) + "  [z] shuffle:"@ + if a.shuffle {
        "On"@
    } else {
        "Off"@
    } + "  [s] save playlist  [o] open source  [+/-] volume  [q] quit"@
}

/// The key line.
pub fn keybinds(state: &AppState) -> (r: String)
    ensures
        r@ == keybinds_spec(state@),
{
    let mut s = String::new();
    push_str(
        &mut s,
        " [↑↓] select  [Enter] play  [Space] pause  [←/→] seek ±5s  [n/p] move+play  [/] search  [a] add to playlist  [c] clear playlist  [r] repeat:",
    );
    state.repeat().push_label(&mut s);
    push_str(&mut s, "  [z] shuffle:");
    if state.shuffle() {
        push_str(&mut s, "On");
    } else {
        push_str(&mut s, "Off");
    }
    push_str(&mut s, "  [s] save playlist  [o] open source  [+/-] volume  [q] quit");
    s
}

impl UiState {
    /// The key line as shown in `inner_width` columns: scrolling when it is wider.
    pub fn keybinds_line(&mut self, state: &AppState, inner_width: usize) -> (r: String)
        requires
            old(self).wf(),
            inner_width <= usize::MAX / 2,
        ensures
            final(self).wf(),
            final(self)@ == (crate::ui::keys::UiModel { cached: final(self)@.cached, ..old(self)@ }),
            r@ == if str_columns(keybinds_spec(state@)) > inner_width {
                marquee_of(keybinds_spec(state@), old(self)@.scroll, inner_width)
            } else {
                keybinds_spec(state@)
            },
    {
        let raw = keybinds(state);
        if str_width(raw.as_str()) > inner_width {
            proof {
                lemma_keybinds_short(state@);
            }
            self.marquee.render(raw.as_str(), inner_width)
        } else {
            raw
        }
    }
}

/// The key line is short: at most 300 characters.
pub proof fn lemma_keybinds_short(a: AppModel)
    ensures
        keybinds_spec(a).len() <= 300,
{
    reveal_strlit(
        " [↑↓] select  [Enter] play  [Space] pause  [←/→] seek ±5s  [n/p] move+play  [/] search  [a] add to playlist  [c] clear playlist  [r] repeat:",
    );
    reveal_strlit("  [z] shuffle:");
    reveal_strlit("On");
    reveal_strlit("Off");
    reveal_strlit("  [s] save playlist  [o] open source  [+/-] volume  [q] quit");
}

/// On the highlighted row a text wider than its column scrolls: the cell is the
/// marquee window at the current scroll offset, the same text `marquee_slice`
/// gives. Elsewhere, and for a text that fits, the cell is the text padded or cut
/// to the column whatever the scroll offset.
pub proof fn lemma_cell_scrolls(s: Seq<char>, width: usize, scroll: usize, other: usize)
    ensures
        str_columns(s) > width ==> cell_text(s, width, true, scroll) == marquee_of(s, scroll, width),
        cell_text(s, width, false, scroll) == padded_display(s, width as nat),
        cell_text(s, width, false, scroll) == cell_text(s, width, false, other),
        str_columns(s) <= width ==> cell_text(s, width, true, scroll) == padded_display(
            s,
            width as nat,
        ),
{
}

} // verus!
