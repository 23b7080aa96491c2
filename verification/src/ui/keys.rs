//! What a key press does: the interface's modes and their key bindings as a
//! function from (application state, interface state, settings, key) to the next
//! states and one command for the program to carry out (play a file, save the
//! settings, read a directory, ...). The program reports the command's outcome
//! back through the follow-up functions here.
use vstd::prelude::*;

use crate::app::{mode_label, next_mode, AppModel, AppState, PlayerState, RepeatMode};
use crate::config::{pushed_recent, texts, without, Config};
use crate::models::TrackInfo;
use crate::text::{decimal, push_char, push_decimal, push_str};
use crate::ui::layout::MarqueeCache;
use crate::ui::tui::{all_indices, filter_tracks, index_range, search_result, SourceEntry};

verus! {

/// `String::pop`: removes and returns the last character, if any.
#[verifier::external_body]
fn pop_char(s: &mut String) -> (r: Option<char>)
    ensures
        old(s)@.len() == 0 ==> r is None && final(s)@ == old(s)@,
        old(s)@.len() > 0 ==> r == Some(old(s)@.last()) && final(s)@ == old(s)@.drop_last(),
{
    s.pop()
}

/// The interface's modes.
#[derive(Debug, Clone, Copy, PartialEq, Eq, Structural)]
pub enum UiMode {
    /// Browsing and playing the track list.
    Normal,
    /// Choosing another source (directory, recent directory, saved playlist).
    SourcePicker,
    /// Typing a name to save the playlist under.
    NameInput,
    /// Incremental search.
    Search,
    /// The key reference.
    Help,
}

/// A key as the interface sees it.
#[derive(Debug, Clone, Copy, PartialEq, Eq, Structural)]
pub enum Key {
    Char(char),
    Up,
    Down,
    Left,
    Right,
    Enter,
    Esc,
    Backspace,
    Other,
}

/// What the program is to do after a key or a frame.
#[derive(Debug)]
pub enum Command {
    /// Nothing.
    Idle,
    /// Stop the player and leave.
    Quit,
    /// Load and play the cursor's track (see `play_target` and `play_result`).
    PlayCurrent,
    /// Toggle the player's pause (then `pause_toggled`).
    TogglePause,
    /// Seek five seconds back or forward (see `seek_target`, `seek_failed`).
    Seek { forward: bool },
    /// Set the player's volume to the state's, and save the settings.
    ApplyVolume,
    /// Save the settings.
    SaveConfig,
    /// Read the saved playlists and open the picker (see `open_picker`).
    OpenPicker,
    /// Stop the player and load a source (then `finish_load`).
    LoadSource(SourceEntry),
    /// Delete a saved playlist's file (then `playlist_deleted`).
    DeletePlaylist { path: String, name: String },
    /// Save the settings after a recent directory was removed from them (then
    /// `recent_removed`).
    SaveRecentRemoval(String),
    /// Save the playlist under a name (then `playlist_saved`).
    SavePlaylist(String),
}

/// The effect of a track's end on the state and the interface: messages
/// cleared, then the next track by `advance` with the cursor and marquee on it and
/// `PlayCurrent`, or, where there is none, stopped and `Idle`. A shuffle draw picks
/// some other track of the list.
pub open spec fn track_end(a: AppModel, u: UiModel, a2: AppModel, u2: UiModel, cmd: Command) -> bool {
    let a0 = a.without_messages();
    if !a0.draws() {
        match a0.next_track(0) {
            Some(k) => {
                &&& cmd is PlayCurrent
                &&& a2 == a0.advanced(0)
                &&& u2 == (UiModel {
                    dirty: false,
                    scroll: 0,
                    tick: 0,
                    last_selected: k as usize,
                    ..u
                })
            },
            None => {
                &&& cmd is Idle
                &&& a2 == a0.stopped()
                &&& u2 == u
            },
        }
    } else {
        &&& cmd is PlayCurrent
        &&& a2 == (AppModel { selected: a2.selected, ..a0 })
        &&& a2.selected < a0.tracks.len()
        &&& a2.selected != a0.base()
        &&& u2 == (UiModel {
            dirty: false,
            scroll: 0,
            tick: 0,
            last_selected: a2.selected,
            ..u
        })
    }
}

/// The settings as values.
pub struct ConfigModel {
    pub recent: Seq<Seq<char>>,
    pub volume: u32,
    pub repeat: RepeatMode,
    pub shuffle: bool,
}

/// The settings' model.
pub open spec fn cfg(c: Config) -> ConfigModel {
    ConfigModel { recent: texts(c.recent_dirs@), volume: c.volume, repeat: c.repeat, shuffle: c.shuffle }
}

/// The interface state as values.
pub struct UiModel {
    pub mode: UiMode,
    pub entries: Seq<SourceEntry>,
    pub picker_selected: usize,
    pub name_input: Seq<char>,
    pub search_query: Seq<char>,
    pub search_indices: Seq<usize>,
    pub search_cursor: usize,
    pub help_scroll: u16,
    pub dirty: bool,
    pub tick: u32,
    pub last_selected: usize,
    pub scroll: usize,
    pub cached: nat,
    pub badges: Map<usize, Vec<usize>>,
}

/// The interface's own state between frames.
pub struct UiState {
    /// The current mode.
    pub mode: UiMode,
    /// The source picker's entries.
    pub picker_entries: Vec<SourceEntry>,
    /// The picker's cursor.
    pub picker_selected: usize,
    /// The playlist name being typed.
    pub name_input: String,
    /// The search text.
    pub search_query: String,
    /// The tracks matching the search.
    pub search_indices: Vec<usize>,
    /// The cursor within the search result.
    pub search_cursor: usize,
    /// How far the key reference is scrolled.
    pub help_scroll: u16,
    /// The playlist changed since the position badges were computed.
    pub playlist_dirty: bool,
    /// Frames since the marquee last moved.
    pub marquee_tick: u32,
    /// The cursor position of the last frame.
    pub last_selected: usize,
    /// The marquee's offset and column tables.
    pub marquee: MarqueeCache,
    /// Each playlist track's 1-based playlist positions.
    pub badges: std::collections::HashMap<usize, Vec<usize>>,
}

impl View for UiState {
    type V = UiModel;

    open spec fn view(&self) -> UiModel {
        UiModel {
            mode: self.mode,
            entries: self.picker_entries@,
            picker_selected: self.picker_selected,
            name_input: self.name_input@,
            search_query: self.search_query@,
            search_indices: self.search_indices@,
            search_cursor: self.search_cursor,
            help_scroll: self.help_scroll,
            dirty: self.playlist_dirty,
            tick: self.marquee_tick,
            last_selected: self.last_selected,
            scroll: self.marquee.scroll(),
            cached: self.marquee.cached(),
            badges: self.badges@,
        }
    }
}

/// `"Added  (PL:n)"`.
pub open spec fn added_msg(n: nat) -> Seq<char> {
    "Added  (PL:"@ + decimal(n) + ")"@
}

/// `"Repeat: <mode>"`.
pub open spec fn repeat_msg(m: RepeatMode) -> Seq<char> {
    "Repeat: "@ + mode_label(m)
}

/// `"Shuffle: On"` or `"Shuffle: Off"`.
pub open spec fn shuffle_msg(on: bool) -> Seq<char> {
    if on {
        "Shuffle: On"@
    } else {
        "Shuffle: Off"@
    }
}

/// `"Volume: v%"`.
pub open spec fn volume_msg(v: u32) -> Seq<char> {
    "Volume: "@ + decimal(v as nat) + "%"@
}

/// Characters that cannot be typed into a playlist name.
pub open spec fn name_forbidden(c: char) -> bool {
    c == '/' || c == '\\' || c == ':' || c == '*' || c == '?' || c == '"' || c == '<' || c == '>'
        || c == '|'
}

/// Normal mode: every key first clears the messages.
pub open spec fn normal_step(a: AppModel, u: UiModel, c: ConfigModel, key: Key) -> (
    AppModel,
    UiModel,
    ConfigModel,
    Command,
) {
    let a0 = a.without_messages();
    match key {
        Key::Up => (a0.moved_up(), u, c, Command::Idle),
        Key::Down => (a0.moved_down(), u, c, Command::Idle),
        Key::Enter => (a0, u, c, Command::PlayCurrent),
        Key::Left => if a0.state != PlayerState::Stopped {
            (a0, u, c, Command::Seek { forward: false })
        } else {
            (a0, u, c, Command::Idle)
        },
        Key::Right => if a0.state != PlayerState::Stopped {
            (a0, u, c, Command::Seek { forward: true })
        } else {
            (a0, u, c, Command::Idle)
        },
        Key::Char(ch) => if ch == 'q' {
            (a0, u, c, Command::Quit)
        } else if ch == ' ' {
            if a0.state != PlayerState::Stopped {
                (a0, u, c, Command::TogglePause)
            } else {
                (a0, u, c, Command::Idle)
            }
        } else if ch == 'n' {
            (a0.moved_down(), u, c, Command::PlayCurrent)
        } else if ch == 'p' {
            (a0.moved_up(), u, c, Command::PlayCurrent)
        } else if ch == 'a' {
            if !a0.queue.contains(a0.selected) {
                let q = a0.queue.push(a0.selected);
                (
                    AppModel { queue: q, ..a0 }.with_info(added_msg(q.len())),
                    UiModel { dirty: true, ..u },
                    c,
                    Command::Idle,
                )
            } else {
                (a0.with_info("Already in playlist"@), u, c, Command::Idle)
            }
        } else if ch == 'c' {
            (
                AppModel { queue: Seq::empty(), ..a0 }.with_info("Playlist cleared"@),
                UiModel { dirty: true, ..u },
                c,
                Command::Idle,
            )
        } else if ch == 'r' {
            let m = next_mode(a0.repeat);
            (
                AppModel { repeat: m, ..a0 }.with_info(repeat_msg(m)),
                u,
                ConfigModel { repeat: m, ..c },
                Command::SaveConfig,
            )
        } else if ch == 's' {
            if a0.queue.len() == 0 {
                (
                    a0.with_error("Playlist is empty. Add tracks with [a] before saving."@),
                    u,
                    c,
                    Command::Idle,
                )
            } else {
                (a0, UiModel { name_input: Seq::empty(), mode: UiMode::NameInput, ..u }, c, Command::Idle)
            }
        } else if ch == 'z' {
            let on = !a0.shuffle;
            (
                AppModel { shuffle: on, ..a0 }.with_info(shuffle_msg(on)),
                u,
                ConfigModel { shuffle: on, ..c },
                Command::SaveConfig,
            )
        } else if ch == '/' {
            (
                a0,
                UiModel {
                    search_query: Seq::empty(),
                    search_indices: all_indices(a0.tracks.len()),
                    search_cursor: 0,
                    scroll: 0,
                    tick: 0,
                    mode: UiMode::Search,
                    ..u
                },
                c,
                Command::Idle,
            )
        } else if ch == '?' {
            (a0, UiModel { help_scroll: 0, mode: UiMode::Help, ..u }, c, Command::Idle)
        } else if ch == 'o' {
            (a0, u, c, Command::OpenPicker)
        } else if ch == '+' || ch == '=' {
            let a1 = a0.louder();
            (
                a1.with_info(volume_msg(a1.volume)),
                u,
                ConfigModel { volume: a1.volume, ..c },
                Command::ApplyVolume,
            )
        } else if ch == '-' {
            let a1 = a0.quieter();
            (
                a1.with_info(volume_msg(a1.volume)),
                u,
                ConfigModel { volume: a1.volume, ..c },
                Command::ApplyVolume,
            )
        } else {
            (a0, u, c, Command::Idle)
        },
        _ => (a0, u, c, Command::Idle),
    }
}

/// Source picker mode.
pub open spec fn picker_step(a: AppModel, u: UiModel, c: ConfigModel, key: Key) -> (
    AppModel,
    UiModel,
    ConfigModel,
    Command,
) {
    let sel = u.picker_selected;
    match key {
        Key::Esc => (a, UiModel { mode: UiMode::Normal, ..u }, c, Command::Idle),
        Key::Up => (
            a,
            UiModel { picker_selected: if sel > 0 { (sel - 1) as usize } else { 0 }, ..u },
            c,
            Command::Idle,
        ),
        Key::Down => (
            a,
            UiModel {
                picker_selected: if sel + 1 < u.entries.len() { (sel + 1) as usize } else { sel },
                ..u
            },
            c,
            Command::Idle,
        ),
        Key::Enter => if sel < u.entries.len() {
            (a, UiModel { mode: UiMode::Normal, ..u }, c, Command::LoadSource(u.entries[sel as int]))
        } else {
            (a, UiModel { mode: UiMode::Normal, ..u }, c, Command::Idle)
        },
        Key::Char(ch) => if ch == 'd' && sel < u.entries.len() {
            match u.entries[sel as int] {
                SourceEntry::Playlist { path, name } => (
                    a,
                    u,
                    c,
                    Command::DeletePlaylist { path, name },
                ),
                SourceEntry::RecentDir(dir) => (
                    a,
                    u,
                    ConfigModel { recent: without(c.recent, dir@), ..c },
                    Command::SaveRecentRemoval(dir),
                ),
                SourceEntry::Directory(_) => (
                    a.with_error("Cannot delete current directory entry"@),
                    u,
                    c,
                    Command::Idle,
                ),
            }
        } else {
            (a, u, c, Command::Idle)
        },
        _ => (a, u, c, Command::Idle),
    }
}

/// The longest playlist name that can be typed, in characters.
pub const NAME_MAX: usize = 200;

/// Playlist name input mode: a character that may stand in a file name is added
/// while the name is shorter than `NAME_MAX`.
pub open spec fn name_step(a: AppModel, u: UiModel, key: Key, typed: String) -> (
    AppModel,
    UiModel,
    Command,
) {
    match key {
        Key::Esc => (a, UiModel { mode: UiMode::Normal, ..u }, Command::Idle),
        Key::Enter => if u.name_input.len() == 0 {
            (
                a.with_error("Name cannot be empty."@),
                UiModel { mode: UiMode::Normal, ..u },
                Command::Idle,
            )
        } else {
            (a, UiModel { mode: UiMode::Normal, ..u }, Command::SavePlaylist(typed))
        },
        Key::Backspace => (
            a,
            UiModel {
                name_input: if u.name_input.len() > 0 {
                    u.name_input.drop_last()
                } else {
                    u.name_input
                },
                ..u
            },
            Command::Idle,
        ),
        Key::Char(ch) => if !name_forbidden(ch) && u.name_input.len() < NAME_MAX {
            (a, UiModel { name_input: u.name_input.push(ch), ..u }, Command::Idle)
        } else {
            (a, u, Command::Idle)
        },
        _ => (a, u, Command::Idle),
    }
}

/// Search mode.
pub open spec fn search_step(a: AppModel, u: UiModel, key: Key) -> (AppModel, UiModel) {
    let cur = u.search_cursor;
    match key {
        Key::Esc => (a, UiModel { mode: UiMode::Normal, scroll: 0, tick: 0, ..u }),
        Key::Enter => {
            let a1 = if cur < u.search_indices.len() {
                AppModel { selected: u.search_indices[cur as int], ..a }
            } else {
                a
            };
            (
                a1,
                UiModel {
                    last_selected: a1.selected,
                    mode: UiMode::Normal,
                    scroll: 0,
                    tick: 0,
                    ..u
                },
            )
        },
        Key::Up => (a, UiModel { search_cursor: if cur > 0 { (cur - 1) as usize } else { 0 }, ..u }),
        Key::Down => (
            a,
            UiModel {
                search_cursor: if cur + 1 < u.search_indices.len() { (cur + 1) as usize } else { cur },
                ..u
            },
        ),
        Key::Backspace => {
            let q = if u.search_query.len() > 0 {
                u.search_query.drop_last()
            } else {
                u.search_query
            };
            let ids = search_result(a.tracks, q);
            (
                a,
                UiModel {
                    search_query: q,
                    search_indices: ids,
                    search_cursor: if ids.len() == 0 {
                        0
                    } else if cur <= ids.len() - 1 {
                        cur
                    } else {
                        (ids.len() - 1) as usize
                    },
                    ..u
                },
            )
        },
        Key::Char(ch) => {
            let q = u.search_query.push(ch);
            (
                a,
                UiModel {
                    search_query: q,
                    search_indices: search_result(a.tracks, q),
                    search_cursor: 0,
                    ..u
                },
            )
        },
        _ => (a, u),
    }
}

/// Key reference mode: arrows scroll, any other key closes it.
pub open spec fn help_step(u: UiModel, key: Key) -> UiModel {
    match key {
        Key::Up => UiModel {
            help_scroll: if u.help_scroll > 0 { (u.help_scroll - 1) as u16 } else { 0 },
            ..u
        },
        Key::Down => UiModel { help_scroll: u.help_scroll.wrapping_add(1), ..u },
        _ => UiModel { mode: UiMode::Normal, help_scroll: 0, ..u },
    }
}

/// The whole step for a key, by mode.
pub open spec fn key_step(a: AppModel, u: UiModel, c: ConfigModel, key: Key, typed: String) -> (
    AppModel,
    UiModel,
    ConfigModel,
    Command,
) {
    match u.mode {
        UiMode::Normal => normal_step(a, u, c, key),
        UiMode::SourcePicker => picker_step(a, u, c, key),
        UiMode::NameInput => {
            let r = name_step(a, u, key, typed);
            (r.0, r.1, c, r.2)
        },
        UiMode::Search => {
            let r = search_step(a, u, key);
            (r.0, r.1, c, Command::Idle)
        },
        UiMode::Help => (a, help_step(u, key), c, Command::Idle),
    }
}

impl UiState {
    /// The marquee's tables are consistent.
    pub open spec fn wf(&self) -> bool {
        self.marquee.wf()
    }

    /// The interface state at start-up: normal mode, badges for the playlist,
    /// the cursor's position remembered.
    pub fn new(state: &AppState) -> (u: Self)
        ensures
            u.wf(),
            u@.mode == UiMode::Normal,
            u@.entries.len() == 0,
            u@.picker_selected == 0,
            u@.name_input.len() == 0,
            u@.search_query.len() == 0,
            u@.search_indices.len() == 0,
            u@.search_cursor == 0,
            u@.help_scroll == 0,
            !u@.dirty,
            u@.tick == 0,
            u@.last_selected == state@.selected,
            u@.scroll == 0,
            u@.cached == 0,
            forall|k: usize| #[trigger] u@.badges.contains_key(k) <==> state@.queue.contains(k),
    {
        UiState {
            mode: UiMode::Normal,
            picker_entries: Vec::new(),
            picker_selected: 0,
            name_input: String::new(),
            search_query: String::new(),
            search_indices: Vec::new(),
            search_cursor: 0,
            help_scroll: 0,
            playlist_dirty: false,
            marquee_tick: 0,
            last_selected: state.selected(),
            marquee: MarqueeCache::new(),
            badges: state.playlist_badge_map(),
        }
    }

    /// Normal mode keys.
    fn normal_key(&mut self, state: &mut AppState, config: &mut Config, key: Key) -> (cmd: Command)
        requires
            old(self).wf(),
            old(self).mode == UiMode::Normal,
        ensures
            final(self).wf(),
            (final(state)@, final(self)@, cfg(*final(config)), cmd) == normal_step(
                old(state)@,
                old(self)@,
                cfg(*old(config)),
                key,
            ),
    {
        state.clear_messages();
        match key {
            Key::Up => {
                state.prev();
                Command::Idle
            },
            Key::Down => {
                state.next();
                Command::Idle
            },
            Key::Enter => Command::PlayCurrent,
            Key::Left => if state.player_state() != PlayerState::Stopped {
                Command::Seek { forward: false }
            } else {
                Command::Idle
            },
            Key::Right => if state.player_state() != PlayerState::Stopped {
                Command::Seek { forward: true }
            } else {
                Command::Idle
            },
            Key::Char(ch) => {
                if ch == 'q' {
                    Command::Quit
                } else if ch == ' ' {
                    if state.player_state() != PlayerState::Stopped {
                        Command::TogglePause
                    } else {
                        Command::Idle
                    }
                } else if ch == 'n' {
                    state.next();
                    Command::PlayCurrent
                } else if ch == 'p' {
                    state.prev();
                    Command::PlayCurrent
                } else if ch == 'a' {
                    if state.playlist_add_selected() {
                        self.playlist_dirty = true;
                        let mut m = String::new();
                        push_str(&mut m, "Added  (PL:");
                        push_decimal(&mut m, state.playlist_len() as u64);
                        push_str(&mut m, ")");
                        state.set_info(m);
                    } else {
                        state.set_info(str_to_string("Already in playlist"));
                    }
                    Command::Idle
                } else if ch == 'c' {
                    state.clear_playlist();
                    self.playlist_dirty = true;
                    state.set_info(str_to_string("Playlist cleared"));
                    Command::Idle
                } else if ch == 'r' {
                    state.cycle_repeat();
                    let mut m = String::new();
                    push_str(&mut m, "Repeat: ");
                    state.repeat().push_label(&mut m);
                    state.set_info(m);
                    config.repeat = state.repeat();
                    Command::SaveConfig
                } else if ch == 's' {
                    if state.playlist_is_empty() {
                        state.set_error(
                            str_to_string("Playlist is empty. Add tracks with [a] before saving."),
                        );
                    } else {
                        self.name_input = String::new();
                        self.mode = UiMode::NameInput;
                    }
                    Command::Idle
                } else if ch == 'z' {
                    state.toggle_shuffle();
                    if state.shuffle() {
                        state.set_info(str_to_string("Shuffle: On"));
                    } else {
                        state.set_info(str_to_string("Shuffle: Off"));
                    }
                    config.shuffle = state.shuffle();
                    Command::SaveConfig
                } else if ch == '/' {
                    self.search_query = String::new();
                    self.search_indices = index_range(state.tracks().len());
                    self.search_cursor = 0;
                    self.marquee.reset_offset();
                    self.marquee_tick = 0;
                    self.mode = UiMode::Search;
                    Command::Idle
                } else if ch == '?' {
                    self.help_scroll = 0;
                    self.mode = UiMode::Help;
                    Command::Idle
                } else if ch == 'o' {
                    Command::OpenPicker
                } else if ch == '+' || ch == '=' || ch == '-' {
                    if ch == '-' {
                        state.volume_down();
                    } else {
                        state.volume_up();
                    }
                    let mut m = String::new();
                    push_str(&mut m, "Volume: ");
                    push_decimal(&mut m, state.volume() as u64);
                    push_str(&mut m, "%");
                    state.set_info(m);
                    config.volume = state.volume();
                    Command::ApplyVolume
                } else {
                    Command::Idle
                }
            },
            _ => Command::Idle,
        }
    }

    /// Source picker keys.
    fn picker_key(&mut self, state: &mut AppState, config: &mut Config, key: Key) -> (cmd: Command)
        requires
            old(self).wf(),
            old(self).mode == UiMode::SourcePicker,
        ensures
            final(self).wf(),
            (final(state)@, final(self)@, cfg(*final(config)), cmd) == picker_step(
                old(state)@,
                old(self)@,
                cfg(*old(config)),
                key,
            ),
    {
        let sel = self.picker_selected;
        match key {
            Key::Esc => {
                self.mode = UiMode::Normal;
                Command::Idle
            },
            Key::Up => {
                if sel > 0 {
                    self.picker_selected = sel - 1;
                }
                Command::Idle
            },
            Key::Down => {
                if sel < self.picker_entries.len() && self.picker_entries.len() - sel > 1 {
                    self.picker_selected = sel + 1;
                }
                Command::Idle
            },
            Key::Enter => {
                self.mode = UiMode::Normal;
                if sel < self.picker_entries.len() {
                    Command::LoadSource(self.picker_entries[sel].clone())
                } else {
                    Command::Idle
                }
            },
            Key::Char(ch) => {
                if ch == 'd' && sel < self.picker_entries.len() {
                    match &self.picker_entries[sel] {
                        SourceEntry::Playlist { path, name } => Command::DeletePlaylist {
                            path: path.clone(),
                            name: name.clone(),
                        },
                        SourceEntry::RecentDir(dir) => {
                            config.remove_recent_dir(dir);
                            Command::SaveRecentRemoval(dir.clone())
                        },
                        SourceEntry::Directory(_) => {
                            state.set_error(str_to_string("Cannot delete current directory entry"));
                            Command::Idle
                        },
                    }
                } else {
                    Command::Idle
                }
            },
            _ => Command::Idle,
        }
    }

    /// Playlist name input keys.
    fn name_key(&mut self, state: &mut AppState, key: Key) -> (cmd: Command)
        requires
            old(self).wf(),
            old(self).mode == UiMode::NameInput,
        ensures
            final(self).wf(),
            (final(state)@, final(self)@, cmd) == name_step(
                old(state)@,
                old(self)@,
                key,
                old(self).name_input,
            ),
    {
        match key {
            Key::Esc => {
                self.mode = UiMode::Normal;
                Command::Idle
            },
            Key::Enter => {
                self.mode = UiMode::Normal;
                if self.name_input.as_str().is_empty() {
                    state.set_error(str_to_string("Name cannot be empty."));
                    Command::Idle
                } else {
                    Command::SavePlaylist(self.name_input.clone())
                }
            },
            Key::Backspace => {
                pop_char(&mut self.name_input);
                Command::Idle
            },
            Key::Char(ch) => {
                if !(ch == '/' || ch == '\\' || ch == ':' || ch == '*' || ch == '?' || ch == '"'
                    || ch == '<' || ch == '>' || ch == '|') && crate::text::chars_of(
                    self.name_input.as_str(),
                ).len() < NAME_MAX {
                    push_char(&mut self.name_input, ch);
                }
                Command::Idle
            },
            _ => Command::Idle,
        }
    }

    /// Search keys.
    fn search_key(&mut self, state: &mut AppState, key: Key)
        requires
            old(self).wf(),
            old(self).mode == UiMode::Search,
        ensures
            final(self).wf(),
            (final(state)@, final(self)@) == search_step(old(state)@, old(self)@, key),
    {
        let cur = self.search_cursor;
        match key {
            Key::Esc => {
                self.mode = UiMode::Normal;
                self.marquee.reset_offset();
                self.marquee_tick = 0;
            },
            Key::Enter => {
                if cur < self.search_indices.len() {
                    state.set_selected(self.search_indices[cur]);
                }
                self.last_selected = state.selected();
                self.mode = UiMode::Normal;
                self.marquee.reset_offset();
                self.marquee_tick = 0;
            },
            Key::Up => {
                if cur > 0 {
                    self.search_cursor = cur - 1;
                }
            },
            Key::Down => {
                if cur < self.search_indices.len() && self.search_indices.len() - cur > 1 {
                    self.search_cursor = cur + 1;
                }
            },
            Key::Backspace => {
                pop_char(&mut self.search_query);
                self.search_indices = filter_tracks(state.tracks().as_slice(), self.search_query.as_str());
                if self.search_indices.len() == 0 {
                    self.search_cursor = 0;
                } else if cur > self.search_indices.len() - 1 {
                    self.search_cursor = self.search_indices.len() - 1;
                }
            },
            Key::Char(ch) => {
                push_char(&mut self.search_query, ch);
                self.search_indices = filter_tracks(state.tracks().as_slice(), self.search_query.as_str());
                self.search_cursor = 0;
            },
            _ => {},
        }
    }

    /// Key reference keys.
    fn help_key(&mut self, key: Key)
        requires
            old(self).wf(),
            old(self).mode == UiMode::Help,
        ensures
            final(self).wf(),
            final(self)@ == help_step(old(self)@, key),
    {
        match key {
            Key::Up => {
                if self.help_scroll > 0 {
                    self.help_scroll = self.help_scroll - 1;
                }
            },
            Key::Down => {
                self.help_scroll = self.help_scroll.wrapping_add(1);
            },
            _ => {
                self.mode = UiMode::Normal;
                self.help_scroll = 0;
            },
        }
    }

    /// What a key press does in the current mode.
    pub fn handle_key(&mut self, state: &mut AppState, config: &mut Config, key: Key) -> (cmd:
        Command)
        requires
            old(self).wf(),
        ensures
            final(self).wf(),
            (final(state)@, final(self)@, cfg(*final(config)), cmd) == key_step(
                old(state)@,
                old(self)@,
                cfg(*old(config)),
                key,
                old(self).name_input,
            ),
    {
        match self.mode {
            UiMode::Normal => self.normal_key(state, config, key),
            UiMode::SourcePicker => self.picker_key(state, config, key),
            UiMode::NameInput => self.name_key(state, key),
            UiMode::Search => {
                self.search_key(state, key);
                Command::Idle
            },
            UiMode::Help => {
                self.help_key(key);
                Command::Idle
            },
        }
    }
}

/// Clears the messages before a track is loaded and gives the path of the
/// cursor's track; `None` when the cursor is on no track.
pub fn play_target(state: &mut AppState) -> (r: Option<String>)
    ensures
        final(state)@ == old(state)@.without_messages(),
        match r {
            Some(p) => old(state)@.selected < old(state)@.tracks.len() && p@ == old(
                state,
            )@.tracks[old(state)@.selected as int].path@,
            None => old(state)@.selected >= old(state)@.tracks.len(),
        },
{
    state.clear_messages();
    let i = state.selected();
    if i < state.tracks().len() {
        Some(state.tracks()[i].path.clone())
    } else {
        None
    }
}

/// After loading the cursor's track: it plays; or, when loading failed, the error
/// is shown and playback stops.
pub fn play_result(state: &mut AppState, result: Result<(), String>)
    ensures
        match result {
            Ok(_) => final(state)@ == old(state)@.playing_selected(),
            Err(e) => final(state)@ == old(state)@.with_error(e@).stopped(),
        },
{
    match result {
        Ok(_) => state.set_playing(),
        Err(e) => {
            state.set_error(e);
            state.set_stopped();
        },
    }
}

/// After the player toggled its pause: paused, or playing on.
pub fn pause_toggled(state: &mut AppState, paused: bool)
    ensures
        final(state)@ == if paused {
            old(state)@.paused()
        } else {
            old(state)@.resumed()
        },
{
    if paused {
        state.set_paused();
    } else {
        state.set_resumed();
    }
}

/// How far one seek step moves, in nanoseconds (five seconds).
pub const SEEK_NANOS: u128 = 5_000_000_000;

/// The position to seek to from `current` (nanoseconds): five seconds back, not
/// before the start, or five seconds on.
pub fn seek_target(current: u128, forward: bool) -> (r: u128)
    requires
        current <= u128::MAX - SEEK_NANOS,
    ensures
        r == if forward {
            current + SEEK_NANOS
        } else if current >= SEEK_NANOS {
            current - SEEK_NANOS
        } else {
            0
        },
{
    if forward {
        current + SEEK_NANOS
    } else if current >= SEEK_NANOS {
        current - SEEK_NANOS
    } else {
        0
    }
}

/// Shows why a seek failed.
pub fn seek_failed(state: &mut AppState, err: String)
    ensures
        final(state)@ == old(state)@.with_error("Seek failed: "@ + err@),
{
    let mut m = String::new();
    push_str(&mut m, "Seek failed: ");
    push_str(&mut m, err.as_str());
    state.set_error(m);
}

/// The state after a source was loaded (or failed to load), and whether it
/// loaded. A load gives the tracks read and how many files were skipped.
pub open spec fn load_effect(
    a: AppModel,
    entry: SourceEntry,
    outcome: Result<(Vec<TrackInfo>, usize), String>,
) -> (AppModel, bool) {
    match entry {
        SourceEntry::Playlist { .. } => match outcome {
            Err(e) => (a.with_error("Failed to load playlist: "@ + e@), false),
            Ok((ts, skip)) => if ts@.len() == 0 {
                (a.with_error("Playlist is empty or all paths are missing"@), false)
            } else {
                (
                    a.reloaded(ts@).with_info(
                        if skip > 0 {
                            "Playlist loaded: "@ + decimal(skip as nat) + " missing file(s) skipped"@
                        } else {
                            "Playlist loaded"@
                        },
                    ),
                    true,
                )
            },
        },
        SourceEntry::Directory(d) => dir_load_effect(a, d@, outcome),
        SourceEntry::RecentDir(d) => dir_load_effect(a, d@, outcome),
    }
}

/// `load_effect` for a directory.
pub open spec fn dir_load_effect(
    a: AppModel,
    d: Seq<char>,
    outcome: Result<(Vec<TrackInfo>, usize), String>,
) -> (AppModel, bool) {
    match outcome {
        Err(e) => (a.with_error("Scan failed: "@ + e@), false),
        Ok((ts, skip)) => if ts@.len() == 0 {
            (a.with_error("No tracks found in '"@ + d + "'"@), false)
        } else {
            (
                a.reloaded(ts@).with_info(
                    if skip > 0 {
                        "Loaded ("@ + decimal(skip as nat) + " file(s) skipped, playlist cleared)"@
                    } else {
                        "Source loaded (playlist cleared)"@
                    },
                ),
                true,
            )
        },
    }
}

/// Takes over a loaded source: replaces the tracks when any were read and says
/// so; otherwise shows why nothing was loaded.
pub fn source_loaded(
    state: &mut AppState,
    entry: &SourceEntry,
    outcome: Result<(Vec<TrackInfo>, usize), String>,
) -> (ok: bool)
    ensures
        (final(state)@, ok) == load_effect(old(state)@, *entry, outcome),
{
    let is_playlist = match entry {
        SourceEntry::Playlist { .. } => true,
        _ => false,
    };
    match outcome {
        Err(e) => {
            let mut m = String::new();
            if is_playlist {
                push_str(&mut m, "Failed to load playlist: ");
            } else {
                push_str(&mut m, "Scan failed: ");
            }
            push_str(&mut m, e.as_str());
            state.set_error(m);
            false
        },
        Ok((tracks, skip)) => {
            if tracks.len() == 0 {
                let mut m = String::new();
                match entry {
                    SourceEntry::Directory(d) => {
                        push_str(&mut m, "No tracks found in '");
                        push_str(&mut m, d.as_str());
                        push_str(&mut m, "'");
                    },
                    SourceEntry::RecentDir(d) => {
                        push_str(&mut m, "No tracks found in '");
                        push_str(&mut m, d.as_str());
                        push_str(&mut m, "'");
                    },
                    SourceEntry::Playlist { .. } => {
                        push_str(&mut m, "Playlist is empty or all paths are missing");
                    },
                }
                state.set_error(m);
                return false;
            }
            state.replace_tracks(tracks);
            let mut m = String::new();
            if is_playlist {
                if skip > 0 {
                    push_str(&mut m, "Playlist loaded: ");
                    push_decimal(&mut m, skip as u64);
                    push_str(&mut m, " missing file(s) skipped");
                } else {
                    push_str(&mut m, "Playlist loaded");
                }
            } else {
                if skip > 0 {
                    push_str(&mut m, "Loaded (");
                    push_decimal(&mut m, skip as u64);
                    push_str(&mut m, " file(s) skipped, playlist cleared)");
                } else {
                    push_str(&mut m, "Source loaded (playlist cleared)");
                }
            }
            state.set_info(m);
            true
        },
    }
}

/// After deleting a saved playlist's file: says so, or shows why it failed.
/// Returns whether the picker's entries should be read again.
pub fn playlist_deleted(state: &mut AppState, name: &String, result: Result<(), String>) -> (r: bool)
    ensures
        r == result is Ok,
        match result {
            Ok(_) => final(state)@ == old(state)@.with_info("Deleted '"@ + name@ + "'"@),
            Err(e) => final(state)@ == old(state)@.with_error("Delete failed: "@ + e@),
        },
{
    match result {
        Ok(_) => {
            let mut m = String::new();
            push_str(&mut m, "Deleted '");
            push_str(&mut m, name.as_str());
            push_str(&mut m, "'");
            state.set_info(m);
            true
        },
        Err(e) => {
            let mut m = String::new();
            push_str(&mut m, "Delete failed: ");
            push_str(&mut m, e.as_str());
            state.set_error(m);
            false
        },
    }
}

/// After saving the settings without a recent directory: says so, or shows why
/// saving failed. Returns whether the picker's entries should be read again.
pub fn recent_removed(state: &mut AppState, dir: &String, result: Result<(), String>) -> (r: bool)
    ensures
        r == result is Ok,
        match result {
            Ok(_) => final(state)@ == old(state)@.with_info(
                "Removed '"@ + dir@ + "' from recents"@,
            ),
            Err(e) => final(state)@ == old(state)@.with_error("Save failed: "@ + e@),
        },
{
    match result {
        Ok(_) => {
            let mut m = String::new();
            push_str(&mut m, "Removed '");
            push_str(&mut m, dir.as_str());
            push_str(&mut m, "' from recents");
            state.set_info(m);
            true
        },
        Err(e) => {
            let mut m = String::new();
            push_str(&mut m, "Save failed: ");
            push_str(&mut m, e.as_str());
            state.set_error(m);
            false
        },
    }
}

/// After saving the playlist under `name`: says so, or shows the error.
pub fn playlist_saved(state: &mut AppState, name: &String, result: Result<(), String>)
    ensures
        match result {
            Ok(_) => final(state)@ == old(state)@.with_info("Saved as '"@ + name@ + "'"@),
            Err(e) => final(state)@ == old(state)@.with_error(e@),
        },
{
    match result {
        Ok(_) => {
            let mut m = String::new();
            push_str(&mut m, "Saved as '");
            push_str(&mut m, name.as_str());
            push_str(&mut m, "'");
            state.set_info(m);
        },
        Err(e) => state.set_error(e),
    }
}

/// At start-up: the start-up directory goes first in the recent list, and the
/// saved volume, repeat mode and shuffle are restored.
pub fn apply_config(state: &mut AppState, config: &mut Config)
    ensures
        cfg(*final(config)) == (ConfigModel {
            recent: pushed_recent(texts(old(config).recent_dirs@), old(state)@.source_dir),
            ..cfg(*old(config))
        }),
        final(state)@ == (AppModel {
            volume: old(config).volume,
            repeat: old(config).repeat,
            shuffle: old(config).shuffle,
            ..old(state)@
        }),
{
    config.push_recent_dir(state.source_dir().clone());
    state.set_volume(config.volume);
    state.set_repeat(config.repeat);
    state.set_shuffle(config.shuffle);
}

/// The interface after a frame: the marquee restarts when the cursor moved, and
/// moves one column every fifth frame.
pub open spec fn frame_end(u: UiModel, selected: usize) -> UiModel {
    let u1 = if selected != u.last_selected {
        UiModel { scroll: 0, tick: 0, last_selected: selected, ..u }
    } else {
        u
    };
    let t = u1.tick.wrapping_add(1);
    if t >= 5 {
        UiModel { tick: 0, scroll: u1.scroll.wrapping_add(1), ..u1 }
    } else {
        UiModel { tick: t, ..u1 }
    }
}

impl UiState {
    /// Opens the source picker on freshly read entries.
    pub fn open_picker(&mut self, entries: Vec<SourceEntry>)
        requires
            old(self).wf(),
        ensures
            final(self).wf(),
            final(self)@ == (UiModel {
                entries: entries@,
                picker_selected: 0,
                mode: UiMode::SourcePicker,
                ..old(self)@
            }),
    {
        self.picker_entries = entries;
        self.picker_selected = 0;
        self.mode = UiMode::SourcePicker;
    }

    /// Replaces the picker's entries after one was deleted; the cursor stays where
    /// it was, or on the last entry.
    pub fn refresh_picker(&mut self, entries: Vec<SourceEntry>)
        requires
            old(self).wf(),
        ensures
            final(self).wf(),
            final(self)@ == (UiModel {
                entries: entries@,
                picker_selected: if entries@.len() == 0 {
                    0
                } else if old(self)@.picker_selected <= entries@.len() - 1 {
                    old(self)@.picker_selected
                } else {
                    (entries@.len() - 1) as usize
                },
                ..old(self)@
            }),
    {
        let n = entries.len();
        let last = if n == 0 {
            0
        } else {
            n - 1
        };
        if self.picker_selected > last {
            self.picker_selected = last;
        }
        self.picker_entries = entries;
    }

    /// After loading a source: the state takes it over (see `source_loaded`); on
    /// success a directory goes first in the recent list, the badges are to be
    /// recomputed and the marquee restarts. Returns whether the settings changed
    /// and should be saved.
    pub fn finish_load(
        &mut self,
        state: &mut AppState,
        config: &mut Config,
        entry: &SourceEntry,
        outcome: Result<(Vec<TrackInfo>, usize), String>,
    ) -> (save: bool)
        requires
            old(self).wf(),
        ensures
            final(self).wf(),
            ({
                let (a, ok) = load_effect(old(state)@, *entry, outcome);
                &&& final(state)@ == a
                &&& final(self)@ == if ok {
                    UiModel { dirty: true, tick: 0, last_selected: 0, scroll: 0, cached: 0, ..old(self)@ }
                } else {
                    old(self)@
                }
                &&& cfg(*final(config)) == match (ok, *entry) {
                    (true, SourceEntry::Directory(d)) => ConfigModel {
                        recent: pushed_recent(texts(old(config).recent_dirs@), d@),
                        ..cfg(*old(config))
                    },
                    (true, SourceEntry::RecentDir(d)) => ConfigModel {
                        recent: pushed_recent(texts(old(config).recent_dirs@), d@),
                        ..cfg(*old(config))
                    },
                    _ => cfg(*old(config)),
                }
                &&& save == (ok && !(*entry is Playlist))
            }),
    {
        let ok = source_loaded(state, entry, outcome);
        if !ok {
            return false;
        }
        let mut save = false;
        match entry.loaded_dir() {
            Some(d) => {
                config.push_recent_dir(d);
                save = true;
            },
            None => {},
        }
        self.playlist_dirty = true;
        self.marquee_tick = 0;
        self.last_selected = 0;
        self.marquee.clear();
        save
    }

    /// The start of a frame: messages time out, and the badges are recomputed when
    /// the playlist changed.
    pub fn begin_frame(&mut self, state: &mut AppState)
        requires
            old(self).wf(),
        ensures
            final(self).wf(),
            final(state)@ == (AppModel {
                last_error: final(state)@.last_error,
                error_timer: final(state)@.error_timer,
                info_msg: final(state)@.info_msg,
                info_timer: final(state)@.info_timer,
                ..old(state)@
            }),
            (final(state)@.last_error == old(state)@.last_error && final(state)@.error_timer
                == old(state)@.error_timer) || (old(state)@.error_timer
                && final(state)@.last_error is None && !final(state)@.error_timer),
            (final(state)@.info_msg == old(state)@.info_msg && final(state)@.info_timer
                == old(state)@.info_timer) || (old(state)@.info_timer
                && final(state)@.info_msg is None && !final(state)@.info_timer),
            !old(self)@.dirty ==> final(self)@ == old(self)@,
            old(self)@.dirty ==> final(self)@ == (UiModel {
                dirty: false,
                badges: final(self)@.badges,
                ..old(self)@
            }),
            old(self)@.dirty ==> (forall|k: usize| #[trigger]
                final(self)@.badges.contains_key(k) <==> old(state)@.queue.contains(k)),
            old(self)@.dirty ==> (forall|k: usize| #[trigger]
                final(self)@.badges.contains_key(k) ==> final(self)@.badges[k]@
                    == crate::app::positions(old(state)@.queue, k)),
    {
        state.tick_timeouts();
        if self.playlist_dirty {
            self.badges = state.playlist_badge_map();
            self.playlist_dirty = false;
        }
    }

    /// The end of a frame (see `frame_end`).
    pub fn end_frame(&mut self, state: &AppState)
        requires
            old(self).wf(),
        ensures
            final(self).wf(),
            final(self)@ == frame_end(old(self)@, state@.selected),
    {
        let sel = state.selected();
        if sel != self.last_selected {
            self.marquee.reset_offset();
            self.marquee_tick = 0;
            self.last_selected = sel;
        }
        self.marquee_tick = self.marquee_tick.wrapping_add(1);
        if self.marquee_tick >= 5 {
            self.marquee_tick = 0;
            self.marquee.step();
        }
    }

    /// What happens when a track has ended: the messages are cleared and the next
    /// track is chosen (`advance`) and played, or playback stops at the end.
    pub fn track_ended(&mut self, state: &mut AppState) -> (cmd: Command)
        requires
            old(self).wf(),
        ensures
            final(self).wf(),
            track_end(old(state)@, old(self)@, final(state)@, final(self)@, cmd),
    {
        state.clear_messages();
        if state.advance() {
            self.playlist_dirty = false;
            self.marquee.reset_offset();
            self.marquee_tick = 0;
            self.last_selected = state.selected();
            Command::PlayCurrent
        } else {
            state.set_stopped();
            Command::Idle
        }
    }

    /// Whether the track has finished, given whether the settling time since its
    /// start has passed: playing, settled, and the player's buffer empty. Then
    /// `track_ended`; otherwise nothing happens.
    pub fn finish_step(
        &mut self,
        state: &mut AppState,
        player_empty: bool,
        settled: bool,
    ) -> (cmd: Command)
        requires
            old(self).wf(),
        ensures
            final(self).wf(),
            if old(state)@.state == PlayerState::Playing && settled && player_empty {
                track_end(old(state)@, old(self)@, final(state)@, final(self)@, cmd)
            } else {
                cmd is Idle && final(state)@ == old(state)@ && final(self)@ == old(self)@
            },
    {
        if state.player_state() == PlayerState::Playing && settled && player_empty {
            self.track_ended(state)
        } else {
            Command::Idle
        }
    }

    /// Whether the track has finished: playing, past the settling time, and the
    /// player's buffer empty (see `finish_step`). Whether the settling time has
    /// passed is read from the clock while a start time is kept.
    pub fn check_finished(&mut self, state: &mut AppState, player_empty: bool) -> (cmd: Command)
        requires
            old(self).wf(),
        ensures
            final(self).wf(),
            !(old(state)@.state == PlayerState::Playing && player_empty) ==> (cmd is Idle
                && final(state)@ == old(state)@ && final(self)@ == old(self)@),
            (old(state)@.state == PlayerState::Playing && player_empty
                && !old(state)@.start_timer) ==> track_end(
                old(state)@,
                old(self)@,
                final(state)@,
                final(self)@,
                cmd,
            ),
            (cmd is Idle && final(state)@ == old(state)@ && final(self)@ == old(self)@) || (
            old(state)@.state == PlayerState::Playing && player_empty && track_end(
                old(state)@,
                old(self)@,
                final(state)@,
                final(self)@,
                cmd,
            )),
    {
        let settled = state.is_playback_settled();
        self.finish_step(state, player_empty, settled)
    }

    /// The row the track list highlights: the search cursor in search mode (none
    /// for an empty result), the track cursor otherwise.
    pub fn list_selection(&self, state: &AppState) -> (r: Option<usize>)
        ensures
            r == if self@.mode == UiMode::Search {
                if self@.search_indices.len() == 0 {
                    None
                } else {
                    Some(self@.search_cursor)
                }
            } else {
                Some(state@.selected)
            },
    {
        if self.mode == UiMode::Search {
            if self.search_indices.len() == 0 {
                None
            } else {
                Some(self.search_cursor)
            }
        } else {
            Some(state.selected())
        }
    }
}

/// A string with the text of a literal.
fn str_to_string(s: &str) -> (r: String)
    ensures
        r@ == s@,
{
    s.to_owned()
}

/// The arrow keys in the player view seek while a track is loaded: Left five
/// seconds back, Right five seconds forward, so the two go opposite ways; while
/// stopped they do nothing. Neither moves the cursor, changes the interface or
/// touches the settings.
pub proof fn lemma_arrows_seek(a: AppModel, u: UiModel, c: ConfigModel, typed: String)
    requires
        u.mode == UiMode::Normal,
    ensures
        a.state != PlayerState::Stopped ==> (key_step(a, u, c, Key::Left, typed).3 matches Command::Seek {
            forward,
        } && !forward),
        a.state != PlayerState::Stopped ==> (key_step(a, u, c, Key::Right, typed).3 matches Command::Seek {
            forward,
        } && forward),
        a.state == PlayerState::Stopped ==> key_step(a, u, c, Key::Left, typed).3 is Idle
            && key_step(a, u, c, Key::Right, typed).3 is Idle,
        key_step(a, u, c, Key::Left, typed).0.selected == a.selected,
        key_step(a, u, c, Key::Right, typed).0.selected == a.selected,
        key_step(a, u, c, Key::Left, typed).0.state == a.state,
        key_step(a, u, c, Key::Right, typed).0.state == a.state,
        key_step(a, u, c, Key::Left, typed).1 == u,
        key_step(a, u, c, Key::Right, typed).1 == u,
        key_step(a, u, c, Key::Left, typed).2 == c,
        key_step(a, u, c, Key::Right, typed).2 == c,
{
}

/// Enter in the source picker loads the entry under the cursor and closes the
/// picker, leaving the player state and the settings as they are.
pub proof fn lemma_picker_enter_loads_cursor(a: AppModel, u: UiModel, c: ConfigModel, typed: String)
    requires
        u.mode == UiMode::SourcePicker,
        u.picker_selected < u.entries.len(),
    ensures
        key_step(a, u, c, Key::Enter, typed).3 == Command::LoadSource(u.entries[u.picker_selected as int]),
        key_step(a, u, c, Key::Enter, typed).1.mode == UiMode::Normal,
        key_step(a, u, c, Key::Enter, typed).1.entries == u.entries,
        key_step(a, u, c, Key::Enter, typed).0 == a,
        key_step(a, u, c, Key::Enter, typed).2 == c,
{
}

} // verus!
