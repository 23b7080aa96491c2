//! Application state: the track list and cursor, the play state, the saved
//! playlist, messages with their display timers, repeat, shuffle and volume.
use vstd::prelude::*;

use rand::Rng;

use crate::models::TrackInfo;
use crate::text::push_str;

verus! {

#[verifier::external_type_specification]
#[verifier::external_body]
pub struct ExInstant(std::time::Instant);

/// `Instant::now`.
#[verifier::external_body]
fn now() -> std::time::Instant {
    std::time::Instant::now()
}

/// The time since `t` (`Instant::elapsed`). It depends on the clock, so nothing is
/// stated of it.
#[verifier::external_body]
fn elapsed(t: &std::time::Instant) -> std::time::Duration {
    t.elapsed()
}

/// Whole milliseconds of a duration (`Duration::as_millis`). Nothing is stated of
/// it: the only durations here come from the clock.
#[verifier::external_body]
fn whole_millis(d: &std::time::Duration) -> u128 {
    d.as_millis()
}

/// Whole milliseconds since `t`.
fn elapsed_millis(t: &std::time::Instant) -> u128 {
    let d = elapsed(t);
    whole_millis(&d)
}

/// A uniformly drawn number below `upper` (`rand::thread_rng().gen_range(0..upper)`,
/// which panics on an empty range).
#[verifier::external_body]
fn random_below(upper: usize) -> (r: usize)
    requires
        upper > 0,
    ensures
        r < upper,
{
    rand::thread_rng().gen_range(0..upper)
}

/// Repeat mode. Cycles `Off` → `All` → `One` → `Off`.
#[derive(Debug, Clone, Copy, PartialEq, Eq, Structural)]
pub enum RepeatMode {
    /// No repeat: playback stops after the last track.
    Off,
    /// Repeat the whole list: after the last track comes the first.
    All,
    /// Repeat the current track.
    One,
}

/// The mode after `m` in the cycle.
pub open spec fn next_mode(m: RepeatMode) -> RepeatMode {
    match m {
        RepeatMode::Off => RepeatMode::All,
        RepeatMode::All => RepeatMode::One,
        RepeatMode::One => RepeatMode::Off,
    }
}

/// The label shown for a mode.
pub open spec fn mode_label(m: RepeatMode) -> Seq<char> {
    match m {
        RepeatMode::Off => seq!['O', 'f', 'f'],
        RepeatMode::All => seq!['A', 'l', 'l'],
        RepeatMode::One => seq!['O', 'n', 'e'],
    }
}

impl RepeatMode {
    /// The next mode (`Off` → `All` → `One` → `Off`).
    pub fn cycle(self) -> (r: Self)
        ensures
            r == next_mode(self),
    {
        match self {
            RepeatMode::Off => RepeatMode::All,
            RepeatMode::All => RepeatMode::One,
            RepeatMode::One => RepeatMode::Off,
        }
    }

    /// The label shown in the interface (`"Off"`, `"All"`, `"One"`).
    pub fn label(self) -> (r: &'static str)
        ensures
            r@ == mode_label(self),
    {
        match self {
            RepeatMode::Off => {
                proof {
                    reveal_strlit("Off");
                }
                "Off"
            },
            RepeatMode::All => {
                proof {
                    reveal_strlit("All");
                }
                "All"
            },
            RepeatMode::One => {
                proof {
                    reveal_strlit("One");
                }
                "One"
            },
        }
    }

    /// Appends the label to `s`.
    pub fn push_label(self, s: &mut String)
        ensures
            final(s)@ == old(s)@ + mode_label(self),
    {
        push_str(s, self.label());
    }
}

impl Default for RepeatMode {
    fn default() -> (r: Self)
        ensures
            r == RepeatMode::Off,
    {
        RepeatMode::Off
    }
}

/// Cycling three times comes back to the start.
pub proof fn lemma_cycle_period(m: RepeatMode)
    ensures
        next_mode(next_mode(next_mode(m))) == m,
        next_mode(m) != m,
{
}

/// The audio player's state.
#[derive(Debug, Clone, Copy, PartialEq, Eq, Structural)]
pub enum PlayerState {
    /// Nothing loaded, or playback finished or stopped.
    Stopped,
    /// Playing.
    Playing,
    /// Paused.
    Paused,
}

/// Whole state of the application, handed to the event loop as `&mut AppState`.
pub struct AppState {
    /// The scanned tracks.
    tracks: Vec<TrackInfo>,
    /// Cursor position (0-based).
    selected: usize,
    /// The directory scanned at start-up.
    source_dir: String,
    playing_index: Option<usize>,
    player_state: PlayerState,
    /// The last error message.
    last_error: Option<String>,
    error_since: Option<std::time::Instant>,
    /// An information message.
    info_msg: Option<String>,
    info_since: Option<std::time::Instant>,
    playlist: Vec<usize>,
    /// Repeat mode.
    repeat: RepeatMode,
    playback_started_at: Option<std::time::Instant>,
    /// Volume in percent (0 to 200, 100 by default), in steps of 5.
    volume: u32,
    /// Shuffle playback.
    shuffle: bool,
}

/// How long an error message stays, in milliseconds.
pub const ERROR_MILLIS: u128 = 5000;

/// How long an information message stays, in milliseconds.
pub const INFO_MILLIS: u128 = 3000;

/// How long after a new track starts an empty output buffer is not yet taken
/// as the end of the track, in milliseconds.
pub const SETTLE_MILLIS: u128 = 500;

/// Whether a timer that started `elapsed` milliseconds ago (`None`: not running)
/// has reached `limit`.
pub open spec fn timer_expired(elapsed: Option<u128>, limit: u128) -> bool {
    match elapsed {
        Some(e) => e >= limit,
        None => false,
    }
}

/// Decides a timer from its elapsed time (`None` when the timer is not running).
pub fn expired(elapsed: Option<u128>, limit: u128) -> (r: bool)
    ensures
        r == timer_expired(elapsed, limit),
{
    match elapsed {
        Some(e) => e >= limit,
        None => false,
    }
}

/// The uniform choice for shuffle: a draw below `shuffle_range` lands on every
/// track but the current one exactly once.
pub open spec fn shuffle_range(len: nat, current: nat) -> nat {
    if current < len {
        (len - 1) as nat
    } else {
        len
    }
}

/// The track picked by a draw: the draws from the current track on move up by one.
pub open spec fn shuffle_pick(len: nat, current: nat, draw: nat) -> nat {
    if current < len && draw >= current {
        draw + 1
    } else {
        draw
    }
}

/// The track `advance` moves to, or `None` when playback should stop. `draw`
/// only matters for shuffle with two or more tracks.
pub open spec fn next_track(
    repeat: RepeatMode,
    shuffle: bool,
    len: nat,
    playing: Option<usize>,
    selected: usize,
    draw: nat,
) -> Option<nat> {
    let base: nat = match playing {
        Some(i) => i as nat,
        None => selected as nat,
    };
    if repeat == RepeatMode::One {
        match playing {
            Some(i) => Some(i as nat),
            None => None,
        }
    } else if shuffle {
        if len == 0 {
            None
        } else if len == 1 {
            Some(0)
        } else {
            Some(shuffle_pick(len, base, draw))
        }
    } else if repeat == RepeatMode::All {
        if len == 0 {
            None
        } else {
            Some((base + 1) % len)
        }
    } else if selected + 1 < len {
        Some((selected + 1) as nat)
    } else {
        None
    }
}

/// Whether `advance` draws a random number in this state.
pub open spec fn draws(repeat: RepeatMode, shuffle: bool, len: nat) -> bool {
    repeat != RepeatMode::One && shuffle && len > 1
}

/// The 1-based positions at which `k` stands in `q`.
pub open spec fn positions(q: Seq<usize>, k: usize) -> Seq<usize>
    decreases q.len(),
{
    if q.len() == 0 {
        Seq::empty()
    } else if q.last() == k {
        positions(q.drop_last(), k).push(q.len() as usize)
    } else {
        positions(q.drop_last(), k)
    }
}

/// The paths of the playlist entries that name a track, in playlist order.
pub open spec fn queue_paths(q: Seq<usize>, tracks: Seq<TrackInfo>) -> Seq<Seq<char>>
    decreases q.len(),
{
    if q.len() == 0 {
        Seq::empty()
    } else if q.last() < tracks.len() {
        queue_paths(q.drop_last(), tracks).push(tracks[q.last() as int].path@)
    } else {
        queue_paths(q.drop_last(), tracks)
    }
}

/// The abstract state of an `AppState`: its fields as mathematical values, with
/// each message timer reduced to whether it runs.
pub struct AppModel {
    pub tracks: Seq<TrackInfo>,
    pub selected: usize,
    pub source_dir: Seq<char>,
    pub playing: Option<usize>,
    pub state: PlayerState,
    pub last_error: Option<Seq<char>>,
    pub error_timer: bool,
    pub info_msg: Option<Seq<char>>,
    pub info_timer: bool,
    pub queue: Seq<usize>,
    pub repeat: RepeatMode,
    pub start_timer: bool,
    pub volume: u32,
    pub shuffle: bool,
}

/// The text of an optional message.
pub open spec fn msg_view(m: Option<String>) -> Option<Seq<char>> {
    match m {
        Some(s) => Some(s@),
        None => None,
    }
}

impl AppModel {
    /// The playlist holds no index twice.
    pub open spec fn wf(self) -> bool {
        self.queue.no_duplicates()
    }

    /// The model with both messages and their timers cleared.
    pub open spec fn without_messages(self) -> AppModel {
        AppModel {
            last_error: None,
            error_timer: false,
            info_msg: None,
            info_timer: false,
            ..self
        }
    }

    /// The model with the error (and its timer) gone when `error_gone`, and the
    /// information message (and its timer) gone when `info_gone`.
    pub open spec fn cleared(self, error_gone: bool, info_gone: bool) -> AppModel {
        AppModel {
            last_error: if error_gone {
                None
            } else {
                self.last_error
            },
            error_timer: if error_gone {
                false
            } else {
                self.error_timer
            },
            info_msg: if info_gone {
                None
            } else {
                self.info_msg
            },
            info_timer: if info_gone {
                false
            } else {
                self.info_timer
            },
            ..self
        }
    }

    /// The track `advance` would start from: the playing one, else the cursor's.
    pub open spec fn base(self) -> nat {
        match self.playing {
            Some(i) => i as nat,
            None => self.selected as nat,
        }
    }

    /// The random range `advance` draws from in this state.
    pub open spec fn draw_range(self) -> nat {
        shuffle_range(self.tracks.len(), self.base())
    }

    /// Whether `advance` draws a random number in this state.
    pub open spec fn draws(self) -> bool {
        self::draws(self.repeat, self.shuffle, self.tracks.len())
    }

    /// The track `advance` moves to with `draw` as the random number.
    pub open spec fn next_track(self, draw: nat) -> Option<nat> {
        self::next_track(self.repeat, self.shuffle, self.tracks.len(), self.playing, self.selected, draw)
    }

    /// The model after `advance` with `draw`: the cursor on the next track, if any.
    pub open spec fn advanced(self, draw: nat) -> AppModel {
        match self.next_track(draw) {
            Some(k) => AppModel { selected: k as usize, ..self },
            None => self,
        }
    }

    /// The cursor one track down (it stays on the last track).
    pub open spec fn moved_down(self) -> AppModel {
        AppModel {
            selected: if self.selected + 1 < self.tracks.len() {
                (self.selected + 1) as usize
            } else {
                self.selected
            },
            ..self
        }
    }

    /// The cursor one track up (it stays on the first track).
    pub open spec fn moved_up(self) -> AppModel {
        AppModel {
            selected: if self.selected > 0 {
                (self.selected - 1) as usize
            } else {
                0
            },
            ..self
        }
    }

    /// With an information message shown.
    pub open spec fn with_info(self, m: Seq<char>) -> AppModel {
        AppModel { info_msg: Some(m), info_timer: true, ..self }
    }

    /// With an error message shown.
    pub open spec fn with_error(self, m: Seq<char>) -> AppModel {
        AppModel { last_error: Some(m), error_timer: true, ..self }
    }

    /// Playing the cursor's track.
    pub open spec fn playing_selected(self) -> AppModel {
        AppModel {
            playing: Some(self.selected),
            state: PlayerState::Playing,
            start_timer: true,
            ..self
        }
    }

    /// Stopped.
    pub open spec fn stopped(self) -> AppModel {
        AppModel { playing: None, state: PlayerState::Stopped, start_timer: false, ..self }
    }

    /// Paused.
    pub open spec fn paused(self) -> AppModel {
        AppModel { state: PlayerState::Paused, start_timer: false, ..self }
    }

    /// Playing on after a pause.
    pub open spec fn resumed(self) -> AppModel {
        AppModel { state: PlayerState::Playing, ..self }
    }

    /// With a new track list, everything about playback, the playlist and the
    /// messages reset.
    pub open spec fn reloaded(self, tracks: Seq<TrackInfo>) -> AppModel {
        AppModel {
            tracks: tracks,
            selected: 0,
            playing: None,
            state: PlayerState::Stopped,
            start_timer: false,
            queue: Seq::empty(),
            last_error: None,
            error_timer: false,
            info_msg: None,
            info_timer: false,
            ..self
        }
    }

    /// The volume after one step up.
    pub open spec fn louder(self) -> AppModel {
        AppModel {
            volume: if self.volume + 5 <= 200 {
                (self.volume + 5) as u32
            } else {
                200
            },
            ..self
        }
    }

    /// The volume after one step down.
    pub open spec fn quieter(self) -> AppModel {
        AppModel {
            volume: if self.volume >= 5 {
                (self.volume - 5) as u32
            } else {
                0
            },
            ..self
        }
    }
}

impl View for AppState {
    type V = AppModel;

    closed spec fn view(&self) -> AppModel {
        AppModel {
            tracks: self.tracks@,
            selected: self.selected,
            source_dir: self.source_dir@,
            playing: self.playing_index,
            state: self.player_state,
            last_error: msg_view(self.last_error),
            error_timer: self.error_since is Some,
            info_msg: msg_view(self.info_msg),
            info_timer: self.info_since is Some,
            queue: self.playlist@,
            repeat: self.repeat,
            start_timer: self.playback_started_at is Some,
            volume: self.volume,
            shuffle: self.shuffle,
        }
    }
}

impl AppState {
    /// A fresh state for `tracks` scanned from `source_dir`: cursor on the first
    /// track, stopped, no messages, empty playlist, repeat off, volume 100%,
    /// shuffle off.
    pub fn new(tracks: Vec<TrackInfo>, source_dir: String) -> (s: Self)
        ensures
            s@ == (AppModel {
                tracks: tracks@,
                selected: 0,
                source_dir: source_dir@,
                playing: None,
                state: PlayerState::Stopped,
                last_error: None,
                error_timer: false,
                info_msg: None,
                info_timer: false,
                queue: Seq::empty(),
                repeat: RepeatMode::Off,
                start_timer: false,
                volume: 100,
                shuffle: false,
            }),
            s@.wf(),
    {
        let s = AppState {
            tracks,
            selected: 0,
            source_dir,
            playing_index: None,
            player_state: PlayerState::Stopped,
            last_error: None,
            error_since: None,
            info_msg: None,
            info_since: None,
            playlist: Vec::new(),
            repeat: RepeatMode::Off,
            playback_started_at: None,
            volume: 100,
            shuffle: false,
        };
        assert(s@.queue =~= Seq::<usize>::empty());
        s
    }

    /// The tracks.
    pub fn tracks(&self) -> (r: &Vec<TrackInfo>)
        ensures
            r@ == self@.tracks,
    {
        &self.tracks
    }

    /// The cursor position.
    pub fn selected(&self) -> (r: usize)
        ensures
            r == self@.selected,
    {
        self.selected
    }

    /// Puts the cursor on `i`.
    pub fn set_selected(&mut self, i: usize)
        ensures
            final(self)@ == (AppModel { selected: i, ..old(self)@ }),
    {
        self.selected = i;
    }

    /// The start-up directory.
    pub fn source_dir(&self) -> (r: &String)
        ensures
            r@ == self@.source_dir,
    {
        &self.source_dir
    }

    /// The repeat mode.
    pub fn repeat(&self) -> (r: RepeatMode)
        ensures
            r == self@.repeat,
    {
        self.repeat
    }

    /// Whether shuffle is on.
    pub fn shuffle(&self) -> (r: bool)
        ensures
            r == self@.shuffle,
    {
        self.shuffle
    }

    /// The volume in percent.
    pub fn volume(&self) -> (r: u32)
        ensures
            r == self@.volume,
    {
        self.volume
    }

    /// Sets the volume in percent (as restored from the settings).
    pub fn set_volume(&mut self, v: u32)
        ensures
            final(self)@ == (AppModel { volume: v, ..old(self)@ }),
    {
        self.volume = v;
    }

    /// Sets the repeat mode (as restored from the settings).
    pub fn set_repeat(&mut self, m: RepeatMode)
        ensures
            final(self)@ == (AppModel { repeat: m, ..old(self)@ }),
    {
        self.repeat = m;
    }

    /// Turns shuffle on or off (as restored from the settings).
    pub fn set_shuffle(&mut self, on: bool)
        ensures
            final(self)@ == (AppModel { shuffle: on, ..old(self)@ }),
    {
        self.shuffle = on;
    }

    /// The information message, if one is shown.
    pub fn info_message(&self) -> (r: Option<&String>)
        ensures
            match r {
                Some(m) => self@.info_msg == Some(m@),
                None => self@.info_msg is None,
            },
    {
        match &self.info_msg {
            Some(m) => Some(m),
            None => None,
        }
    }

    /// The error message, if one is shown.
    pub fn error_message(&self) -> (r: Option<&String>)
        ensures
            match r {
                Some(m) => self@.last_error == Some(m@),
                None => self@.last_error is None,
            },
    {
        match &self.last_error {
            Some(m) => Some(m),
            None => None,
        }
    }

    /// Whether an information message is shown.
    pub fn has_info(&self) -> (r: bool)
        ensures
            r == self@.info_msg is Some,
    {
        self.info_msg.is_some()
    }

    /// Whether an error message is shown.
    pub fn has_error(&self) -> (r: bool)
        ensures
            r == self@.last_error is Some,
    {
        self.last_error.is_some()
    }

    /// Moves the cursor down one track; stays on the last one.
    pub fn next(&mut self)
        ensures
            final(self)@ == (AppModel {
                selected: if old(self)@.selected + 1 < old(self)@.tracks.len() {
                    (old(self)@.selected + 1) as usize
                } else {
                    old(self)@.selected
                },
                ..old(self)@
            }),
    {
        if self.selected < self.tracks.len() && self.tracks.len() - self.selected > 1 {
            self.selected = self.selected + 1;
        }
    }

    /// Moves the cursor up one track; stays on the first one.
    pub fn prev(&mut self)
        ensures
            final(self)@ == (AppModel {
                selected: if old(self)@.selected > 0 {
                    (old(self)@.selected - 1) as usize
                } else {
                    0
                },
                ..old(self)@
            }),
    {
        if self.selected > 0 {
            self.selected = self.selected - 1;
        }
    }

    /// The track being played (not the one under the cursor).
    pub fn current(&self) -> (r: Option<&TrackInfo>)
        ensures
            r == (match self@.playing {
                Some(i) => if i < self@.tracks.len() {
                    Some(&self@.tracks[i as int])
                } else {
                    None
                },
                None => None,
            }),
    {
        match self.playing_index {
            Some(i) => if i < self.tracks.len() {
                Some(&self.tracks[i])
            } else {
                None
            },
            None => None,
        }
    }

    /// The index of the track being played; `None` when stopped.
    pub fn playing_index(&self) -> (r: Option<usize>)
        ensures
            r == self@.playing,
    {
        self.playing_index
    }

    /// The player state.
    pub fn player_state(&self) -> (r: PlayerState)
        ensures
            r == self@.state,
    {
        self.player_state
    }

    /// A new track starts: the cursor's track becomes the playing one, and the
    /// start time is kept to tell a just-loaded buffer from a finished one.
    pub fn set_playing(&mut self)
        ensures
            final(self)@ == (AppModel {
                playing: Some(old(self)@.selected),
                state: PlayerState::Playing,
                start_timer: true,
                ..old(self)@
            }),
    {
        self.playing_index = Some(self.selected);
        self.player_state = PlayerState::Playing;
        self.playback_started_at = Some(now());
    }

    /// Resumes after a pause: the same track plays on, and the start time is left
    /// as it is (resuming loads nothing).
    pub fn set_resumed(&mut self)
        ensures
            final(self)@ == (AppModel { state: PlayerState::Playing, ..old(self)@ }),
    {
        self.player_state = PlayerState::Playing;
    }

    /// Pauses; the start timer stops.
    pub fn set_paused(&mut self)
        ensures
            final(self)@ == (AppModel {
                state: PlayerState::Paused,
                start_timer: false,
                ..old(self)@
            }),
    {
        self.player_state = PlayerState::Paused;
        self.playback_started_at = None;
    }

    /// Stops; no track is playing any more.
    pub fn set_stopped(&mut self)
        ensures
            final(self)@ == (AppModel {
                playing: None,
                state: PlayerState::Stopped,
                start_timer: false,
                ..old(self)@
            }),
    {
        self.playing_index = None;
        self.player_state = PlayerState::Stopped;
        self.playback_started_at = None;
    }

    /// Replaces the track list when another source is loaded and resets the play
    /// state, the playlist and the messages. Stopping the player is the caller's
    /// task.
    pub fn replace_tracks(&mut self, tracks: Vec<TrackInfo>)
        ensures
            final(self)@ == (AppModel {
                tracks: tracks@,
                selected: 0,
                playing: None,
                state: PlayerState::Stopped,
                start_timer: false,
                queue: Seq::empty(),
                last_error: None,
                error_timer: false,
                info_msg: None,
                info_timer: false,
                ..old(self)@
            }),
            final(self)@.wf(),
    {
        self.tracks = tracks;
        self.selected = 0;
        self.playing_index = None;
        self.player_state = PlayerState::Stopped;
        self.playback_started_at = None;
        self.playlist.clear();
        self.last_error = None;
        self.error_since = None;
        self.info_msg = None;
        self.info_since = None;
        assert(self@.queue =~= Seq::<usize>::empty());
    }

    /// Whether at least half a second has passed since the last track started
    /// (always, when no start time is kept). Guards against taking the output
    /// buffer, empty for a moment after loading, as a finished track.
    pub fn is_playback_settled(&self) -> (r: bool)
        ensures
            !self@.start_timer ==> r,
    {
        match &self.playback_started_at {
            Some(t) => self.settled_after(elapsed_millis(t)),
            None => true,
        }
    }

    /// Whether playback has settled when `elapsed_ms` milliseconds have passed
    /// since the last track started: always when no start time is kept, otherwise
    /// once `SETTLE_MILLIS` have passed.
    pub fn settled_after(&self, elapsed_ms: u128) -> (r: bool)
        ensures
            r == (!self@.start_timer || elapsed_ms >= SETTLE_MILLIS),
    {
        match &self.playback_started_at {
            Some(_) => expired(Some(elapsed_ms), SETTLE_MILLIS),
            None => true,
        }
    }

    /// Adds the cursor's track to the playlist; `true` when it was added, `false`
    /// when it was already there.
    pub fn playlist_add_selected(&mut self) -> (r: bool)
        ensures
            r == !old(self)@.queue.contains(old(self)@.selected),
            final(self)@ == (AppModel {
                queue: if r {
                    old(self)@.queue.push(old(self)@.selected)
                } else {
                    old(self)@.queue
                },
                ..old(self)@
            }),
            old(self)@.wf() ==> final(self)@.wf(),
    {
        let n = self.playlist.len();
        let mut i: usize = 0;
        while i < n
            invariant
                i <= n,
                n == self.playlist@.len(),
                forall|j: int| 0 <= j < i ==> self.playlist@[j] != self.selected,
            decreases n - i,
        {
            if self.playlist[i] == self.selected {
                assert(self.playlist@[i as int] == self.selected);
                return false;
            }
            i = i + 1;
        }
        let ghost q = self.playlist@;
        self.playlist.push(self.selected);
        proof {
            assert(!q.contains(self.selected));
            if q.no_duplicates() {
                assert forall|a: int, b: int|
                    0 <= a < b < self.playlist@.len() implies self.playlist@[a]
                    != self.playlist@[b] by {
                    if b == q.len() {
                        assert(self.playlist@[a] == q[a]);
                    } else {
                        assert(self.playlist@[a] == q[a] && self.playlist@[b] == q[b]);
                    }
                }
            }
        }
        true
    }

    /// Empties the playlist.
    pub fn clear_playlist(&mut self)
        ensures
            final(self)@ == (AppModel { queue: Seq::empty(), ..old(self)@ }),
            final(self)@.wf(),
    {
        self.playlist.clear();
        assert(self@.queue =~= Seq::<usize>::empty());
    }

    /// Number of playlist entries.
    pub fn playlist_len(&self) -> (r: usize)
        ensures
            r == self@.queue.len(),
    {
        self.playlist.len()
    }

    /// Whether the playlist is empty.
    pub fn playlist_is_empty(&self) -> (r: bool)
        ensures
            r == (self@.queue.len() == 0),
    {
        self.playlist.len() == 0
    }

    /// The paths of the playlist's tracks, in playlist order (entries that name no
    /// track are skipped).
    pub fn playlist_paths(&self) -> (r: Vec<String>)
        ensures
            r@.map_values(|p: String| p@) == queue_paths(self@.queue, self@.tracks),
    {
        let mut out: Vec<String> = Vec::new();
        let n = self.playlist.len();
        let mut i: usize = 0;
        while i < n
            invariant
                i <= n,
                n == self.playlist@.len(),
                out@.map_values(|p: String| p@) == queue_paths(
                    self.playlist@.take(i as int),
                    self.tracks@,
                ),
            decreases n - i,
        {
            let k = self.playlist[i];
            assert(self.playlist@.take(i + 1).drop_last() =~= self.playlist@.take(i as int));
            if k < self.tracks.len() {
                let p = self.tracks[k].path.clone();
                out.push(p);
                assert(out@.map_values(|p: String| p@) =~= queue_paths(
                    self.playlist@.take(i as int),
                    self.tracks@,
                ).push(self.tracks@[k as int].path@));
            }
            i = i + 1;
        }
        assert(self.playlist@.take(n as int) =~= self.playlist@);
        out
    }

    /// For each track in the playlist, its 1-based playlist positions. Built in
    /// one pass so that drawing need not scan the playlist for every row.
    pub fn playlist_badge_map(&self) -> (m: std::collections::HashMap<usize, Vec<usize>>)
        ensures
            forall|k: usize| #[trigger] m@.contains_key(k) <==> self@.queue.contains(k),
            forall|k: usize| #[trigger]
                m@.contains_key(k) ==> m@[k]@ == positions(self@.queue, k),
    {
        broadcast use vstd::std_specs::hash::group_hash_axioms;

        let mut map: std::collections::HashMap<usize, Vec<usize>> =
            std::collections::HashMap::new();
        let n = self.playlist.len();
        let mut pos: usize = 0;
        while pos < n
            invariant
                pos <= n,
                n == self.playlist@.len(),
                forall|k: usize| #[trigger]
                    map@.contains_key(k) <==> self.playlist@.take(pos as int).contains(k),
                forall|k: usize| #[trigger]
                    map@.contains_key(k) ==> map@[k]@ == positions(
                        self.playlist@.take(pos as int),
                        k,
                    ),
            decreases n - pos,
        {
            let idx = self.playlist[pos];
            let ghost before = map@;
            let ghost q = self.playlist@.take(pos as int);
            let ghost q1 = self.playlist@.take(pos + 1);
            assert(q1.drop_last() =~= q);
            assert(q1.last() == idx);
            let entry = match map.remove(&idx) {
                Some(mut v) => {
                    v.push(pos + 1);
                    v
                },
                None => {
                    let mut v: Vec<usize> = Vec::new();
                    v.push(pos + 1);
                    v
                },
            };
            map.insert(idx, entry);
            proof {
                if !q.contains(idx) {
                    lemma_positions_absent(q, idx);
                }
                assert forall|k: usize| q1.contains(k) implies #[trigger] map@.contains_key(k) by {
                    if k != idx {
                        let j = choose|j: int| 0 <= j < q1.len() && q1[j] == k;
                        assert(j < q.len());
                        assert(q[j] == k);
                        assert(q.contains(k));
                    }
                }
                assert forall|k: usize| #[trigger] map@.contains_key(k) implies q1.contains(k) by {
                    if k != idx {
                        assert(before.contains_key(k));
                        let j = choose|j: int| 0 <= j < q.len() && q[j] == k;
                        assert(q1[j] == k);
                    } else {
                        assert(q1[q1.len() - 1] == idx);
                    }
                }
            }
            pos = pos + 1;
        }
        assert(self.playlist@.take(n as int) =~= self.playlist@);
        map
    }

    /// Cycles the repeat mode.
    pub fn cycle_repeat(&mut self)
        ensures
            final(self)@ == (AppModel { repeat: next_mode(old(self)@.repeat), ..old(self)@ }),
    {
        self.repeat = self.repeat.cycle();
    }

    /// Turns shuffle on or off.
    pub fn toggle_shuffle(&mut self)
        ensures
            final(self)@ == (AppModel { shuffle: !old(self)@.shuffle, ..old(self)@ }),
    {
        self.shuffle = !self.shuffle;
    }

    /// Volume up by 5 points, at most 200%.
    pub fn volume_up(&mut self)
        ensures
            final(self)@ == (AppModel {
                volume: if old(self)@.volume + 5 <= 200 {
                    (old(self)@.volume + 5) as u32
                } else {
                    200
                },
                ..old(self)@
            }),
    {
        if self.volume <= 195 {
            self.volume = self.volume + 5;
        } else {
            self.volume = 200;
        }
    }

    /// Volume down by 5 points, at least 0%.
    pub fn volume_down(&mut self)
        ensures
            final(self)@ == (AppModel {
                volume: if old(self)@.volume >= 5 {
                    (old(self)@.volume - 5) as u32
                } else {
                    0
                },
                ..old(self)@
            }),
    {
        if self.volume >= 5 {
            self.volume = self.volume - 5;
        } else {
            self.volume = 0;
        }
    }

    /// Shows an error message for five seconds.
    pub fn set_error(&mut self, msg: String)
        ensures
            final(self)@ == (AppModel {
                last_error: Some(msg@),
                error_timer: true,
                ..old(self)@
            }),
    {
        self.last_error = Some(msg);
        self.error_since = Some(now());
    }

    /// Shows an information message for three seconds.
    pub fn set_info(&mut self, msg: String)
        ensures
            final(self)@ == (AppModel { info_msg: Some(msg@), info_timer: true, ..old(self)@ }),
    {
        self.info_msg = Some(msg);
        self.info_since = Some(now());
    }

    /// Clears the information message after three seconds and the error after
    /// five. Called at the top of every frame. Whether a timer has run out depends
    /// on the clock: each message either stays as it was or, if its timer ran,
    /// goes away together with the timer.
    pub fn tick_timeouts(&mut self)
        ensures
            final(self)@ == (AppModel {
                last_error: final(self)@.last_error,
                error_timer: final(self)@.error_timer,
                info_msg: final(self)@.info_msg,
                info_timer: final(self)@.info_timer,
                ..old(self)@
            }),
            (final(self)@.last_error == old(self)@.last_error && final(self)@.error_timer
                == old(self)@.error_timer) || (old(self)@.error_timer
                && final(self)@.last_error is None && !final(self)@.error_timer),
            (final(self)@.info_msg == old(self)@.info_msg && final(self)@.info_timer
                == old(self)@.info_timer) || (old(self)@.info_timer
                && final(self)@.info_msg is None && !final(self)@.info_timer),
    {
        let error_elapsed = match &self.error_since {
            Some(t) => Some(elapsed_millis(t)),
            None => None,
        };
        let info_elapsed = match &self.info_since {
            Some(t) => Some(elapsed_millis(t)),
            None => None,
        };
        self.clear_expired(error_elapsed, info_elapsed);
    }

    /// Clears each message whose timer has run out, given the milliseconds since
    /// the error and since the information message were set (`None` for a message
    /// without a running timer): the error after `ERROR_MILLIS`, the information
    /// message after `INFO_MILLIS`. Everything else stays.
    pub fn clear_expired(&mut self, error_ms: Option<u128>, info_ms: Option<u128>)
        ensures
            final(self)@ == old(self)@.cleared(
                timer_expired(error_ms, ERROR_MILLIS),
                timer_expired(info_ms, INFO_MILLIS),
            ),
    {
        if expired(error_ms, ERROR_MILLIS) {
            self.last_error = None;
            self.error_since = None;
        }
        if expired(info_ms, INFO_MILLIS) {
            self.info_msg = None;
            self.info_since = None;
        }
    }

    /// Clears both messages.
    pub fn clear_messages(&mut self)
        ensures
            final(self)@ == old(self)@.without_messages(),
    {
        self.last_error = None;
        self.error_since = None;
        self.info_msg = None;
        self.info_since = None;
    }

    /// Moves to the next track after the current one ends, with `draw` as the
    /// random number for shuffle:
    /// repeat `One` stays on the playing track (false when nothing plays);
    /// otherwise shuffle picks any other track (the only one, for a single track);
    /// otherwise `All` goes on from the playing track, wrapping around;
    /// otherwise the cursor moves down, and the end of the list stops playback.
    /// Returns whether there is a track to play, which the cursor is then on.
    pub fn advance_with(&mut self, draw: usize) -> (r: bool)
        requires
            old(self)@.draws() ==> draw < old(self)@.draw_range(),
        ensures
            r == old(self)@.next_track(draw as nat) is Some,
            final(self)@ == old(self)@.advanced(draw as nat),
    {
        if self.repeat == RepeatMode::One {
            match self.playing_index {
                Some(idx) => {
                    self.selected = idx;
                    return true;
                },
                None => {
                    return false;
                },
            }
        }
        let len = self.tracks.len();
        if self.shuffle {
            if len == 0 {
                return false;
            }
            let current = match self.playing_index {
                Some(i) => i,
                None => self.selected,
            };
            if len == 1 {
                self.selected = 0;
            } else if current < len && draw >= current {
                self.selected = draw + 1;
            } else {
                self.selected = draw;
            }
            return true;
        }
        if self.repeat == RepeatMode::All {
            if len == 0 {
                return false;
            }
            let base = match self.playing_index {
                Some(i) => i,
                None => self.selected,
            };
            let step = base % len;
            if step + 1 == len {
                self.selected = 0;
            } else {
                self.selected = step + 1;
            }
            proof {
                lemma_wrap_next(base as nat, len as nat);
            }
            return true;
        }
        if self.selected < len && len - self.selected > 1 {
            self.selected = self.selected + 1;
            true
        } else {
            false
        }
    }

    /// Moves to the next track after the current one ends (see `advance_with`);
    /// shuffle draws its number at random. Without a draw the result is exactly
    /// `advance_with`'s; with one, the cursor lands on some other track.
    pub fn advance(&mut self) -> (r: bool)
        ensures
            !old(self)@.draws() ==> r == old(self)@.next_track(0) is Some && final(self)@
                == old(self)@.advanced(0),
            old(self)@.draws() ==> r && final(self)@ == (AppModel {
                selected: final(self)@.selected,
                ..old(self)@
            }) && final(self)@.selected < old(self)@.tracks.len() && final(self)@.selected
                != old(self)@.base(),
            old(self)@.draws() ==> exists|d: nat|
                d < old(self)@.draw_range() && r == old(self)@.next_track(d) is Some
                    && final(self)@ == old(self)@.advanced(d),
    {
        let mut draw: usize = 0;
        if self.repeat != RepeatMode::One && self.shuffle && self.tracks.len() > 1 {
            let current = match self.playing_index {
                Some(i) => i,
                None => self.selected,
            };
            let range = if current < self.tracks.len() {
                self.tracks.len() - 1
            } else {
                self.tracks.len()
            };
            draw = random_below(range);
        }
        let r = self.advance_with(draw);
        assert(old(self)@.draws() ==> draw < old(self)@.draw_range());
        r
    }
}

proof fn lemma_wrap_next(base: nat, len: nat)
    requires
        len > 0,
    ensures
        (if (base % len) + 1 == len {
            0
        } else {
            (base % len) + 1
        }) == (base + 1) % len,
{
    vstd::arithmetic::div_mod::lemma_add_mod_noop(base as int, 1, len as int);
    vstd::arithmetic::div_mod::lemma_mod_bound(base as int, len as int);
    if len == 1 {
        vstd::arithmetic::div_mod::lemma_mod_self_0(1);
    } else {
        vstd::arithmetic::div_mod::lemma_small_mod(1, len);
    }
    let s = (base % len) + 1;
    if s == len {
        vstd::arithmetic::div_mod::lemma_mod_self_0(len as int);
    } else {
        vstd::arithmetic::div_mod::lemma_small_mod(s as nat, len);
    }
}

/// Repeat `One` wins over shuffle: with a track playing, the next track is that
/// same track whatever shuffle and the draw are.
pub proof fn lemma_repeat_one_first(
    shuffle: bool,
    len: nat,
    playing: usize,
    selected: usize,
    draw: nat,
)
    ensures
        next_track(RepeatMode::One, shuffle, len, Some(playing), selected, draw) == Some(
            playing as nat,
        ),
{
}

/// Shuffle never repeats the track that just played when there is another one,
/// and every other track is the pick of exactly one draw.
pub proof fn lemma_shuffle_fair(len: nat, current: nat, draw: nat)
    requires
        len > 1,
        draw < shuffle_range(len, current),
    ensures
        shuffle_pick(len, current, draw) < len,
        shuffle_pick(len, current, draw) != current,
        forall|d2: nat|
            d2 < shuffle_range(len, current) && shuffle_pick(len, current, d2) == shuffle_pick(
                len,
                current,
                draw,
            ) ==> d2 == draw,
{
}

/// With repeat `All` and at least one track, playback never stops, and the list
/// is walked in order from the playing track.
pub proof fn lemma_repeat_all_loops(len: nat, playing: Option<usize>, selected: usize, draw: nat)
    requires
        len > 0,
    ensures
        next_track(RepeatMode::All, false, len, playing, selected, draw) is Some,
        next_track(RepeatMode::All, false, len, playing, selected, draw)->0 < len,
{
}

proof fn lemma_positions_absent(q: Seq<usize>, k: usize)
    requires
        !q.contains(k),
    ensures
        positions(q, k) == Seq::<usize>::empty(),
    decreases q.len(),
{
    if q.len() > 0 {
        assert(!q.drop_last().contains(k)) by {
            if q.drop_last().contains(k) {
                let j = choose|j: int| 0 <= j < q.drop_last().len() && q.drop_last()[j] == k;
                assert(q[j] == k);
            }
        }
        lemma_positions_absent(q.drop_last(), k);
    }
}

/// In a playlist without repeats every track has at most one position.
pub proof fn lemma_positions_single(q: Seq<usize>, k: usize)
    requires
        q.no_duplicates(),
    ensures
        positions(q, k).len() <= 1,
    decreases q.len(),
{
    if q.len() > 0 {
        let p = q.drop_last();
        assert(p.no_duplicates()) by {
            assert forall|a: int, b: int| 0 <= a < b < p.len() implies p[a] != p[b] by {
                assert(p[a] == q[a] && p[b] == q[b]);
            }
        }
        lemma_positions_single(p, k);
        if q.last() == k {
            assert(!p.contains(k)) by {
                if p.contains(k) {
                    let j = choose|j: int| 0 <= j < p.len() && p[j] == k;
                    assert(q[j] == q[q.len() - 1]);
                }
            }
            lemma_positions_absent(p, k);
        }
    }
}

/// Adding a track that is not in the playlist (what `playlist_add_selected` does
/// when it returns `true`) gives it exactly one badge position, the new last one,
/// and leaves every other track's positions as they were.
pub proof fn lemma_add_badge(q: Seq<usize>, k: usize, j: usize)
    requires
        !q.contains(k),
        q.len() + 1 <= usize::MAX,
    ensures
        positions(q.push(k), k) == seq![(q.len() + 1) as usize],
        j != k ==> positions(q.push(k), j) == positions(q, j),
{
    assert(q.push(k).drop_last() =~= q);
    lemma_positions_absent(q, k);
    assert(positions(q.push(k), k) =~= seq![(q.len() + 1) as usize]);
}

} // verus!
