# crabplay

A terminal music player for local MP3 and FLAC files. The decisions of the
player are a library verified with Verus; the program around it does the
input and output.

## Layout

- `src/` — the verified library:
  - `app.rs`: play state, cursor, the saved playlist (no track twice), repeat,
    shuffle and volume; which messages an elapsed time clears, and which track
    comes after the current one for a given random draw. Reading the clock and
    drawing the random number are not verified; only what follows from their
    results is.
  - `config.rs`: the settings and the list of recently used directories,
    compared as paths (`pathname.rs`).
  - `cli.rs`: argument checks.
  - `output.rs`: the `--list` formats (text and JSON).
  - `playlist.rs`: playlists and safe file names for them.
  - `library/`: which files are audio files, and a track from its tags.
  - `ui/`: the key handling of every interface mode and what a track's end
    does, given whether it has ended (`keys.rs`), search and the
    source list (`tui.rs`), column layout, scrolling titles and playlist badges
    (`layout.rs`), and the texts drawn on screen (`view.rs`).
  - `text.rs`, `width.rs`: string building, trimming, searching, and display
    widths in terminal columns.
- `tests/` — tests of the library.
- `app/` — the program: argument parsing, directory scanning, tag reading,
  audio output, the settings and playlist files, and the terminal drawing loop.
