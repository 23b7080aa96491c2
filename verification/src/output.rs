//! Formats for listing tracks without the interface (`--list`).
use vstd::prelude::*;

use crate::error::AppError;
use crate::models::TrackInfo;
use crate::text::{decimal, decimal2, push_char, push_decimal, push_decimal2, push_str};

verus! {

#[verifier::external_type_specification]
#[verifier::external_body]
pub struct ExJsonError(serde_json::Error);

/// What `serde_json::to_string_pretty` gives for a JSON object with the members
/// `path`, `title`, `artist`, `album` (strings) and `duration_secs` (a number), in
/// that order.
pub uninterp spec fn track_json(
    path: Seq<char>,
    title: Seq<char>,
    artist: Seq<char>,
    album: Seq<char>,
    duration_secs: u64,
) -> Seq<char>;

/// `serde_json::to_string_pretty` of the track's fields as an object whose
/// members keep their insertion order (the `preserve_order` feature), which is the
/// order a derived `Serialize` writes a struct's fields in. Writing a value made of
/// strings and a number into a `Vec` cannot fail: serde_json reports errors only
/// from the writer, from map keys that are not strings, and from a `Serialize` impl
/// of the caller's, none of which occur here.
#[verifier::external_body]
fn pretty_track_json(
    path: &str,
    title: &str,
    artist: &str,
    album: &str,
    duration_secs: u64,
) -> (r: Result<String, serde_json::Error>)
    ensures
        r is Ok,
        r matches Ok(s) ==> s@ == track_json(path@, title@, artist@, album@, duration_secs),
{
    let mut m = serde_json::Map::new();
    m.insert("path".to_string(), serde_json::Value::from(path));
    m.insert("title".to_string(), serde_json::Value::from(title));
    m.insert("artist".to_string(), serde_json::Value::from(artist));
    m.insert("album".to_string(), serde_json::Value::from(album));
    m.insert("duration_secs".to_string(), serde_json::Value::from(duration_secs));
    serde_json::to_string_pretty(&serde_json::Value::Object(m))
}

/// The text of a `serde_json::Error` (its `Display`).
#[verifier::external_body]
fn json_error_text(e: &serde_json::Error) -> String {
    e.to_string()
}

/// A way of writing one track as text.
pub trait OutputFormatter {
    /// The track as text.
    fn format_track(&self, track: &TrackInfo) -> Result<String, AppError>;

    /// The name of this format (`"text"`, `"json"`).
    fn format_name(&self) -> &'static str;
}

/// `[Artist] Title (M:SS)`.
pub struct TextFormatter;

/// The artist as listed: `Unknown` when the tags have none.
pub open spec fn shown_artist(artist: Seq<char>) -> Seq<char> {
    if artist.len() == 0 {
        "Unknown"@
    } else {
        artist
    }
}

/// The text format of a track: `[artist] title (minutes:seconds)`, seconds with two
/// digits.
pub open spec fn text_line(t: TrackInfo) -> Seq<char> {
    seq!['['] + shown_artist(t.artist@) + seq![']', ' '] + t.title@ + seq![' ', '('] + decimal(
        (t.duration_secs / 60) as nat,
    ) + seq![':'] + decimal2((t.duration_secs % 60) as nat) + seq![')']
}

impl TextFormatter {
    /// The text line of a track; never fails.
    pub fn line(&self, track: &TrackInfo) -> (r: String)
        ensures
            r@ == text_line(*track),
    {
        let mut s = String::new();
        push_char(&mut s, '[');
        if track.artist.as_str().is_empty() {
            push_str(&mut s, "Unknown");
        } else {
            push_str(&mut s, track.artist.as_str());
        }
        push_char(&mut s, ']');
        push_char(&mut s, ' ');
        push_str(&mut s, track.title.as_str());
        push_char(&mut s, ' ');
        push_char(&mut s, '(');
        push_decimal(&mut s, track.duration_secs / 60);
        push_char(&mut s, ':');
        push_decimal2(&mut s, track.duration_secs % 60);
        push_char(&mut s, ')');
        assert(s@ =~= text_line(*track));
        s
    }
}

impl OutputFormatter for TextFormatter {
    fn format_track(&self, track: &TrackInfo) -> (r: Result<String, AppError>)
        ensures
            r matches Ok(s) && s@ == text_line(*track),
    {
        Ok(self.line(track))
    }

    fn format_name(&self) -> (r: &'static str)
        ensures
            r@ == "text"@,
    {
        "text"
    }
}

/// Pretty-printed JSON of the track's fields.
pub struct JsonFormatter;

impl OutputFormatter for JsonFormatter {
    fn format_track(&self, track: &TrackInfo) -> (r: Result<String, AppError>)
        ensures
            r matches Ok(s) && s@ == track_json(
                track.path@,
                track.title@,
                track.artist@,
                track.album@,
                track.duration_secs,
            ),
    {
        match pretty_track_json(
            track.path.as_str(),
            track.title.as_str(),
            track.artist.as_str(),
            track.album.as_str(),
            track.duration_secs,
        ) {
            Ok(s) => Ok(s),
            Err(e) => {
                let mut m = String::new();
                push_str(&mut m, "JSON serialization failed: ");
                let detail = json_error_text(&e);
                push_str(&mut m, detail.as_str());
                Err(AppError::Other(m))
            },
        }
    }

    fn format_name(&self) -> (r: &'static str)
        ensures
            r@ == "json"@,
    {
        "json"
    }
}

/// One of the listing formats.
pub enum Formatter {
    /// `[Artist] Title (M:SS)`.
    Text(TextFormatter),
    /// Pretty-printed JSON.
    Json(JsonFormatter),
}

impl OutputFormatter for Formatter {
    fn format_track(&self, track: &TrackInfo) -> (r: Result<String, AppError>)
        ensures
            self is Text ==> (r matches Ok(s) && s@ == text_line(*track)),
            self is Json ==> (r matches Ok(s) && s@ == track_json(
                track.path@,
                track.title@,
                track.artist@,
                track.album@,
                track.duration_secs,
            )),
    {
        match self {
            Formatter::Text(f) => f.format_track(track),
            Formatter::Json(f) => f.format_track(track),
        }
    }

    fn format_name(&self) -> (r: &'static str)
        ensures
            self is Text ==> r@ == "text"@,
            self is Json ==> r@ == "json"@,
    {
        match self {
            Formatter::Text(f) => f.format_name(),
            Formatter::Json(f) => f.format_name(),
        }
    }
}

/// The formatter for a format name: JSON for `"json"`, text for anything else.
pub fn make_formatter(format: &str) -> (r: Formatter)
    ensures
        r is Json <==> format@ == "json"@,
        r is Text <==> format@ != "json"@,
{
    if crate::text::text_eq(format, "json") {
        Formatter::Json(JsonFormatter)
    } else {
        Formatter::Text(TextFormatter)
    }
}

} // verus!
