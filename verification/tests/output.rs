use crabplay::models::TrackInfo;
use crabplay::output::{make_formatter, JsonFormatter, OutputFormatter, TextFormatter};

fn sample_track() -> TrackInfo {
    TrackInfo {
        path: "/music/test.mp3".to_string(),
        title: "Test Song".to_string(),
        artist: "Artist".to_string(),
        album: "Album".to_string(),
        duration_secs: 183,
    }
}

#[test]
fn text_formatter_formats_track() {
    let result = TextFormatter.format_track(&sample_track()).unwrap();
    assert!(result.contains("Test Song"));
    assert!(result.contains("Artist"));
}

#[test]
fn json_formatter_produces_valid_json() {
    let result = JsonFormatter.format_track(&sample_track()).unwrap();
    let _: serde_json::Value = serde_json::from_str(&result).unwrap();
}

#[test]
fn text_line_exact() {
    assert_eq!(
        TextFormatter.format_track(&sample_track()).unwrap(),
        "[Artist] Test Song (3:03)"
    );
    let mut t = sample_track();
    t.artist = String::new();
    t.duration_secs = 3725;
    assert_eq!(TextFormatter.format_track(&t).unwrap(), "[Unknown] Test Song (62:05)");
    t.duration_secs = 0;
    assert_eq!(TextFormatter.format_track(&t).unwrap(), "[Unknown] Test Song (0:00)");
}

#[test]
fn json_fields_in_declaration_order() {
    let result = JsonFormatter.format_track(&sample_track()).unwrap();
    assert_eq!(
        result,
        "{\n  \"path\": \"/music/test.mp3\",\n  \"title\": \"Test Song\",\n  \"artist\": \"Artist\",\n  \"album\": \"Album\",\n  \"duration_secs\": 183\n}"
    );
    let v: serde_json::Value = serde_json::from_str(&result).unwrap();
    assert_eq!(v["duration_secs"], 183);
    assert_eq!(v["title"], "Test Song");
}

#[test]
fn formatter_by_name() {
    assert_eq!(make_formatter("json").format_name(), "json");
    assert_eq!(make_formatter("text").format_name(), "text");
    assert_eq!(make_formatter("xml").format_name(), "text");
    assert_eq!(TextFormatter.format_name(), "text");
    assert_eq!(JsonFormatter.format_name(), "json");
    assert_eq!(
        make_formatter("text").format_track(&sample_track()).unwrap(),
        "[Artist] Test Song (3:03)"
    );
}
