use crabplay::config::{Config, MAX_RECENT};

#[test]
fn push_recent_dir_deduplicates_and_caps() {
    let mut config = Config::default();
    for i in 0..12 {
        config.push_recent_dir(format!("/music/dir{i}"));
    }
    assert_eq!(config.recent_dirs.len(), MAX_RECENT);
    assert_eq!(config.recent_dirs[0], "/music/dir11".to_string());
}

#[test]
fn push_recent_dir_moves_existing_to_front() {
    let mut config = Config::default();
    config.push_recent_dir("/a".to_string());
    config.push_recent_dir("/b".to_string());
    config.push_recent_dir("/a".to_string());
    assert_eq!(config.recent_dirs, vec!["/a".to_string(), "/b".to_string()]);
}

#[test]
fn remove_recent_dir_removes_existing() {
    let mut config = Config::default();
    config.push_recent_dir("/a".to_string());
    config.push_recent_dir("/b".to_string());
    config.push_recent_dir("/c".to_string());
    config.remove_recent_dir(&"/b".to_string());
    assert_eq!(config.recent_dirs, vec!["/c".to_string(), "/a".to_string()]);
}

#[test]
fn remove_recent_dir_noop_if_missing() {
    let mut config = Config::default();
    config.push_recent_dir("/a".to_string());
    config.remove_recent_dir(&"/nonexistent".to_string());
    assert_eq!(config.recent_dirs, vec!["/a".to_string()]);
}

#[test]
fn config_defaults() {
    let config = Config::default();
    assert!(config.recent_dirs.is_empty());
    assert_eq!(config.volume, 100);
    assert!(!config.shuffle);
}

#[test]
fn push_recent_keeps_order_of_others_and_no_duplicates() {
    let mut config = Config::default();
    for d in ["/x", "/y", "/z", "/y", "/w"] {
        config.push_recent_dir(d.to_string());
    }
    assert_eq!(
        config.recent_dirs,
        vec!["/w".to_string(), "/y".to_string(), "/z".to_string(), "/x".to_string()]
    );
    config.push_recent_dir("/x".to_string());
    assert_eq!(config.recent_dirs[0], "/x");
    assert_eq!(config.recent_dirs.len(), 4);
}
