use crabplay::ui::layout::{
    build_col_table, format_queue_badge, marquee_slice, pad_display, MarqueeCache, BADGE_WIDTH,
};
use unicode_width::UnicodeWidthStr;

#[test]
fn badge_empty() {
    assert_eq!(format_queue_badge(&[]), "      ");
    assert_eq!(
        UnicodeWidthStr::width(format_queue_badge(&[]).as_str()),
        BADGE_WIDTH
    );
}

#[test]
fn badge_single() {
    assert_eq!(format_queue_badge(&[1]), "[1]   ");
    assert_eq!(
        UnicodeWidthStr::width(format_queue_badge(&[1]).as_str()),
        BADGE_WIDTH
    );
}

#[test]
fn badge_two_single_digits() {
    assert_eq!(format_queue_badge(&[1, 3]), "[1,3] ");
    assert_eq!(
        UnicodeWidthStr::width(format_queue_badge(&[1, 3]).as_str()),
        BADGE_WIDTH
    );
}

#[test]
fn badge_many() {
    let result = format_queue_badge(&[2, 4, 6]);
    assert_eq!(UnicodeWidthStr::width(result.as_str()), BADGE_WIDTH);
    assert!(result.starts_with("[2+2]"));
}

#[test]
fn marquee_ascii_scrolls_one_col_per_offset() {
    assert_eq!(marquee_slice("ABC", 0, 3), "ABC");
    assert_eq!(marquee_slice("ABC", 1, 3), "BC ");
    assert_eq!(marquee_slice("ABC", 2, 3), "C  ");
    assert_eq!(marquee_slice("ABC", 3, 3), "  A");
    assert_eq!(marquee_slice("ABC", 5, 3), "ABC");
}

#[test]
fn marquee_cjk_mid_column_becomes_space() {
    assert_eq!(marquee_slice("あ", 0, 2), "あ");
    assert_eq!(marquee_slice("あ", 1, 2), "  ");
    assert_eq!(marquee_slice("あ", 2, 2), "  ");
    assert_eq!(marquee_slice("あ", 4, 2), "あ");
}

#[test]
fn marquee_always_max_width() {
    for s in ["Hello", "あいう", "Mix混合テスト"] {
        for offset in 0..30 {
            let result = marquee_slice(s, offset, 8);
            assert_eq!(
                UnicodeWidthStr::width(result.as_str()),
                8,
                "s={s:?} offset={offset}"
            );
        }
    }
}

#[test]
fn badge_always_badge_width() {
    for positions in [vec![], vec![1], vec![1, 2], vec![1, 2, 3], vec![10, 20]] {
        assert_eq!(
            UnicodeWidthStr::width(format_queue_badge(&positions).as_str()),
            BADGE_WIDTH,
            "positions = {:?}",
            positions
        );
    }
}

// ── further cases ──────────────────────────────────────────────

#[test]
fn badge_truncates_long_positions() {
    assert_eq!(format_queue_badge(&[10, 20]), "[10+1]");
    assert_eq!(format_queue_badge(&[123456, 2]), "[12345");
    assert_eq!(format_queue_badge(&[1234]), "[1234]");
    assert_eq!(format_queue_badge(&[12345]), "[12345");
}

#[test]
fn pad_display_pads_and_cuts() {
    assert_eq!(pad_display("abc", 5), "abc  ");
    assert_eq!(pad_display("abcdef", 4), "abcd");
    assert_eq!(pad_display("あいう", 5), "あい ");
    assert_eq!(pad_display("あいう", 6), "あいう");
    assert_eq!(pad_display("", 3), "   ");
    for (s, w) in [("Mix混合テスト", 7), ("King Gnu", 12), ("米津玄師", 3)] {
        assert_eq!(UnicodeWidthStr::width(pad_display(s, w).as_str()), w);
    }
}

#[test]
fn col_table_counts_columns() {
    let (table, total) = build_col_table("aあb");
    assert_eq!(table, vec![(0, 'a', 1), (1, 'あ', 2), (3, 'b', 1)]);
    assert_eq!(total, 4);
}

#[test]
fn marquee_repeats_with_loop_width() {
    for offset in 0..12 {
        assert_eq!(marquee_slice("Hello", offset, 4), marquee_slice("Hello", offset + 7, 4));
    }
    assert_eq!(marquee_slice("", 3, 4), "    ");
}

#[test]
fn marquee_cache_matches_direct_rendering() {
    let mut cache = MarqueeCache::new();
    assert_eq!(cache.render("Hello", 3), marquee_slice("Hello", 0, 3));
    for _ in 0..4 {
        cache.step();
    }
    assert_eq!(cache.offset(), 4);
    assert_eq!(cache.render("Hello", 3), marquee_slice("Hello", 4, 3));
    assert_eq!(cache.render("Hello", 3), "o  ");
    cache.reset_offset();
    assert_eq!(cache.render("あいう", 4), "あい");
    cache.clear();
    assert_eq!(cache.offset(), 0);
    assert_eq!(cache.render("", 2), "  ");
}
