use edit_core::line::Line;

#[test]
fn from_round_trips_ascii_text() {
    let line = Line::from("Hello, world!");
    assert_eq!(line.to_string(), "Hello, world!");
}

#[test]
fn from_round_trips_combining_marks() {
    // 'e' + combining acute: two chars, one grapheme cluster
    let line = Line::from("e\u{301}llo");
    assert_eq!(line.to_string(), "e\u{301}llo");
    assert_eq!(line.grapheme_count(), 4);
}

#[test]
fn from_round_trips_wide_text() {
    let line = Line::from("a\u{4f60}b");
    assert_eq!(line.to_string(), "a\u{4f60}b");
    assert_eq!(line.grapheme_count(), 3);
}

#[test]
fn empty_line_has_no_graphemes() {
    let line = Line::from("");
    assert_eq!(line.grapheme_count(), 0);
    assert_eq!(line.to_string(), "");
}

#[test]
fn width_until_counts_columns_not_graphemes() {
    // "a" is one column, U+4F60 is two, "b" is one
    let line = Line::from("a\u{4f60}b");
    assert_eq!(line.width_until(0), 0);
    assert_eq!(line.width_until(1), 1);
    assert_eq!(line.width_until(2), 3);
    assert_eq!(line.width_until(3), 4);
    // past the end: clamped to the full width
    assert_eq!(line.width_until(9), 4);
}

#[test]
fn width_step_is_one_or_two() {
    let line = Line::from("x\u{4f60}\u{597d}y e\u{301}");
    for i in 0..line.grapheme_count() {
        let step = line.width_until(i + 1) - line.width_until(i);
        assert!(step == 1 || step == 2, "step was {step}");
    }
}

#[test]
fn insert_char_appends_past_the_end() {
    let mut line = Line::from("ab");
    line.insert_char('c', 10);
    assert_eq!(line.to_string(), "abc");
    assert_eq!(line.grapheme_count(), 3);
}

#[test]
fn insert_char_inserts_before_index() {
    let mut line = Line::from("ac");
    line.insert_char('b', 1);
    assert_eq!(line.to_string(), "abc");
}

#[test]
fn insert_then_delete_restores_count() {
    let mut line = Line::from("hello");
    let before = line.grapheme_count();
    line.insert_char('x', 2);
    line.delete(2);
    assert_eq!(line.grapheme_count(), before);
    assert_eq!(line.to_string(), "hello");
}

#[test]
fn insert_combining_mark_merges_clusters() {
    // inserting a combining mark right after 'e' merges with it: the
    // cluster count stays put even though the text grew
    let mut line = Line::from("e");
    line.insert_char('\u{301}', 1);
    assert_eq!(line.grapheme_count(), 1);
    assert_eq!(line.to_string(), "e\u{301}");
}

#[test]
fn delete_out_of_range_is_a_no_op() {
    let mut line = Line::from("ab");
    line.delete(2);
    assert_eq!(line.to_string(), "ab");
    assert_eq!(line.grapheme_count(), 2);
}

#[test]
fn delete_removes_one_grapheme() {
    let mut line = Line::from("abc");
    line.delete(1);
    assert_eq!(line.to_string(), "ac");
}

#[test]
fn append_concatenates_text_and_counts() {
    let mut line = Line::from("ab");
    let other = Line::from("cd");
    line.append(&other);
    assert_eq!(line.to_string(), "abcd");
    assert_eq!(line.grapheme_count(), 4);
}

#[test]
fn split_returns_the_tail() {
    let mut line = Line::from("abcd");
    let tail = line.split(2);
    assert_eq!(line.to_string(), "ab");
    assert_eq!(tail.to_string(), "cd");
}

#[test]
fn split_past_the_end_returns_empty() {
    let mut line = Line::from("ab");
    let tail = line.split(5);
    assert_eq!(line.to_string(), "ab");
    assert_eq!(tail.grapheme_count(), 0);
}

#[test]
fn visible_graphemes_plain_window() {
    let line = Line::from("abcdef");
    assert_eq!(line.get_visible_graphemes(1..4), "bcd");
}

#[test]
fn visible_graphemes_empty_range() {
    let line = Line::from("abc");
    assert_eq!(line.get_visible_graphemes(2..2), "");
    assert_eq!(line.get_visible_graphemes(3..1), "");
}

#[test]
fn visible_graphemes_clips_wide_cluster_at_both_edges() {
    // two wide clusters, columns 0..4; window 1..3 cuts into both
    let line = Line::from("\u{4f60}\u{597d}");
    assert_eq!(line.get_visible_graphemes(1..3), "\u{22ef}\u{22ef}");
    assert_eq!(line.get_visible_graphemes(0..2), "\u{4f60}");
    assert_eq!(line.get_visible_graphemes(0..1), "\u{22ef}");
}

#[test]
fn zero_width_cluster_renders_substitute() {
    // a lone combining mark has display width 0 and is shown as a dot,
    // while the stored text is unaffected
    let line = Line::from("\u{301}");
    assert_eq!(line.grapheme_count(), 1);
    assert_eq!(line.to_string(), "\u{301}");
    assert_eq!(line.get_visible_graphemes(0..4), "\u{b7}");
}
