use hecto::line::Line;

#[test]
fn combining_mark_is_one_cluster() {
    // A base letter followed by a combining acute accent is one grapheme.
    let line = Line::from("e\u{301}");
    assert_eq!(line.len(), 1);
}

#[test]
fn several_combining_sequences() {
    let line = Line::from("a\u{310}e\u{301}o\u{308}\u{332}");
    assert_eq!(line.len(), 3);
    assert_eq!(line.to_string(), "a\u{310}e\u{301}o\u{308}\u{332}");
}

#[test]
fn get_full_range_reproduces_narrow_text() {
    let line = Line::from("hello");
    assert_eq!(line.len(), 5);
    assert_eq!(line.get(0..5), "hello");
}

#[test]
fn insert_then_delete_restores_ascii_line() {
    let mut line = Line::from("hello");
    line.intert_char('x', 2);
    assert_eq!(line.to_string(), "hexllo");
    assert_eq!(line.len(), 6);
    line.delete(2);
    assert_eq!(line.to_string(), "hello");
    assert_eq!(line.len(), 5);
    assert_eq!(line.get(0..5), "hello");
}

#[test]
fn insert_at_end_appends() {
    let mut line = Line::from("ab");
    line.intert_char('c', 7);
    assert_eq!(line.to_string(), "abc");
}

#[test]
fn split_then_append_reconstructs_line() {
    let mut line = Line::from("h\u{e9}llo\u{4f60}\u{597d}");
    let original = line.to_string();
    let original_len = line.len();
    let rest = line.split(3);
    assert_eq!(line.len(), 3);
    line.append(&rest);
    assert_eq!(line.to_string(), original);
    assert_eq!(line.len(), original_len);
}

#[test]
fn split_past_end_returns_empty_line() {
    let mut line = Line::from("ab");
    let rest = line.split(5);
    assert_eq!(rest.len(), 0);
    assert_eq!(line.len(), 2);
    assert_eq!(line.to_string(), "ab");
}

#[test]
fn append_can_merge_clusters_across_join() {
    let mut line = Line::from("e");
    let other = Line::from("\u{301}");
    line.append(&other);
    assert_eq!(line.len(), 1);
    assert_eq!(line.to_string(), "e\u{301}");
}

#[test]
fn wide_glyph_straddling_right_edge_is_ellipsis() {
    // Each ideograph takes two columns: the first covers [0,2), the second [2,4).
    let line = Line::from("\u{4f60}\u{597d}");
    assert_eq!(line.get(0..3), "\u{4f60}\u{22ef}");
}

#[test]
fn wide_glyph_straddling_left_edge_is_ellipsis() {
    let line = Line::from("\u{4f60}\u{597d}");
    assert_eq!(line.get(1..4), "\u{22ef}\u{597d}");
}

#[test]
fn wide_glyph_cut_on_both_sides() {
    let line = Line::from("\u{4f60}\u{597d}");
    assert_eq!(line.get(0..1), "\u{22ef}");
    assert_eq!(line.get(1..3), "\u{22ef}\u{22ef}");
}

#[test]
fn reversed_or_empty_range_draws_nothing() {
    let line = Line::from("abc");
    assert_eq!(line.get(2..1), "");
    assert_eq!(line.get(1..1), "");
}

#[test]
fn tab_is_replaced_by_a_space() {
    let line = Line::from("\t");
    assert_eq!(line.len(), 1);
    assert_eq!(line.get(0..1), " ");
    assert_eq!(line.to_string(), "\t");
}

#[test]
fn literal_space_stands_as_itself() {
    let line = Line::from(" ");
    assert_eq!(line.get(0..1), " ");
}

#[test]
fn control_character_gets_marker() {
    // The line feed is the one control character the width tables measure
    // at zero columns, so it draws as the control marker.
    let line = Line::from("\n");
    assert_eq!(line.len(), 1);
    assert_eq!(line.get(0..1), "\u{25af}");
}

#[test]
fn control_character_of_nonzero_width_is_verbatim() {
    // The width tables give other control characters one column, so the
    // zero-width rule does not fire for them.
    let line = Line::from("\u{7}");
    assert_eq!(line.len(), 1);
    assert_eq!(line.get(0..1), "\u{7}");
}

#[test]
fn zero_width_cluster_gets_dot_marker() {
    let line = Line::from("\u{200b}");
    assert_eq!(line.len(), 1);
    assert_eq!(line.get(0..1), "\u{b7}");
}

#[test]
fn visible_whitespace_gets_open_box() {
    let line = Line::from("\u{a0}");
    assert_eq!(line.get(0..1), "\u{2423}");
}

#[test]
fn width_until_counts_columns_not_clusters() {
    let line = Line::from("a\u{4f60}b");
    assert_eq!(line.width_until(0), 0);
    assert_eq!(line.width_until(1), 1);
    assert_eq!(line.width_until(2), 3);
    assert_eq!(line.width_until(3), 4);
    assert_eq!(line.width_until(10), 4);
    assert_eq!(line.width(), 4);
}

#[test]
fn append_char_and_delete_last() {
    let mut line = Line::from("ab");
    line.append_char('c');
    assert_eq!(line.to_string(), "abc");
    line.delete_last();
    assert_eq!(line.to_string(), "ab");
    let mut empty = Line::from("");
    empty.delete_last();
    assert_eq!(empty.len(), 0);
}
