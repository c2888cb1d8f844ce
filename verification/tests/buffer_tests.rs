use hecto::buffer::Buffer;
use hecto::view::Location;

fn line_texts(b: &Buffer) -> Vec<String> {
    let mut v = Vec::new();
    for line in &b.lines {
        v.push(line.to_string());
    }
    v
}

#[test]
fn from_text_splits_on_line_feeds() {
    let b = Buffer::from_text("f", "alpha\nbeta\n");
    assert_eq!(line_texts(&b), vec!["alpha".to_string(), "beta".to_string()]);
    assert!(!b.is_modify);
    assert!(b.is_file_loaded());
}

#[test]
fn trailing_terminator_adds_no_empty_line() {
    let with = Buffer::from_text("f", "a\nb\n");
    let without = Buffer::from_text("f", "a\nb");
    assert_eq!(line_texts(&with), line_texts(&without));
}

#[test]
fn carriage_return_line_feed_is_one_terminator() {
    let b = Buffer::from_text("f", "a\r\nb\r\n");
    assert_eq!(line_texts(&b), vec!["a".to_string(), "b".to_string()]);
}

#[test]
fn empty_content_gives_empty_buffer() {
    let b = Buffer::from_text("f", "");
    assert_eq!(b.height(), 0);
    assert!(b.is_empty());
}

#[test]
fn lone_terminator_gives_one_empty_line() {
    let b = Buffer::from_text("f", "\n");
    assert_eq!(b.height(), 1);
    assert_eq!(b.lines[0].len(), 0);
}

#[test]
fn load_save_reload_yields_identical_lines() {
    let content = "alpha\nbeta\ngamma\n";
    let b = Buffer::from_text("f", content);
    let written = b.to_text();
    assert_eq!(written, content);
    let reloaded = Buffer::from_text("f", &written);
    assert_eq!(line_texts(&b), line_texts(&reloaded));
}

#[test]
fn save_appends_terminator_to_unterminated_final_line() {
    let b = Buffer::from_text("f", "a\nb");
    assert_eq!(b.to_text(), "a\nb\n");
    let reloaded = Buffer::from_text("f", &b.to_text());
    assert_eq!(line_texts(&b), line_texts(&reloaded));
}

#[test]
fn reload_after_save_normalizes_terminators_but_keeps_lines() {
    let b = Buffer::from_text("f", "a\r\nb\r\n");
    let written = b.to_text();
    assert_eq!(written, "a\nb\n");
    let reloaded = Buffer::from_text("f", &written);
    assert_eq!(line_texts(&b), line_texts(&reloaded));
}

#[test]
fn insert_char_within_a_line() {
    let mut b = Buffer::from_text("f", "ab\ncd\n");
    b.insert_char('x', Location { grapheme_index: 1, line_index: 1 });
    assert_eq!(line_texts(&b), vec!["ab".to_string(), "cxd".to_string()]);
    assert!(b.is_modify);
}

#[test]
fn insert_char_on_virtual_end_line_appends() {
    let mut b = Buffer::from_text("f", "ab\n");
    b.insert_char('x', Location { grapheme_index: 0, line_index: 1 });
    assert_eq!(line_texts(&b), vec!["ab".to_string(), "x".to_string()]);
    assert!(b.is_modify);
}

#[test]
fn insert_char_past_virtual_end_is_ignored() {
    let mut b = Buffer::from_text("f", "ab\n");
    b.insert_char('x', Location { grapheme_index: 0, line_index: 5 });
    assert_eq!(line_texts(&b), vec!["ab".to_string()]);
    assert!(!b.is_modify);
}

#[test]
fn delete_at_document_start_is_a_no_op() {
    let mut b = Buffer::from_text("f", "ab\ncd\n");
    let before = line_texts(&b);
    b.delete(Location { grapheme_index: 0, line_index: 0 });
    assert_eq!(line_texts(&b), before);
    assert_eq!(b.height(), 2);
    assert!(!b.is_modify);
}

#[test]
fn delete_within_a_line_removes_one_cluster() {
    let mut b = Buffer::from_text("f", "ab\ncd\n");
    b.delete(Location { grapheme_index: 1, line_index: 0 });
    assert_eq!(line_texts(&b), vec!["a".to_string(), "cd".to_string()]);
    assert!(b.is_modify);
}

#[test]
fn delete_at_line_end_joins_with_next_line() {
    let mut b = Buffer::from_text("f", "ab\ncd\n");
    b.delete(Location { grapheme_index: 2, line_index: 0 });
    assert_eq!(line_texts(&b), vec!["abcd".to_string()]);
    assert!(b.is_modify);
}

#[test]
fn delete_at_document_end_is_a_no_op() {
    let mut b = Buffer::from_text("f", "ab\n");
    b.delete(Location { grapheme_index: 2, line_index: 0 });
    assert_eq!(line_texts(&b), vec!["ab".to_string()]);
    assert!(!b.is_modify);
}

#[test]
fn insert_new_line_at_virtual_end_appends_empty_line() {
    let mut b = Buffer::from_text("f", "ab\ncd\n");
    let before = line_texts(&b);
    b.insert_new_line(Location { grapheme_index: 0, line_index: 2 });
    assert_eq!(b.height(), 3);
    assert_eq!(&line_texts(&b)[0..2], &before[..]);
    assert_eq!(b.lines[2].len(), 0);
    assert!(b.is_modify);
}

#[test]
fn insert_new_line_splits_a_line() {
    let mut b = Buffer::from_text("f", "abcd\n");
    b.insert_new_line(Location { grapheme_index: 2, line_index: 0 });
    assert_eq!(line_texts(&b), vec!["ab".to_string(), "cd".to_string()]);
}

#[test]
fn save_outcome_drives_modified_flag() {
    let mut b = Buffer::from_text("f", "ab\n");
    b.insert_char('x', Location { grapheme_index: 0, line_index: 0 });
    assert!(b.is_modify);
    b.save(false);
    assert!(b.is_modify);
    b.save(true);
    assert!(!b.is_modify);
}

#[test]
fn save_as_rebinds_on_success_only() {
    let mut b = Buffer::from_text("old", "ab\n");
    b.insert_char('x', Location { grapheme_index: 0, line_index: 0 });
    b.save_as("new", false);
    assert_eq!(b.file_info.path.as_deref(), Some("old"));
    assert!(b.is_modify);
    b.save_as("new", true);
    assert_eq!(b.file_info.path.as_deref(), Some("new"));
    assert!(!b.is_modify);
}
