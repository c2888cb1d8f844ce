use hecto::command::{Edit, Move};
use hecto::size::Size;
use hecto::view::{Location, View};

fn view_of(content: &str, width: usize, height: usize) -> View {
    let mut v = View::default();
    v.load("f", content);
    v.resize(Size { width, height });
    v
}

#[test]
fn down_from_last_line_saturates() {
    let mut v = view_of("ab\ncd\n", 20, 10);
    v.move_text_location(Move::Down);
    v.move_text_location(Move::Down);
    assert_eq!(v.text_location, Location { grapheme_index: 0, line_index: 2 });
    v.move_text_location(Move::End);
    v.move_text_location(Move::Down);
    // The virtual line past the end has length zero, so the grapheme index
    // is clamped to it and the line index stays put.
    assert_eq!(v.text_location, Location { grapheme_index: 0, line_index: 2 });
}

#[test]
fn vertical_moves_clamp_to_destination_line() {
    let mut v = view_of("abcdef\nxy\n", 20, 10);
    v.move_text_location(Move::End);
    assert_eq!(v.text_location, Location { grapheme_index: 6, line_index: 0 });
    v.move_text_location(Move::Down);
    assert_eq!(v.text_location, Location { grapheme_index: 2, line_index: 1 });
}

#[test]
fn horizontal_scroll_makes_target_the_last_visible_column() {
    let mut v = view_of("aaaaaaaaaaaaaaa\n", 10, 5);
    v.move_text_location(Move::End);
    // Cursor column 15 against width 10: the offset becomes 15 - 10 + 1.
    assert_eq!(v.scroll_offset.col, 6);
    assert_eq!(v.text_location.grapheme_index, 15);
}

#[test]
fn scroll_follows_cursor_back_left() {
    let mut v = view_of("aaaaaaaaaaaaaaa\n", 10, 5);
    v.move_text_location(Move::End);
    v.move_text_location(Move::Home);
    assert_eq!(v.scroll_offset.col, 0);
}

#[test]
fn left_at_line_start_unwraps_to_previous_line_end() {
    let mut v = view_of("abc\nxy\n", 20, 10);
    v.move_text_location(Move::Down);
    v.move_text_location(Move::Left);
    assert_eq!(v.text_location, Location { grapheme_index: 3, line_index: 0 });
}

#[test]
fn right_at_line_end_wraps_to_next_line_start() {
    let mut v = view_of("ab\nxy\n", 20, 10);
    v.move_text_location(Move::End);
    v.move_text_location(Move::Right);
    assert_eq!(v.text_location, Location { grapheme_index: 0, line_index: 1 });
}

#[test]
fn page_down_steps_by_viewport_height_less_one() {
    let mut v = view_of("a\nb\nc\nd\ne\nf\ng\nh\n", 20, 4);
    v.move_text_location(Move::PageDown);
    assert_eq!(v.text_location.line_index, 3);
    v.move_text_location(Move::PageUp);
    assert_eq!(v.text_location.line_index, 0);
}

#[test]
fn insert_char_advances_cursor() {
    let mut v = view_of("ab\n", 20, 10);
    v.handler_edit(Edit::Insert('x'));
    assert_eq!(v.buf.lines[0].to_string(), "xab");
    assert_eq!(v.text_location, Location { grapheme_index: 1, line_index: 0 });
    assert!(v.buf.is_modify);
}

#[test]
fn inserting_a_combining_mark_does_not_advance_cursor() {
    let mut v = view_of("e\n", 20, 10);
    v.move_text_location(Move::Right);
    assert_eq!(v.text_location.grapheme_index, 1);
    // The mark merges into the preceding cluster: the line's length stays
    // one, so the cursor does not move.
    v.handler_edit(Edit::Insert('\u{301}'));
    assert_eq!(v.buf.lines[0].to_string(), "e\u{301}");
    assert_eq!(v.buf.lines[0].len(), 1);
    assert_eq!(v.text_location.grapheme_index, 1);
}

#[test]
fn backspace_at_line_start_joins_lines() {
    let mut v = view_of("ab\ncd\n", 20, 10);
    v.move_text_location(Move::Down);
    v.handler_edit(Edit::DeleteBackward);
    assert_eq!(v.buf.lines[0].to_string(), "abcd");
    assert_eq!(v.buf.height(), 1);
    assert_eq!(v.text_location, Location { grapheme_index: 2, line_index: 0 });
}

#[test]
fn backspace_at_document_start_is_a_no_op() {
    let mut v = view_of("ab\n", 20, 10);
    let modified_before = v.buf.is_modify;
    v.handler_edit(Edit::DeleteBackward);
    assert_eq!(v.buf.lines[0].to_string(), "ab");
    assert_eq!(v.buf.is_modify, modified_before);
}

#[test]
fn forward_delete_removes_cluster_under_cursor() {
    let mut v = view_of("ab\n", 20, 10);
    v.move_text_location(Move::Right);
    v.handler_edit(Edit::Delete);
    assert_eq!(v.buf.lines[0].to_string(), "a");
}

#[test]
fn newline_moves_cursor_to_new_line_start() {
    let mut v = view_of("abcd\n", 20, 10);
    v.move_text_location(Move::Right);
    v.move_text_location(Move::Right);
    v.handler_edit(Edit::InsertNewline);
    assert_eq!(v.buf.lines[0].to_string(), "ab");
    assert_eq!(v.buf.lines[1].to_string(), "cd");
    assert_eq!(v.text_location, Location { grapheme_index: 0, line_index: 1 });
}

#[test]
fn position_counts_columns_of_wide_glyphs() {
    let mut v = view_of("\u{4f60}\u{597d}ab\n", 20, 10);
    v.move_text_location(Move::Right);
    v.move_text_location(Move::Right);
    let p = v.text_location_to_postion();
    assert_eq!(p.row, 0);
    assert_eq!(p.col, 4);
}

#[test]
fn draw_shows_lines_through_the_scroll_window() {
    let mut v = view_of("abcdef\nline two\n", 4, 3);
    let rows = v.render().expect("fresh view must redraw");
    assert_eq!(rows.len(), 3);
    assert_eq!(rows[0], "abcd");
    assert_eq!(rows[1], "line");
    assert_eq!(rows[2], "~");
    assert!(v.render().is_none());
}

#[test]
fn draw_on_empty_buffer_shows_banner_a_third_down() {
    let mut v = View::default();
    v.resize(Size { width: 40, height: 6 });
    let rows = v.render().expect("fresh view must redraw");
    assert_eq!(rows.len(), 6);
    assert_eq!(rows[2], "~     hecto editor -- version 0.1.0     ");
    assert_eq!(rows[0], "~");
    assert_eq!(rows[5], "~");
}

#[test]
fn welcome_message_shapes() {
    assert_eq!(View::buid_welcome_message(0), "");
    assert_eq!(View::buid_welcome_message(5), "~");
    assert_eq!(View::buid_welcome_message(30), "~hecto editor -- version 0.1.0");
    assert_eq!(View::buid_welcome_message(31), "~hecto editor -- version 0.1.0 ");
    assert_eq!(View::buid_welcome_message(32), "~ hecto editor -- version 0.1.0 ");
}

#[test]
fn status_snapshot_reflects_document() {
    let mut v = view_of("a\nb\nc\n", 20, 10);
    v.move_text_location(Move::Down);
    let status = v.get_status();
    assert_eq!(status.current_line, 1);
    assert_eq!(status.total_line, 3);
    assert_eq!(status.filename, "f");
    assert!(!status.is_modified);
}

#[test]
fn status_filename_is_base_name_or_placeholder() {
    let v = view_of("x\n", 20, 10);
    assert_eq!(v.get_status().filename, "f");
    let v2 = view_of("x\n", 20, 10);
    drop(v2);
    let mut v3 = View::default();
    assert_eq!(v3.get_status().filename, "[No Name]");
    v3.load("dir/sub/file.txt", "x\n");
    assert_eq!(v3.get_status().filename, "file.txt");
}

#[test]
fn save_outcomes_reach_the_buffer() {
    let mut v = view_of("ab\n", 20, 10);
    v.handler_edit(Edit::Insert('x'));
    assert!(v.buf.is_modify);
    v.save(true);
    assert!(!v.buf.is_modify);
    v.handler_edit(Edit::Insert('y'));
    v.save_as("other", true);
    assert_eq!(v.buf.file_info.path.as_deref(), Some("other"));
    assert!(!v.buf.is_modify);
}
