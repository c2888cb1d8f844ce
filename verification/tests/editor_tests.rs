use hecto::command::{Command, Edit, Move, System};
use hecto::documentstatus::DocumentStatus;
use hecto::editor::{Editor, EditorAction};
use hecto::messagebar::MessageBar;
use hecto::size::Size;

fn editor_with(content: &str) -> Editor {
    let mut e = Editor::default();
    e.process_command(Command::System(System::Resize(Size { width: 40, height: 12 })), 0);
    e.view.load("f", content);
    e
}

fn message_text(e: &Editor) -> String {
    e.message_bar.message.content.clone()
}

#[test]
fn resize_lays_out_view_and_bars() {
    let mut e = Editor::default();
    let act = e.process_command(
        Command::System(System::Resize(Size { width: 40, height: 12 })),
        0,
    );
    assert!(matches!(act, EditorAction::Nothing));
    assert_eq!(e.terminal_size, Size { width: 40, height: 12 });
    assert_eq!(e.view.size, Size { width: 40, height: 10 });
}

#[test]
fn quit_on_unmodified_document_is_immediate() {
    let mut e = editor_with("ab\n");
    e.process_command(Command::System(System::Quit), 0);
    assert!(e.quit);
}

#[test]
fn quit_on_modified_document_takes_three_tries() {
    let mut e = editor_with("ab\n");
    e.process_command(Command::Edit(Edit::Insert('x')), 0);
    e.process_command(Command::System(System::Quit), 1);
    assert!(!e.quit);
    assert_eq!(
        message_text(&e),
        "WARNING! File has unsaved changes. Press Ctrl-Q 2 more times to quit."
    );
    e.process_command(Command::System(System::Quit), 2);
    assert!(!e.quit);
    assert_eq!(
        message_text(&e),
        "WARNING! File has unsaved changes. Press Ctrl-Q 1 more times to quit."
    );
    e.process_command(Command::System(System::Quit), 3);
    assert!(e.quit);
}

#[test]
fn any_other_command_resets_the_quit_count() {
    let mut e = editor_with("ab\n");
    e.process_command(Command::Edit(Edit::Insert('x')), 0);
    e.process_command(Command::System(System::Quit), 1);
    assert_eq!(e.quit_times, 1);
    e.process_command(Command::Move(Move::Right), 2);
    assert_eq!(e.quit_times, 0);
    assert_eq!(message_text(&e), "");
}

#[test]
fn save_with_bound_file_requests_a_write() {
    let mut e = editor_with("ab\n");
    let act = e.process_command(Command::System(System::Save), 0);
    assert!(matches!(act, EditorAction::Save(None)));
}

#[test]
fn save_without_file_opens_the_prompt() {
    let mut e = Editor::default();
    e.process_command(Command::System(System::Resize(Size { width: 40, height: 12 })), 0);
    let act = e.process_command(Command::System(System::Save), 0);
    assert!(matches!(act, EditorAction::Nothing));
    let bar = e.command_bar.as_ref().expect("prompt must be open");
    assert_eq!(bar.prompt, "Save as: ");
    assert_eq!(bar.size, Size { width: 40, height: 1 });
}

#[test]
fn typing_into_the_prompt_and_confirming_requests_save_as() {
    let mut e = Editor::default();
    e.process_command(Command::System(System::Resize(Size { width: 40, height: 12 })), 0);
    e.process_command(Command::System(System::Save), 0);
    e.process_command(Command::Edit(Edit::Insert('a')), 0);
    e.process_command(Command::Edit(Edit::Insert('b')), 0);
    e.process_command(Command::Edit(Edit::DeleteBackward), 0);
    e.process_command(Command::Edit(Edit::Insert('c')), 0);
    let act = e.process_command(Command::Edit(Edit::InsertNewline), 0);
    match act {
        EditorAction::Save(Some(name)) => assert_eq!(name, "ac"),
        _ => panic!("confirming the prompt must request a save"),
    }
    assert!(e.command_bar.is_none());
}

#[test]
fn moves_are_ignored_while_the_prompt_is_open() {
    let mut e = editor_with("ab\ncd\n");
    e.view.buf.file_info.path = None;
    e.process_command(Command::System(System::Save), 0);
    let before = e.view.text_location;
    e.process_command(Command::Move(Move::Down), 0);
    assert_eq!(e.view.text_location, before);
}

#[test]
fn dismiss_aborts_the_prompt() {
    let mut e = Editor::default();
    e.process_command(Command::System(System::Resize(Size { width: 40, height: 12 })), 0);
    e.process_command(Command::System(System::Save), 0);
    assert!(e.command_bar.is_some());
    e.process_command(Command::System(System::Dismiss), 5);
    assert!(e.command_bar.is_none());
    assert_eq!(message_text(&e), "File save abort!");
}

#[test]
fn reported_save_outcome_sets_message_and_flags() {
    let mut e = editor_with("ab\n");
    e.process_command(Command::Edit(Edit::Insert('x')), 0);
    assert!(e.view.buf.is_modify);
    e.save(None, true, 7);
    assert!(!e.view.buf.is_modify);
    assert_eq!(message_text(&e), "File saved successfully.");
    e.process_command(Command::Edit(Edit::Insert('y')), 8);
    e.save(None, false, 9);
    assert!(e.view.buf.is_modify);
    assert_eq!(message_text(&e), "Error writing file!");
}

#[test]
fn save_as_outcome_rebinds_the_file() {
    let mut e = editor_with("ab\n");
    e.save(Some("other.txt".to_string()), true, 0);
    assert_eq!(e.view.buf.file_info.path.as_deref(), Some("other.txt"));
}

#[test]
fn refresh_status_reports_a_changed_title() {
    let mut e = editor_with("ab\n");
    let title = e.refresh_status().expect("first refresh must change the title");
    assert_eq!(title, "f - hecto");
    assert_eq!(e.title, "f - hecto");
    assert!(e.refresh_status().is_none());
}

#[test]
fn unnamed_document_titles_with_placeholder() {
    let mut e = Editor::default();
    let title = e.refresh_status().expect("first refresh must change the title");
    assert_eq!(title, "[No Name] - hecto");
}

#[test]
fn document_status_strings() {
    let status = DocumentStatus {
        current_line: 0,
        total_line: 3,
        filename: "f".to_string(),
        is_modified: true,
    };
    assert_eq!(status.modified_indicator_to_string(), "(modified)");
    assert_eq!(status.line_count_to_string(), "3 lines");
    assert_eq!(status.position_indicator_to_string(), "1/3");
    let clean = DocumentStatus { is_modified: false, ..status };
    assert_eq!(clean.modified_indicator_to_string(), "");
}

#[test]
fn message_expires_after_five_seconds() {
    let mut bar = MessageBar::default();
    bar.update_message("hello", 1000);
    assert!(!bar.message.is_expired(6000));
    assert!(bar.message.is_expired(6001));
    assert!(bar.needs_redraw_at(2000));
    assert_eq!(bar.draw(2000), "hello");
    assert_eq!(bar.draw(7000), "");
    bar.mark_redraw(false);
    assert!(!bar.needs_redraw_at(7000));
}

#[test]
fn status_bar_row_layout() {
    let mut e = editor_with("a\nb\nc\n");
    e.refresh_status();
    e.status_bar.set_size(Size { width: 30, height: 1 });
    let row = e.status_bar.draw_row();
    assert_eq!(row, "f  3 lines                 1/3");
    assert_eq!(row.chars().count(), 30);
}

#[test]
fn command_bar_caret_and_row() {
    let mut e = Editor::default();
    e.process_command(Command::System(System::Resize(Size { width: 20, height: 12 })), 0);
    e.process_command(Command::System(System::Save), 0);
    e.process_command(Command::Edit(Edit::Insert('h')), 0);
    e.process_command(Command::Edit(Edit::Insert('i')), 0);
    let bar = e.command_bar.as_ref().expect("prompt must be open");
    assert_eq!(bar.caret_position_col(), 11);
    assert_eq!(bar.draw_row(), "Save as: hi");
}
