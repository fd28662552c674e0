use edit_core::command::{Command, Edit, Move, System};
use edit_core::editor::{Editor, PromptType};
use edit_core::geometry::Size;

fn sized_editor() -> Editor {
    let mut editor = Editor::new();
    editor.resize(Size { width: 80, height: 26 });
    editor
}

fn type_str(editor: &mut Editor, text: &str) -> Option<edit_core::view::SaveRequest> {
    let mut last = None;
    for c in text.chars() {
        last = editor.process_command(Command::Edit(Edit::Insert(c)));
    }
    last
}

#[test]
fn new_editor_shows_the_help_line() {
    let editor = Editor::new();
    assert_eq!(editor.message, "HELP: Ctrl-F = search | Ctrl-S = save | Ctrl-Q = quit");
    assert!(!editor.should_quit);
    assert_eq!(editor.prompt_type, PromptType::Inactive);
}

#[test]
fn resize_reserves_two_rows_for_the_bars() {
    let mut editor = Editor::new();
    editor.resize(Size { width: 70, height: 20 });
    assert_eq!(editor.view.size, Size { width: 70, height: 18 });
    assert_eq!(editor.terminal_size, Size { width: 70, height: 20 });
}

#[test]
fn quit_on_a_clean_buffer_is_immediate() {
    let mut editor = sized_editor();
    editor.process_command(Command::System(System::Quit));
    assert!(editor.should_quit);
}

#[test]
fn quit_with_unsaved_changes_takes_three_requests() {
    let mut editor = sized_editor();
    type_str(&mut editor, "x");
    editor.process_command(Command::System(System::Quit));
    assert!(!editor.should_quit);
    assert!(editor.message.starts_with("WARNING!"));
    editor.process_command(Command::System(System::Quit));
    assert!(!editor.should_quit);
    editor.process_command(Command::System(System::Quit));
    assert!(editor.should_quit);
}

#[test]
fn any_other_command_resets_the_quit_count() {
    let mut editor = sized_editor();
    type_str(&mut editor, "x");
    editor.process_command(Command::System(System::Quit));
    assert_eq!(editor.quit_times, 1);
    editor.process_command(Command::Move(Move::Right));
    assert_eq!(editor.quit_times, 0);
    assert_eq!(editor.message, "");
}

#[test]
fn edits_and_moves_reach_the_view_outside_a_prompt() {
    let mut editor = sized_editor();
    type_str(&mut editor, "hi");
    assert_eq!(editor.view.view_buffer.height(), 1);
    assert_eq!(editor.view.view_buffer.lines[0].to_string(), "hi");
}

#[test]
fn search_prompt_consumes_edits_and_a_newline_submits() {
    let mut editor = sized_editor();
    editor.process_command(Command::System(System::Search));
    assert_eq!(editor.prompt_type, PromptType::Search);
    type_str(&mut editor, "needle");
    // the typed text went to the prompt line, not the buffer
    assert_eq!(editor.view.view_buffer.height(), 0);
    assert_eq!(editor.command_bar.to_string(), "needle");
    editor.process_command(Command::Edit(Edit::DeleteBackward));
    assert_eq!(editor.command_bar.to_string(), "needl");
    editor.process_command(Command::Edit(Edit::InsertNewline));
    assert_eq!(editor.prompt_type, PromptType::Inactive);
    assert_eq!(editor.message, "Search needl successfully.");
}

#[test]
fn dismiss_abandons_a_search_prompt() {
    let mut editor = sized_editor();
    editor.process_command(Command::System(System::Search));
    type_str(&mut editor, "abc");
    editor.process_command(Command::System(System::Dismiss));
    assert_eq!(editor.prompt_type, PromptType::Inactive);
    assert_eq!(editor.message, "Search aborted.");
    assert_eq!(editor.view.view_buffer.height(), 0);
}

#[test]
fn save_with_a_known_path_returns_the_write_at_once() {
    let mut editor = sized_editor();
    editor.view.load("data", "known.txt");
    let request = editor.process_command(Command::System(System::Save));
    let request = request.expect("path known: the write comes straight back");
    assert_eq!(request.path, "known.txt");
    assert_eq!(request.contents, "data\n");
    assert_eq!(editor.prompt_type, PromptType::Inactive);
}

#[test]
fn save_without_a_path_opens_the_prompt_and_submits_to_it() {
    let mut editor = sized_editor();
    type_str(&mut editor, "abc");
    let none = editor.process_command(Command::System(System::Save));
    assert!(none.is_none());
    assert_eq!(editor.prompt_type, PromptType::Save);
    type_str(&mut editor, "out.txt");
    let request = editor.process_command(Command::Edit(Edit::InsertNewline));
    let request = request.expect("the submitted prompt yields the write");
    assert_eq!(request.path, "out.txt");
    assert_eq!(request.contents, "abc\n");
    assert_eq!(editor.prompt_type, PromptType::Inactive);
    assert!(editor.view.is_file_loaded());
}

#[test]
fn dismissing_a_save_prompt_aborts_it() {
    let mut editor = sized_editor();
    type_str(&mut editor, "abc");
    editor.process_command(Command::System(System::Save));
    editor.process_command(Command::System(System::Dismiss));
    assert_eq!(editor.prompt_type, PromptType::Inactive);
    assert_eq!(editor.message, "Save aborted.");
    assert!(editor.view.view_buffer.dirty);
}

#[test]
fn report_save_result_settles_the_dirty_flag() {
    let mut editor = sized_editor();
    editor.view.load("a", "f.txt");
    type_str(&mut editor, "b");
    assert!(editor.view.view_buffer.dirty);
    editor.process_command(Command::System(System::Save));
    editor.report_save_result(true);
    assert!(!editor.view.view_buffer.dirty);
    assert_eq!(editor.message, "File saved successfully.");
}

#[test]
fn failed_save_leaves_the_dirty_flag_set() {
    let mut editor = sized_editor();
    editor.view.load("a", "f.txt");
    type_str(&mut editor, "b");
    editor.process_command(Command::System(System::Save));
    editor.report_save_result(false);
    assert!(editor.view.view_buffer.dirty);
    assert_eq!(editor.message, "Error writing file!");
}

#[test]
fn refresh_status_computes_the_title_once() {
    let mut editor = sized_editor();
    editor.view.load("a", "doc.txt");
    let title = editor.refresh_status();
    assert_eq!(title.as_deref(), Some("doc.txt - edit_core"));
    assert!(editor.refresh_status().is_none());
}

#[test]
fn movement_is_ignored_while_a_prompt_is_open() {
    let mut editor = sized_editor();
    type_str(&mut editor, "abc");
    editor.process_command(Command::System(System::Search));
    let before = editor.view.location;
    editor.process_command(Command::Move(Move::Left));
    assert_eq!(editor.view.location, before);
}

#[test]
fn quit_during_a_prompt_is_ignored() {
    let mut editor = sized_editor();
    type_str(&mut editor, "x");
    editor.process_command(Command::System(System::Search));
    editor.process_command(Command::System(System::Quit));
    assert!(!editor.should_quit);
    assert_eq!(editor.prompt_type, PromptType::Search);
}

#[test]
fn dismiss_without_a_prompt_changes_nothing() {
    let mut editor = sized_editor();
    let message_before = editor.message.clone();
    editor.process_command(Command::System(System::Dismiss));
    assert_eq!(editor.prompt_type, PromptType::Inactive);
    assert_eq!(editor.message, message_before);
}

#[test]
fn resize_while_editing_keeps_the_cursor_visible() {
    let mut editor = sized_editor();
    type_str(&mut editor, "abcdefgh");
    editor.process_command(Command::System(System::Resize(Size { width: 3, height: 4 })));
    let col = editor.view.view_buffer.lines[0].width_until(editor.view.location.x);
    assert!(editor.view.offset.x <= col && col < editor.view.offset.x + 3);
}
