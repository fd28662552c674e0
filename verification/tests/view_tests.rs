use edit_core::command::{Edit, Move};
use edit_core::geometry::{Position, Size};
use edit_core::view::View;

fn sized_view(width: usize, height: usize) -> View {
    let mut view = View::new();
    view.set_size(Size { width, height });
    view
}

fn row_text(view: &View, y: usize) -> String {
    view.view_buffer.lines[y].to_string()
}

fn assert_cursor_visible(view: &View) {
    let Size { width, height } = view.size;
    let Position { x, y } = view.location;
    let col = if y < view.view_buffer.height() {
        view.view_buffer.lines[y].width_until(x)
    } else {
        0
    };
    if height > 0 {
        assert!(view.offset.y <= y && y < view.offset.y + height, "row out of view");
    }
    if width > 0 {
        assert!(view.offset.x <= col && col < view.offset.x + width, "column out of view");
    }
}

#[test]
fn typing_into_an_empty_buffer() {
    let mut view = sized_view(80, 24);
    view.handle_edit_command(Edit::Insert('H'));
    view.handle_edit_command(Edit::Insert('i'));
    assert_eq!(view.view_buffer.height(), 1);
    assert_eq!(row_text(&view, 0), "Hi");
    assert_eq!(view.caret_position(), Position { x: 2, y: 0 });
}

#[test]
fn enter_at_end_of_row_opens_an_empty_row_below() {
    let mut view = sized_view(80, 24);
    view.load("Hello", "f");
    view.handle_move_command(Move::EndOfLine);
    view.handle_edit_command(Edit::InsertNewline);
    assert_eq!(view.view_buffer.height(), 2);
    assert_eq!(row_text(&view, 0), "Hello");
    assert_eq!(row_text(&view, 1), "");
    assert_eq!(view.caret_position(), Position { x: 0, y: 1 });
}

#[test]
fn forward_delete_at_row_end_joins_rows() {
    let mut view = sized_view(80, 24);
    view.load("ab\ncd", "f");
    view.handle_move_command(Move::EndOfLine);
    view.handle_edit_command(Edit::Delete);
    assert_eq!(view.view_buffer.height(), 1);
    assert_eq!(row_text(&view, 0), "abcd");
}

#[test]
fn backspace_at_document_start_is_a_no_op() {
    let mut view = sized_view(80, 24);
    view.load("ab", "f");
    view.handle_edit_command(Edit::DeleteBackward);
    assert_eq!(row_text(&view, 0), "ab");
    assert!(!view.view_buffer.dirty);
}

#[test]
fn backspace_removes_the_previous_grapheme() {
    let mut view = sized_view(80, 24);
    view.load("abc", "f");
    view.handle_move_command(Move::EndOfLine);
    view.handle_edit_command(Edit::DeleteBackward);
    assert_eq!(row_text(&view, 0), "ab");
    assert_eq!(view.caret_position(), Position { x: 2, y: 0 });
}

#[test]
fn backspace_at_row_start_joins_onto_the_previous_row() {
    let mut view = sized_view(80, 24);
    view.load("ab\ncd", "f");
    view.handle_move_command(Move::Down);
    view.handle_edit_command(Edit::DeleteBackward);
    assert_eq!(view.view_buffer.height(), 1);
    assert_eq!(row_text(&view, 0), "abcd");
    assert_eq!(view.caret_position(), Position { x: 2, y: 0 });
}

#[test]
fn left_wraps_to_the_end_of_the_previous_row() {
    let mut view = sized_view(80, 24);
    view.load("abc\nd", "f");
    view.handle_move_command(Move::Down);
    view.handle_move_command(Move::Left);
    assert_eq!(view.caret_position(), Position { x: 3, y: 0 });
}

#[test]
fn right_wraps_to_the_start_of_the_next_row() {
    let mut view = sized_view(80, 24);
    view.load("ab\ncd", "f");
    view.handle_move_command(Move::EndOfLine);
    view.handle_move_command(Move::Right);
    assert_eq!(view.caret_position(), Position { x: 0, y: 1 });
}

#[test]
fn up_snaps_to_a_shorter_row() {
    let mut view = sized_view(80, 24);
    view.load("a\nlonger", "f");
    view.handle_move_command(Move::Down);
    view.handle_move_command(Move::EndOfLine);
    view.handle_move_command(Move::Up);
    assert_eq!(view.caret_position(), Position { x: 1, y: 0 });
}

#[test]
fn down_saturates_one_past_the_last_row() {
    let mut view = sized_view(80, 24);
    view.load("a\nb", "f");
    for _ in 0..5 {
        view.handle_move_command(Move::Down);
    }
    assert_eq!(view.location, Position { x: 0, y: 2 });
}

#[test]
fn cursor_stays_visible_through_moves_and_edits() {
    let mut view = sized_view(4, 2);
    view.load("abcdefghij\nklmnopqrst\nuvwxyz\n0123456789", "f");
    let commands = [
        Move::EndOfLine,
        Move::Down,
        Move::Down,
        Move::EndOfLine,
        Move::Up,
        Move::Left,
        Move::Right,
        Move::PageDown,
        Move::EndOfLine,
        Move::PageUp,
        Move::StartOfLine,
    ];
    for command in commands {
        view.handle_move_command(command);
        assert_cursor_visible(&view);
    }
    view.handle_edit_command(Edit::Insert('x'));
    assert_cursor_visible(&view);
    view.handle_edit_command(Edit::Delete);
    assert_cursor_visible(&view);
    view.handle_edit_command(Edit::InsertNewline);
    assert_cursor_visible(&view);
    view.handle_edit_command(Edit::DeleteBackward);
    assert_cursor_visible(&view);
}

#[test]
fn scrolling_follows_the_cursor_right_and_back() {
    let mut view = sized_view(3, 2);
    view.load("abcdefgh", "f");
    view.handle_move_command(Move::EndOfLine);
    // column 8 must lie in [offset.x, offset.x + 3)
    assert_eq!(view.offset.x, 6);
    view.handle_move_command(Move::StartOfLine);
    assert_eq!(view.offset.x, 0);
}

#[test]
fn wide_clusters_scroll_by_columns() {
    let mut view = sized_view(3, 2);
    view.load("\u{4f60}\u{597d}\u{4e16}", "f");
    view.handle_move_command(Move::EndOfLine);
    // the cursor column is 6; the window must cover it
    assert!(view.offset.x <= 6 && 6 < view.offset.x + 3);
    assert_cursor_visible(&view);
}

#[test]
fn load_resets_dirty_and_remembers_the_path() {
    let mut view = sized_view(80, 24);
    view.load("x", "file.txt");
    assert!(view.is_file_loaded());
    assert!(!view.view_buffer.dirty);
    view.handle_edit_command(Edit::Insert('y'));
    assert!(view.view_buffer.dirty);
}

#[test]
fn save_round_trip_clears_dirty() {
    let mut view = sized_view(80, 24);
    view.load("a\nb\nc\n", "f.txt");
    assert_eq!(view.view_buffer.height(), 3);
    assert!(!view.view_buffer.dirty);
    view.handle_edit_command(Edit::Insert('x'));
    assert!(view.view_buffer.dirty);
    let request = view.save().expect("a path is known");
    assert_eq!(request.path, "f.txt");
    assert_eq!(request.contents, "xa\nb\nc\n");
    view.confirm_saved();
    assert!(!view.view_buffer.dirty);
}

#[test]
fn save_without_a_path_yields_nothing() {
    let mut view = sized_view(80, 24);
    view.handle_edit_command(Edit::Insert('a'));
    assert!(view.save().is_none());
}

#[test]
fn save_as_adopts_the_path() {
    let mut view = sized_view(80, 24);
    view.handle_edit_command(Edit::Insert('a'));
    let request = view.save_as("new.txt");
    assert_eq!(request.path, "new.txt");
    assert_eq!(request.contents, "a\n");
    assert!(view.is_file_loaded());
}

#[test]
fn get_status_reports_the_document() {
    let mut view = sized_view(80, 24);
    view.load("a\nb", "doc.txt");
    view.handle_move_command(Move::Down);
    let status = view.get_status();
    assert_eq!(status.total_lines, 2);
    assert_eq!(status.current_line_index, 1);
    assert_eq!(status.file_name, "doc.txt");
    assert!(!status.is_modified);
}

#[test]
fn get_status_without_a_file_says_no_name() {
    let view = View::new();
    assert_eq!(view.get_status().file_name, "No Name");
}

#[test]
fn render_rows_show_buffer_content_and_tildes() {
    let mut view = sized_view(10, 4);
    view.load("hello\nworld", "f");
    let rows = view.render_rows(0);
    assert_eq!(rows.len(), 4);
    assert_eq!(rows[0], "hello");
    assert_eq!(rows[1], "world");
    assert_eq!(rows[2], "~");
    assert_eq!(rows[3], "~");
}

#[test]
fn render_rows_clip_to_the_horizontal_window() {
    let mut view = sized_view(3, 2);
    view.load("abcdefgh", "f");
    view.handle_move_command(Move::EndOfLine);
    let rows = view.render_rows(0);
    assert_eq!(rows[0], "gh");
}

#[test]
fn render_rows_greet_on_an_empty_buffer() {
    let view = sized_view(60, 9);
    let rows = view.render_rows(0);
    // one third of the way down: a centered greeting after the tilde
    assert_eq!(rows[3].chars().next(), Some('~'));
    assert!(rows[3].contains("edit_core editor -- version 0.1.0"));
    assert_eq!(rows[0], "~");
}

#[test]
fn zero_sized_viewport_is_tolerated() {
    let mut view = View::new();
    view.load("abc", "f");
    view.handle_move_command(Move::Right);
    view.handle_edit_command(Edit::Insert('x'));
    assert_eq!(view.view_buffer.lines[0].to_string(), "axbc");
    assert_eq!(view.render_rows(0).len(), 0);
}

#[test]
fn u16_helpers_mirror_their_usize_counterparts() {
    let mut view = View::new();
    view.load("a\u{4f60}b\nc", "f");
    assert_eq!(view.view_buffer.height_u16(), 2);
    let line = &view.view_buffer.lines[0];
    assert_eq!(line.grapheme_count_u16(), 3);
    assert_eq!(line.width_until_u16(2), 3);
}

#[test]
fn render_rows_narrow_viewport_falls_back_to_tilde() {
    let view = sized_view(5, 3);
    let rows = view.render_rows(0);
    assert_eq!(rows[1], "~");
}
