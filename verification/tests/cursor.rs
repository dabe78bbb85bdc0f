use z_editor::cursor_controller::{CursorController, Direction};
use z_editor::view::EditorView;

fn view_of(rows: &[&str], win_size: (u16, u16)) -> EditorView {
    EditorView::new(rows.iter().map(|row| String::from(*row)).collect(), win_size)
}

// (raw column, raw row, rendered column, rendered row)
fn place(cc: &CursorController) -> (usize, usize, usize, usize) {
    (
        cc.raw_cursor().get_x(),
        cc.raw_cursor().get_y(),
        cc.render_cursor().get_x(),
        cc.render_cursor().get_y(),
    )
}

#[test]
fn new_controller_is_at_the_origin() {
    let mut cc = CursorController::new();
    assert_eq!(place(&cc), (0, 0, 0, 0));
    assert_eq!(cc.get_rows_offset(), 0);
    assert_eq!(cc.get_columns_offset(), 0);
    assert_eq!(cc.get_cursor().get_x(), 0);
    assert_eq!(cc.get_cursor().get_y(), 0);
}

#[test]
fn cursor_setters_change_one_coordinate() {
    let mut cc = CursorController::new();
    cc.get_cursor().set_x(3);
    assert_eq!(cc.render_cursor().get_x(), 3);
    assert_eq!(cc.render_cursor().get_y(), 0);
    cc.get_cursor().set_y(4);
    assert_eq!(cc.render_cursor().get_x(), 3);
    assert_eq!(cc.render_cursor().get_y(), 4);
    assert_eq!(cc.raw_cursor().get_x(), 0);
    assert_eq!(cc.raw_cursor().get_y(), 0);
}

#[test]
fn right_over_a_tab_jumps_to_the_tab_stop_after_scroll() {
    let view = view_of(&["a\tb"], (80, 24));
    let mut cc = CursorController::new();
    cc.move_cursor(Direction::Right, &view);
    cc.scroll(&view);
    assert_eq!(place(&cc), (1, 0, 1, 0));
    cc.move_cursor(Direction::Right, &view);
    cc.scroll(&view);
    assert_eq!(place(&cc), (2, 0, 8, 0));
    cc.move_cursor(Direction::Right, &view);
    cc.scroll(&view);
    assert_eq!(place(&cc), (3, 0, 9, 0));
}

#[test]
fn right_advances_the_rendered_column_by_one_before_scroll() {
    let view = view_of(&["a\tb"], (80, 24));
    let mut cc = CursorController::new();
    cc.move_cursor(Direction::Right, &view);
    cc.move_cursor(Direction::Right, &view);
    assert_eq!(place(&cc), (2, 0, 2, 0));
    cc.move_cursor(Direction::Right, &view);
    assert_eq!(place(&cc), (3, 0, 3, 0));
    // The raw column is at the end of the text and stays there.
    cc.move_cursor(Direction::Right, &view);
    assert_eq!(place(&cc), (3, 0, 4, 0));
    cc.scroll(&view);
    assert_eq!(place(&cc), (3, 0, 9, 0));
}

#[test]
fn empty_buffer_keeps_the_cursor_at_the_origin() {
    let view = view_of(&[], (80, 24));
    let mut cc = CursorController::new();
    for direction in [
        Direction::Down,
        Direction::Right,
        Direction::End,
        Direction::Left,
        Direction::Up,
        Direction::Home,
        Direction::PageUp,
        Direction::PageDown,
    ] {
        cc.move_cursor(direction, &view);
        assert_eq!(place(&cc), (0, 0, 0, 0));
        cc.scroll(&view);
        assert_eq!(place(&cc), (0, 0, 0, 0));
        assert_eq!(cc.get_rows_offset(), 0);
        assert_eq!(cc.get_columns_offset(), 0);
    }
    cc.move_down(&view);
    cc.move_right(&view);
    cc.move_end(&view);
    assert_eq!(place(&cc), (0, 0, 0, 0));
}

#[test]
fn down_to_a_shorter_row_cuts_the_column() {
    let view = view_of(&["hello", "hi"], (80, 24));
    let mut cc = CursorController::new();
    cc.move_cursor(Direction::End, &view);
    assert_eq!(place(&cc), (5, 0, 5, 0));
    cc.move_cursor(Direction::Down, &view);
    assert_eq!(place(&cc), (2, 1, 2, 1));
    cc.scroll(&view);
    assert_eq!(place(&cc), (2, 1, 2, 1));
}

#[test]
fn up_to_a_shorter_row_cuts_the_column() {
    let view = view_of(&["hi", "hello"], (80, 24));
    let mut cc = CursorController::new();
    cc.move_cursor(Direction::Down, &view);
    cc.move_cursor(Direction::End, &view);
    assert_eq!(place(&cc), (5, 1, 5, 1));
    cc.move_cursor(Direction::Up, &view);
    assert_eq!(place(&cc), (2, 0, 2, 0));
}

#[test]
fn down_keeps_the_raw_column_on_a_character_boundary() {
    let view = view_of(&["abc", "éé"], (80, 24));
    let mut cc = CursorController::new();
    cc.move_cursor(Direction::End, &view);
    assert_eq!(place(&cc), (3, 0, 3, 0));
    cc.move_cursor(Direction::Down, &view);
    assert_eq!(place(&cc), (2, 1, 2, 1));
    cc.scroll(&view);
    assert_eq!(place(&cc), (2, 1, 1, 1));
}

#[test]
fn scroll_follows_the_cursor_down() {
    let rows: Vec<String> = (0..20).map(|i| format!("row {}", i)).collect();
    let view = EditorView::new(rows, (80, 12));
    assert_eq!(view.get_win_max_rows(), 10);
    let mut cc = CursorController::new();
    for _ in 0..15 {
        cc.move_cursor(Direction::Down, &view);
    }
    assert_eq!(cc.render_cursor().get_y(), 15);
    assert_eq!(cc.get_rows_offset(), 0);
    cc.scroll(&view);
    assert_eq!(cc.get_rows_offset(), 6);
    assert_eq!(cc.render_cursor().get_y(), 15);
}

#[test]
fn scroll_leaves_the_offset_while_the_cursor_is_visible() {
    let rows: Vec<String> = (0..20).map(|i| format!("row {}", i)).collect();
    let view = EditorView::new(rows, (80, 12));
    let mut cc = CursorController::new();
    for _ in 0..15 {
        cc.move_cursor(Direction::Down, &view);
    }
    cc.scroll(&view);
    for expected_row in (6..15).rev() {
        cc.move_cursor(Direction::Up, &view);
        cc.scroll(&view);
        assert_eq!(cc.render_cursor().get_y(), expected_row);
        assert_eq!(cc.get_rows_offset(), 6);
    }
    cc.move_cursor(Direction::Up, &view);
    cc.scroll(&view);
    assert_eq!(cc.render_cursor().get_y(), 5);
    assert_eq!(cc.get_rows_offset(), 5);
}

#[test]
fn scroll_follows_the_cursor_sideways() {
    let view = view_of(&["0123456789abcdefghijklmnopqrstuvwxyz"], (10, 12));
    let mut cc = CursorController::new();
    cc.move_cursor(Direction::End, &view);
    cc.scroll(&view);
    assert_eq!(cc.render_cursor().get_x(), 36);
    assert_eq!(cc.get_columns_offset(), 27);
    cc.move_cursor(Direction::Left, &view);
    cc.scroll(&view);
    assert_eq!(cc.get_columns_offset(), 27);
    cc.move_cursor(Direction::Home, &view);
    cc.scroll(&view);
    assert_eq!(cc.get_columns_offset(), 0);
}

#[test]
fn scroll_keeps_the_cursor_inside_the_window() {
    let rows: Vec<String> = (0..40).map(|i| "x".repeat(i * 3)).collect();
    let view = EditorView::new(rows, (7, 6));
    let lines = view.get_win_max_rows();
    let columns = view.get_win_size().0;
    let mut cc = CursorController::new();
    let moves = [
        Direction::PageDown,
        Direction::End,
        Direction::Down,
        Direction::Down,
        Direction::End,
        Direction::PageDown,
        Direction::Up,
        Direction::Left,
        Direction::PageUp,
        Direction::Home,
        Direction::Right,
        Direction::PageDown,
        Direction::PageDown,
        Direction::End,
        Direction::PageDown,
    ];
    for direction in moves {
        cc.move_cursor(direction, &view);
        cc.scroll(&view);
        let x = cc.render_cursor().get_x();
        let y = cc.render_cursor().get_y();
        assert!(cc.get_rows_offset() <= y && y < cc.get_rows_offset() + lines);
        assert!(cc.get_columns_offset() <= x && x < cc.get_columns_offset() + columns);
    }
}

#[test]
fn scroll_in_a_window_without_text_lines_puts_the_offset_after_the_cursor() {
    let view = view_of(&["a", "b"], (0, 2));
    let mut cc = CursorController::new();
    cc.move_cursor(Direction::Down, &view);
    cc.scroll(&view);
    assert_eq!(cc.get_rows_offset(), 2);
    assert_eq!(cc.get_columns_offset(), 1);
}

#[test]
fn left_at_the_start_of_the_buffer_stays() {
    let view = view_of(&["abc", "def"], (80, 24));
    let mut cc = CursorController::new();
    cc.move_cursor(Direction::Left, &view);
    assert_eq!(place(&cc), (0, 0, 0, 0));
    cc.move_left(&view);
    assert_eq!(place(&cc), (0, 0, 0, 0));
    cc.move_cursor(Direction::Up, &view);
    assert_eq!(place(&cc), (0, 0, 0, 0));
}

#[test]
fn left_at_the_start_of_a_row_goes_to_the_end_of_the_row_above() {
    let view = view_of(&["a\té", "def"], (80, 24));
    let mut cc = CursorController::new();
    cc.move_cursor(Direction::Down, &view);
    assert_eq!(place(&cc), (0, 1, 0, 1));
    cc.move_cursor(Direction::Left, &view);
    assert_eq!(place(&cc), (4, 0, 9, 0));
}

#[test]
fn right_at_the_end_of_a_row_goes_to_the_start_of_the_row_below() {
    let view = view_of(&["ab", "cd"], (80, 24));
    let mut cc = CursorController::new();
    cc.move_cursor(Direction::End, &view);
    cc.move_cursor(Direction::Right, &view);
    assert_eq!(place(&cc), (0, 1, 0, 1));
    cc.move_cursor(Direction::End, &view);
    cc.move_cursor(Direction::Right, &view);
    assert_eq!(place(&cc), (0, 2, 0, 2));
    cc.move_cursor(Direction::Right, &view);
    assert_eq!(place(&cc), (0, 2, 0, 2));
}

#[test]
fn down_stops_after_the_last_row() {
    let view = view_of(&["ab", "cd"], (80, 24));
    let mut cc = CursorController::new();
    cc.move_cursor(Direction::Down, &view);
    cc.move_cursor(Direction::Down, &view);
    assert_eq!(place(&cc), (0, 2, 0, 2));
    cc.move_cursor(Direction::Down, &view);
    assert_eq!(place(&cc), (0, 2, 0, 2));
    cc.move_cursor(Direction::End, &view);
    assert_eq!(place(&cc), (0, 2, 0, 2));
    cc.scroll(&view);
    assert_eq!(place(&cc), (0, 2, 0, 2));
}

#[test]
fn home_then_end_go_to_both_ends_of_the_row() {
    let view = view_of(&["one\ttwo"], (80, 24));
    let mut cc = CursorController::new();
    cc.move_cursor(Direction::Right, &view);
    cc.move_cursor(Direction::Right, &view);
    cc.move_cursor(Direction::Home, &view);
    assert_eq!(place(&cc), (0, 0, 0, 0));
    cc.move_cursor(Direction::End, &view);
    assert_eq!(place(&cc), (7, 0, 11, 0));
    cc.move_home();
    assert_eq!(place(&cc), (0, 0, 0, 0));
    cc.move_end(&view);
    assert_eq!(place(&cc), (7, 0, 11, 0));
}

#[test]
fn right_and_left_step_over_whole_characters() {
    let view = view_of(&["aé中😀b"], (80, 24));
    let mut cc = CursorController::new();
    let boundaries = [1, 3, 6, 10, 11];
    for (i, boundary) in boundaries.iter().enumerate() {
        cc.move_cursor(Direction::Right, &view);
        cc.scroll(&view);
        assert_eq!(place(&cc), (*boundary, 0, i + 1, 0));
    }
    for (i, boundary) in [10, 6, 3, 1, 0].iter().enumerate() {
        cc.move_cursor(Direction::Left, &view);
        cc.scroll(&view);
        assert_eq!(place(&cc), (*boundary, 0, 4 - i, 0));
    }
}

#[test]
fn left_then_right_returns_to_the_same_place() {
    let view = view_of(&["aé中😀b", "xyz"], (80, 24));
    let mut cc = CursorController::new();
    for _ in 0..4 {
        cc.move_cursor(Direction::Right, &view);
        let before = place(&cc);
        cc.move_cursor(Direction::Left, &view);
        cc.move_cursor(Direction::Right, &view);
        assert_eq!(place(&cc), before);
        cc.move_cursor(Direction::Right, &view);
        cc.move_cursor(Direction::Left, &view);
        assert_eq!(place(&cc), before);
    }
}

#[test]
fn page_down_and_page_up_move_by_the_window() {
    let rows: Vec<String> = (0..100).map(|i| format!("row {}", i)).collect();
    let view = EditorView::new(rows, (80, 12));
    let mut cc = CursorController::new();
    cc.move_cursor(Direction::PageDown, &view);
    assert_eq!(place(&cc), (0, 21, 0, 21));
    cc.scroll(&view);
    assert_eq!(cc.get_rows_offset(), 12);
    cc.move_cursor(Direction::PageUp, &view);
    assert_eq!(place(&cc), (0, 2, 0, 2));
    cc.scroll(&view);
    assert_eq!(cc.get_rows_offset(), 2);
    cc.move_cursor(Direction::PageUp, &view);
    assert_eq!(place(&cc), (0, 0, 0, 0));
}

#[test]
fn page_down_stops_after_the_last_row() {
    let view = view_of(&["a", "b", "c", "d", "e"], (80, 12));
    let mut cc = CursorController::new();
    cc.move_cursor(Direction::End, &view);
    cc.move_cursor(Direction::PageDown, &view);
    assert_eq!(place(&cc), (0, 5, 0, 5));
    cc.move_page_down(&view);
    assert_eq!(place(&cc), (0, 5, 0, 5));
    cc.move_page_up(&view);
    assert_eq!(place(&cc), (0, 0, 0, 0));
}

#[test]
fn bare_vertical_moves_leave_the_columns() {
    let view = view_of(&["hello", "hi"], (80, 24));
    let mut cc = CursorController::new();
    cc.move_end(&view);
    cc.move_down(&view);
    assert_eq!(place(&cc), (5, 1, 5, 1));
    cc.move_up();
    assert_eq!(place(&cc), (5, 0, 5, 0));
    cc.move_up();
    assert_eq!(place(&cc), (5, 0, 5, 0));
}

#[test]
fn render_column_counts_tabs_to_the_next_stop() {
    let view = view_of(&["\ta\tb"], (80, 24));
    let mut cc = CursorController::new();
    let expected = [0, 8, 9, 16, 17];
    for (i, x) in expected.iter().enumerate() {
        assert_eq!(cc.raw_cursor().get_x(), i);
        assert_eq!(cc.calculate_render_x(view.get_edit_row(0)), *x);
        cc.move_right(&view);
    }
}

#[test]
fn cursor_is_written_as_column_and_row() {
    let view = view_of(&["0123456789abc", "x"], (80, 24));
    let mut cc = CursorController::new();
    assert_eq!(cc.render_cursor().to_string(), "(0, 0)");
    cc.move_cursor(Direction::End, &view);
    assert_eq!(cc.render_cursor().to_string(), "(13, 0)");
    cc.move_cursor(Direction::Down, &view);
    assert_eq!(cc.raw_cursor().to_string(), "(1, 1)");
}

#[test]
fn plain_row_has_the_same_column_in_both_spaces() {
    let view = view_of(&["plain text, no tabs"], (80, 24));
    let mut cc = CursorController::new();
    for column in 0..=19 {
        cc.scroll(&view);
        assert_eq!(place(&cc), (column, 0, column, 0));
        assert_eq!(cc.calculate_render_x(view.get_edit_row(0)), column);
        cc.move_cursor(Direction::Right, &view);
    }
    assert_eq!(place(&cc), (0, 1, 0, 1));
}

#[test]
fn scroll_twice_is_scroll_once() {
    let rows: Vec<String> = (0..50).map(|i| format!("\t{}\tend", i)).collect();
    let view = EditorView::new(rows, (9, 7));
    let mut cc = CursorController::new();
    for direction in [Direction::PageDown, Direction::End, Direction::PageDown, Direction::Left] {
        cc.move_cursor(direction, &view);
        cc.scroll(&view);
        let once = (place(&cc), cc.get_rows_offset(), cc.get_columns_offset());
        cc.scroll(&view);
        assert_eq!((place(&cc), cc.get_rows_offset(), cc.get_columns_offset()), once);
    }
}
