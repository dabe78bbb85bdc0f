use z_editor::cursor_controller::Direction;
use z_editor::editor::{Editor, Key, KeyPress, Modifiers};

const NONE: Modifiers = Modifiers { shift: false, control: false, alt: false };
const CONTROL: Modifiers = Modifiers { shift: false, control: true, alt: false };
const SHIFT: Modifiers = Modifiers { shift: true, control: false, alt: false };
const CONTROL_ALT: Modifiers = Modifiers { shift: false, control: true, alt: true };

fn editor_of(rows: &[&str]) -> Editor {
    Editor::with_content(
        Some(String::from("notes.txt")),
        rows.iter().map(|row| String::from(*row)).collect(),
        String::from("HELP: Ctrl-Q = Quit."),
        (40, 6),
    )
}

fn press(editor: &mut Editor, code: Key, modifiers: Modifiers) -> bool {
    let mut exit = false;
    editor.process_key(KeyPress { code, modifiers }, &mut exit);
    exit
}

fn cursor(editor: &Editor) -> (usize, usize) {
    let cursor = editor.cursor_controller().render_cursor();
    (cursor.get_x(), cursor.get_y())
}

#[test]
fn control_q_asks_to_quit() {
    let mut editor = editor_of(&["one"]);
    assert!(press(&mut editor, Key::Char('q'), CONTROL));
    assert_eq!(cursor(&editor), (0, 0));
}

#[test]
fn other_characters_and_modifiers_do_not_quit() {
    let mut editor = editor_of(&["one"]);
    assert!(!press(&mut editor, Key::Char('q'), NONE));
    assert!(!press(&mut editor, Key::Char('q'), CONTROL_ALT));
    assert!(!press(&mut editor, Key::Char('Q'), CONTROL));
    assert!(!press(&mut editor, Key::Char('x'), CONTROL));
    assert!(!press(&mut editor, Key::Other, CONTROL));
    assert!(!press(&mut editor, Key::Move(Direction::Down), CONTROL));
    assert_eq!(cursor(&editor), (0, 0));
}

#[test]
fn raised_exit_flag_stays_raised() {
    let mut editor = editor_of(&["one"]);
    let mut exit = true;
    editor.process_key(KeyPress { code: Key::Other, modifiers: NONE }, &mut exit);
    assert!(exit);
}

#[test]
fn movement_keys_move_the_cursor() {
    let mut editor = editor_of(&["one", "three", ""]);
    assert!(!press(&mut editor, Key::Move(Direction::End), NONE));
    assert_eq!(cursor(&editor), (3, 0));
    press(&mut editor, Key::Move(Direction::Down), NONE);
    assert_eq!(cursor(&editor), (3, 1));
    press(&mut editor, Key::Move(Direction::Right), NONE);
    assert_eq!(cursor(&editor), (4, 1));
    press(&mut editor, Key::Move(Direction::Down), NONE);
    assert_eq!(cursor(&editor), (0, 2));
    press(&mut editor, Key::Move(Direction::Left), NONE);
    assert_eq!(cursor(&editor), (5, 1));
    press(&mut editor, Key::Move(Direction::Home), NONE);
    assert_eq!(cursor(&editor), (0, 1));
    press(&mut editor, Key::Move(Direction::Up), NONE);
    assert_eq!(cursor(&editor), (0, 0));
}

#[test]
fn movement_keys_with_modifiers_do_nothing() {
    let mut editor = editor_of(&["one", "two"]);
    press(&mut editor, Key::Move(Direction::Down), SHIFT);
    press(&mut editor, Key::Move(Direction::End), CONTROL);
    press(&mut editor, Key::Move(Direction::PageDown), CONTROL_ALT);
    assert_eq!(cursor(&editor), (0, 0));
}

#[test]
fn page_keys_cut_the_column_to_the_row_reached() {
    let rows: Vec<String> = (0..30).map(|i| "x".repeat(30 - i)).collect();
    let mut editor = Editor::with_content(Some(String::from("f")), rows, String::new(), (40, 6));
    press(&mut editor, Key::Move(Direction::End), NONE);
    assert_eq!(cursor(&editor), (30, 0));
    press(&mut editor, Key::Move(Direction::PageDown), NONE);
    assert_eq!(cursor(&editor), (21, 9));
    editor.draw();
    press(&mut editor, Key::Move(Direction::PageUp), NONE);
    assert_eq!(cursor(&editor), (21, 2));
}

#[test]
fn empty_editor_draws_only_tildes() {
    let mut editor = Editor::empty(String::from("HELP: Ctrl-Q = Quit."), (30, 4));
    assert_eq!(editor.editor_view().number_of_rows(), 0);
    let expected = [
        "\x1b[?25l",
        "\x1b[1;1H",
        "~\x1b[K\r\n",
        "~\x1b[K\r\n",
        "\x1b[7m[No Name] -- 0 lines       1/0\x1b[0m\r\n",
        "\x1b[KHELP: Ctrl-Q = Quit.",
        "\x1b[1;1H",
        "\x1b[?25h",
    ]
    .concat();
    assert_eq!(editor.draw(), expected);
    assert_eq!(editor.draw(), expected);
}

#[test]
fn draw_scrolls_before_it_composes() {
    let rows: Vec<String> = (0..9).map(|i| format!("row {}", i)).collect();
    let mut editor = Editor::with_content(Some(String::from("f")), rows, String::from("m"), (20, 4));
    for _ in 0..5 {
        press(&mut editor, Key::Move(Direction::Down), NONE);
    }
    press(&mut editor, Key::Move(Direction::End), NONE);
    let expected = [
        "\x1b[?25l",
        "\x1b[1;1H",
        "row 4\x1b[K\r\n",
        "row 5\x1b[K\r\n",
        "\x1b[7mf -- 9 lines     6/9\x1b[0m\r\n",
        "\x1b[Km",
        "\x1b[2;6H",
        "\x1b[?25h",
    ]
    .concat();
    assert_eq!(editor.draw(), expected);
    assert_eq!(editor.cursor_controller().get_rows_offset(), 4);
}

#[test]
fn editor_without_a_file_name_shows_the_default_name() {
    let mut editor = Editor::with_content(None, vec![String::from("x")], String::new(), (24, 3));
    let expected = [
        "\x1b[?25l",
        "\x1b[1;1H",
        "x\x1b[K\r\n",
        "\x1b[7m[No Name] -- 1 lines 1/1\x1b[0m\r\n",
        "\x1b[K",
        "\x1b[1;1H",
        "\x1b[?25h",
    ]
    .concat();
    assert_eq!(editor.draw(), expected);
}
