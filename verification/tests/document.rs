use vie_core::buffer::{Buffer, Effect, Motion};
use vie_core::cell::Cell;
use vie_core::command::{Command, Mode, NormalMode};
use vie_core::component::Component;
use vie_core::document::{Document, InsertError};
use vie_core::document_view::DocumentView;
use vie_core::frame::{FrameBuffer, OutOfBoundsError};
use vie_core::layout::{Position, Rect};
use vie_core::row::Row;
use vie_core::style::Style;
use vie_core::welcome::{welcome, Screen, VERSION};

fn document(lines: &[&str]) -> Document {
    Document::new(None, lines.iter().map(|line| Row::from(line)).collect())
}

fn lines(document: &Document) -> Vec<String> {
    (0..document.len()).map(|i| document.row(i).unwrap().contents()).collect()
}

fn rows_of(buffer: &FrameBuffer) -> Vec<String> {
    let area = buffer.area();
    let blank = FrameBuffer::filled(area, "\u{0}");
    let mut rows = vec![String::new(); area.height];
    for cell in blank.diff(buffer) {
        rows[cell.position().row].push_str(cell.symbol());
    }
    rows
}

#[test]
fn document_from_text_has_one_row_per_line() {
    assert_eq!(lines(&Document::from_text("f", "")), Vec::<String>::new());
    assert_eq!(lines(&Document::from_text("f", "a")), vec!["a"]);
    assert_eq!(lines(&Document::from_text("f", "a\n")), vec!["a"]);
    assert_eq!(lines(&Document::from_text("f", "a\nb")), vec!["a", "b"]);
    assert_eq!(lines(&Document::from_text("f", "a\n\nb\n")), vec!["a", "", "b"]);
    assert_eq!(lines(&Document::from_text("f", "\n")), vec![""]);
    assert_eq!(lines(&Document::from_text("f", "\n\n")), vec!["", ""]);
    assert_eq!(lines(&Document::from_text("f", "a\r\nb\r")), vec!["a", "b\r"]);
    assert_eq!(lines(&Document::from_text("f", "a\r\r\nb")), vec!["a\r", "b"]);
    assert_eq!(lines(&Document::from_text("f", "\r\n")), vec![""]);
    for text in ["", "a", "a\n", "x\r\ny\n\nz", "\n\r\n", "é\nü", "a\rb", "\r"] {
        let expected: Vec<String> = text.lines().map(String::from).collect();
        assert_eq!(lines(&Document::from_text("f", text)), expected, "{:?}", text);
    }
    let named = Document::from_text("notes.txt", "x");
    assert_eq!(named.file_name(), Some(&"notes.txt".to_string()));
}

#[test]
fn document_contents_end_every_row_with_a_line_feed() {
    assert_eq!(Document::default().contents(), "");
    assert_eq!(document(&["a", "", "b"]).contents(), "a\n\nb\n");
    assert_eq!(Document::from_text("f", "one\ntwo").contents(), "one\ntwo\n");
}

#[test]
fn document_starts_empty() {
    let document = Document::default();
    assert!(document.is_empty());
    assert_eq!(document.len(), 0);
    assert_eq!(document.file_name(), None);
    assert!(document.row(0).is_none());
}

#[test]
fn document_insert_adds_to_a_row_or_starts_the_next() {
    let mut doc = document(&["ac"]);
    assert_eq!(doc.insert(&Position::new(1, 0), 'b'), Ok(()));
    assert_eq!(lines(&doc), vec!["abc"]);
    assert_eq!(doc.insert(&Position::new(7, 1), 'x'), Ok(()));
    assert_eq!(lines(&doc), vec!["abc", "x"]);
    assert_eq!(doc.insert(&Position::new(0, 3), 'y'), Err(InsertError));
    assert_eq!(lines(&doc), vec!["abc", "x"]);
    assert_eq!(doc.insert(&Position::new(9, 0), '!'), Ok(()));
    assert_eq!(lines(&doc), vec!["abc!", "x"]);
    assert!(!doc.is_empty());
    assert_eq!(
        InsertError.message(),
        "trying to insert character past current string length"
    );
}

#[test]
fn document_delete_removes_a_cluster_or_joins_rows() {
    let mut doc = document(&["abc", "de", "f"]);
    doc.delete(&Position::new(1, 0));
    assert_eq!(lines(&doc), vec!["ac", "de", "f"]);
    doc.delete(&Position::new(2, 0));
    assert_eq!(lines(&doc), vec!["acde", "f"]);
    doc.delete(&Position::new(1, 1));
    assert_eq!(lines(&doc), vec!["acde", "f"]);
    doc.delete(&Position::new(0, 2));
    assert_eq!(lines(&doc), vec!["acde", "f"]);
    doc.delete(&Position::new(0, 1));
    assert_eq!(lines(&doc), vec!["acde", ""]);
}

#[test]
fn document_insert_newline_splits_a_row() {
    let mut doc = document(&["hello"]);
    doc.insert_newline(&Position::new(2, 0));
    assert_eq!(lines(&doc), vec!["he", "llo"]);
    doc.insert_newline(&Position::new(0, 2));
    assert_eq!(lines(&doc), vec!["he", "llo", ""]);
    doc.insert_newline(&Position::new(0, 9));
    assert_eq!(lines(&doc), vec!["he", "llo", ""]);
    doc.insert_newline(&Position::new(9, 1));
    assert_eq!(lines(&doc), vec!["he", "llo", "", ""]);
    doc.insert_newline(&Position::new(0, 0));
    assert_eq!(lines(&doc), vec!["", "he", "llo", "", ""]);
}

#[test]
fn buffer_starts_at_the_origin() {
    let buffer = Buffer::new(document(&["abc"]), Rect::new(10, 5));
    assert_eq!(buffer.cursor_position(), Position::new(0, 0));
    assert_eq!(buffer.lines_in_document(), 1);
    assert_eq!(buffer.document_name(), "[No Name]");
    let named = Buffer::new(Document::from_text("a.txt", ""), Rect::new(10, 5));
    assert_eq!(named.document_name(), "a.txt");
    assert_eq!(named.lines_in_document(), 0);
}

fn at(buffer: &mut Buffer, commands: Vec<Command>) -> Position {
    for command in commands {
        buffer.move_cursor(&command);
    }
    buffer.cursor_position()
}

#[test]
fn buffer_moves_the_cursor_within_the_document() {
    let mut buffer = Buffer::new(document(&["abc", "de", "fghi"]), Rect::new(80, 24));
    assert_eq!(at(&mut buffer, vec![Command::MoveCursorRight(1)]), Position::new(1, 0));
    assert_eq!(at(&mut buffer, vec![Command::MoveCursorRight(2)]), Position::new(3, 0));
    assert_eq!(at(&mut buffer, vec![Command::MoveCursorRight(1)]), Position::new(0, 1));
    assert_eq!(at(&mut buffer, vec![Command::MoveCursorLeft(1)]), Position::new(2, 0));
    assert_eq!(at(&mut buffer, vec![Command::MoveCursorLineEnd]), Position::new(3, 0));
    assert_eq!(at(&mut buffer, vec![Command::MoveCursorDown(1)]), Position::new(2, 1));
    assert_eq!(at(&mut buffer, vec![Command::MoveCursorDown(1)]), Position::new(2, 2));
    assert_eq!(at(&mut buffer, vec![Command::MoveCursorDown(5)]), Position::new(0, 3));
    assert_eq!(at(&mut buffer, vec![Command::MoveCursorDown(1)]), Position::new(0, 3));
    assert_eq!(at(&mut buffer, vec![Command::MoveCursorUp(2)]), Position::new(0, 1));
    assert_eq!(at(&mut buffer, vec![Command::MoveCursorLineEnd]), Position::new(2, 1));
    assert_eq!(at(&mut buffer, vec![Command::MoveCursorLineStart]), Position::new(0, 1));
    assert_eq!(at(&mut buffer, vec![Command::MoveCursorUp(usize::MAX)]), Position::new(0, 0));
    assert_eq!(at(&mut buffer, vec![Command::MoveCursorLeft(1)]), Position::new(0, 0));
    assert_eq!(at(&mut buffer, vec![Command::MoveCursorLeft(usize::MAX)]), Position::new(0, 0));
    assert_eq!(at(&mut buffer, vec![Command::MoveCursorRight(0)]), Position::new(0, 0));
    assert_eq!(at(&mut buffer, vec![Command::Quit]), Position::new(0, 0));
    assert_eq!(at(&mut buffer, vec![Command::MoveCursorRight(usize::MAX)]), Position::new(0, 3));
}

#[test]
fn buffer_pages_by_the_height_of_the_window() {
    let rows: Vec<String> = (0..40).map(|i| format!("row {}", i)).collect();
    let refs: Vec<&str> = rows.iter().map(|row| row.as_str()).collect();
    let mut buffer = Buffer::new(document(&refs), Rect::new(80, 12));
    assert_eq!(buffer.proccess_command(Command::MoveCursorPageDown), Ok(Effect::Nothing));
    assert_eq!(buffer.cursor_position(), Position::new(0, 9));
    assert_eq!(buffer.proccess_command(Command::MoveCursorPageDown), Ok(Effect::Nothing));
    assert_eq!(buffer.cursor_position(), Position::new(0, 9));
    buffer.proccess_command(Command::MoveCursorPageDown).unwrap();
    buffer.proccess_command(Command::MoveCursorPageDown).unwrap();
    buffer.proccess_command(Command::MoveCursorPageDown).unwrap();
    assert_eq!(buffer.cursor_position(), Position::new(0, 9));
    buffer.proccess_command(Command::MoveCursorPageUp).unwrap();
    buffer.proccess_command(Command::MoveCursorPageUp).unwrap();
    buffer.proccess_command(Command::MoveCursorPageUp).unwrap();
    buffer.proccess_command(Command::MoveCursorPageUp).unwrap();
    assert_eq!(buffer.cursor_position(), Position::new(0, 0));
}

#[test]
fn buffer_edits_at_the_cursor() {
    let mut buffer = Buffer::new(Document::default(), Rect::new(80, 24));
    for ch in "hi".chars() {
        assert_eq!(buffer.proccess_command(Command::InsertChar(ch)), Ok(Effect::Nothing));
    }
    assert_eq!(lines(buffer.document()), vec!["hi"]);
    assert_eq!(buffer.cursor_position(), Position::new(2, 0));
    assert_eq!(buffer.proccess_command(Command::InsertLineBreak), Ok(Effect::Nothing));
    assert_eq!(lines(buffer.document()), vec!["hi", ""]);
    assert_eq!(buffer.cursor_position(), Position::new(0, 1));
    buffer.proccess_command(Command::InsertChar('x')).unwrap();
    assert_eq!(lines(buffer.document()), vec!["hi", "x"]);
    assert_eq!(buffer.proccess_command(Command::DeleteCharBackward), Ok(Effect::Nothing));
    assert_eq!(lines(buffer.document()), vec!["hi", ""]);
    assert_eq!(buffer.cursor_position(), Position::new(0, 1));
    buffer.proccess_command(Command::MoveCursorUp(1)).unwrap();
    buffer.proccess_command(Command::DeleteCharForward).unwrap();
    assert_eq!(lines(buffer.document()), vec!["i", ""]);
    buffer.proccess_command(Command::DeleteCharBackward).unwrap();
    assert_eq!(lines(buffer.document()), vec!["i", ""]);
    assert_eq!(buffer.proccess_command(Command::Save), Ok(Effect::Save));
    assert_eq!(
        buffer.proccess_command(Command::EnterMode(Mode::Normal(NormalMode::default()))),
        Ok(Effect::Nothing)
    );
    assert_eq!(lines(buffer.document()), vec!["i", ""]);
}

#[test]
fn buffer_refuses_to_insert_below_the_document() {
    let mut buffer = Buffer::new(document(&["a"]), Rect::new(80, 24));
    buffer.move_cursor(&Command::MoveCursorDown(1));
    assert_eq!(buffer.cursor_position(), Position::new(0, 1));
    assert_eq!(buffer.proccess_command(Command::InsertChar('b')), Ok(Effect::Nothing));
    assert_eq!(lines(buffer.document()), vec!["a", "b"]);
}

#[test]
fn buffer_window_follows_the_cursor_down() {
    let rows: Vec<String> = (0..30).map(|i| format!("{}", i)).collect();
    let refs: Vec<&str> = rows.iter().map(|row| row.as_str()).collect();
    let mut buffer = Buffer::new(document(&refs), Rect::new(10, 6));
    buffer.proccess_command(Command::MoveCursorDown(3)).unwrap();
    assert_eq!(buffer.cursor_position(), Position::new(0, 3));
    buffer.proccess_command(Command::MoveCursorDown(1)).unwrap();
    assert_eq!(buffer.cursor_position(), Position::new(0, 3));
    buffer.proccess_command(Command::MoveCursorDown(6)).unwrap();
    assert_eq!(buffer.cursor_position(), Position::new(0, 3));
    buffer.proccess_command(Command::MoveCursorUp(2)).unwrap();
    assert_eq!(buffer.cursor_position(), Position::new(0, 1));
    buffer.proccess_command(Command::MoveCursorUp(2)).unwrap();
    assert_eq!(buffer.cursor_position(), Position::new(0, 0));

    let mut frame = FrameBuffer::empty(Rect::new(10, 6));
    assert_eq!(buffer.render(&mut frame), Ok(()));
    assert_eq!(rows_of(&frame)[0].trim_end(), "6");
    assert_eq!(rows_of(&frame)[5].trim_end(), "11");
    buffer.scroll();
    assert_eq!(buffer.cursor_position(), Position::new(0, 0));
}

#[test]
fn buffer_renders_the_document_and_marks_the_rows_below_it() {
    let buffer = Buffer::new(document(&["hello world", "a\tb"]), Rect::new(8, 4));
    let mut frame = FrameBuffer::filled(Rect::new(8, 5), "#");
    assert_eq!(buffer.render(&mut frame), Ok(()));
    assert_eq!(
        rows_of(&frame),
        vec!["hello wo", "a b     ", "~       ", "~       ", "########"]
    );
}

#[test]
fn buffer_draws_the_rows_that_a_smaller_frame_has() {
    let buffer = Buffer::new(document(&["one", "two", "three"]), Rect::new(5, 4));
    let mut frame = FrameBuffer::filled(Rect::new(5, 2), "#");
    assert_eq!(buffer.render(&mut frame), Err(OutOfBoundsError));
    assert_eq!(rows_of(&frame), vec!["one  ", "two  "]);
    let mut exact = FrameBuffer::filled(Rect::new(5, 4), "#");
    assert_eq!(buffer.render(&mut exact), Ok(()));
    assert_eq!(rows_of(&exact), vec!["one  ", "two  ", "three", "~    "]);
}

#[test]
fn document_view_fills_the_frame() {
    let doc = document(&["0123456789", "ab", "cd"]);
    let view = DocumentView::new(&doc, Position::new(1, 1));
    let mut frame = FrameBuffer::filled(Rect::new(4, 3), "#");
    assert_eq!(view.render(&mut frame), Ok(()));
    assert_eq!(rows_of(&frame), vec!["b   ", "d   ", "~   "]);

    let view = DocumentView::new(&doc, Position::new(3, 0));
    let mut frame = FrameBuffer::filled(Rect::new(4, 2), "#");
    assert_eq!(view.render(&mut frame), Ok(()));
    assert_eq!(rows_of(&frame), vec!["3456", "    "]);
}

#[test]
fn motions_are_plain_values() {
    assert_eq!(vie_core::buffer::motion_for(&Command::MoveCursorUp(3)), (Motion::Up, 3));
    assert_eq!(vie_core::buffer::motion_for(&Command::MoveCursorPageDown), (Motion::PageDown, 1));
    assert_eq!(vie_core::buffer::motion_for(&Command::Save), (Motion::Stay, 1));
}

#[test]
fn welcome_screen_greets_a_third_of_the_way_down() {
    let mut frame = FrameBuffer::filled(Rect::new(40, 6), "#");
    assert_eq!(Screen {}.render(&mut frame), Ok(()));
    let rows = rows_of(&frame);
    let greeting = format!("Vie editor -- version {}", VERSION);
    let padding = (40 - greeting.len()) / 2 - 1;
    let message = format!("~{}{}", " ".repeat(padding), greeting);
    assert_eq!(rows[2].trim_end(), message);
    assert_eq!(rows[2].chars().count(), 40);
    for row in [0, 1, 3, 4, 5] {
        assert_eq!(rows[row].trim_end(), "~");
    }
    assert_eq!(welcome(40), message);
    assert_eq!(welcome(5), "~Vie ");
    assert_eq!(welcome(0), "");
    assert_eq!(welcome(greeting.len() + 1), format!("~{}", &greeting[..greeting.len()]));
}

#[test]
fn cell_symbols_written_by_components_keep_the_default_style() {
    let buffer = Buffer::new(document(&["x"]), Rect::new(2, 1));
    let mut frame = FrameBuffer::empty(Rect::new(2, 1));
    assert_eq!(buffer.render(&mut frame), Ok(()));
    let blank = FrameBuffer::empty(Rect::new(2, 1));
    let diff = blank.diff(&frame);
    assert_eq!(diff.len(), 1);
    assert_eq!(*diff[0], Cell::new(0, 0, "x", Style::default()));
}
