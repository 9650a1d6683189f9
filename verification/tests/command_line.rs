use vie_core::command::{Command, Descriptor, Mode, NormalMode};
use vie_core::command_line::CommandLine;
use vie_core::component::Component;
use vie_core::frame::{FrameBuffer, OutOfBoundsError};
use vie_core::key::Key;
use vie_core::layout::{Position, Rect};
use vie_core::parser::Parser;
use vie_core::status_bar::StatusBar;

fn rows_of(buffer: &FrameBuffer) -> Vec<String> {
    let area = buffer.area();
    let blank = FrameBuffer::filled(area, "\u{0}");
    let mut rows = vec![String::new(); area.height];
    for cell in blank.diff(buffer) {
        rows[cell.position().row].push_str(cell.symbol());
    }
    rows
}

fn typed(text: &str) -> CommandLine {
    let mut line = CommandLine::new(Rect::positioned(20, 1, 0, 9));
    for ch in text.chars() {
        assert_eq!(line.execute_command(Command::InsertChar(ch)), None);
    }
    line
}

fn to_normal() -> Option<Command> {
    Some(Command::EnterMode(Mode::Normal(NormalMode::default())))
}

#[test]
fn command_line_starts_with_a_prompt() {
    let line = CommandLine::new(Rect::positioned(20, 1, 3, 9));
    assert_eq!(line.command_string(), ":");
    assert_eq!(line.cursor_position(), Position::new(4, 9));
    let default_line = CommandLine::default();
    assert_eq!(default_line.command_string(), ":");
    assert_eq!(default_line.cursor_position(), Position::new(1, 0));
}

#[test]
fn command_line_cursor_position_saturates() {
    let line = CommandLine::new(Rect::positioned(20, 1, usize::MAX, usize::MAX));
    assert_eq!(line.cursor_position(), Position::new(usize::MAX, usize::MAX));
}

#[test]
fn command_line_inserts_at_the_cursor() {
    let mut line = typed("wq");
    assert_eq!(line.command_string(), ":wq");
    assert_eq!(line.cursor_position(), Position::new(3, 9));
    assert_eq!(line.execute_command(Command::MoveCursorLeft(1)), None);
    assert_eq!(line.execute_command(Command::InsertChar('-')), None);
    assert_eq!(line.command_string(), ":w-q");
    assert_eq!(line.cursor_position(), Position::new(3, 9));
}

#[test]
fn command_line_ends_input_with_the_text_to_parse() {
    let mut line = typed("w a.txt");
    assert_eq!(
        line.execute_command(Command::EndCommandLineInput),
        Some(Command::ParseCommandLineInput(":w a.txt".into()))
    );
    assert_eq!(line.command_string(), ":");
    assert_eq!(line.cursor_position(), Position::new(1, 9));
}

#[test]
fn command_line_abort_resets_the_prompt() {
    let mut line = typed("w a.txt");
    assert_eq!(line.execute_command(Command::AbortCommandLineInput), to_normal());
    assert_eq!(line.command_string(), ":");
    assert_eq!(line.cursor_position(), Position::new(1, 9));
}

#[test]
fn command_line_cursor_movement() {
    let mut line = typed("abc");
    assert_eq!(line.execute_command(Command::MoveCursorRight(1)), None);
    assert_eq!(line.cursor_position().col, 4);
    assert_eq!(line.execute_command(Command::MoveCursorLeft(2)), None);
    assert_eq!(line.cursor_position().col, 2);
    assert_eq!(line.execute_command(Command::MoveCursorRight(5)), None);
    assert_eq!(line.cursor_position().col, 7);
    assert_eq!(line.execute_command(Command::MoveCursorLineStart), None);
    assert_eq!(line.cursor_position().col, 1);
    assert_eq!(line.execute_command(Command::MoveCursorLeft(1)), None);
    assert_eq!(line.cursor_position().col, 1);
    assert_eq!(line.execute_command(Command::MoveCursorLineEnd), None);
    assert_eq!(line.cursor_position().col, 4);
    assert_eq!(line.execute_command(Command::MoveCursorLeft(usize::MAX)), None);
    assert_eq!(line.cursor_position().col, 0);
    assert_eq!(line.execute_command(Command::MoveCursorRight(usize::MAX)), None);
    assert_eq!(line.cursor_position().col, usize::MAX);
    assert_eq!(line.command_string(), ":abc");
}

#[test]
fn command_line_deletes_and_gives_up_when_only_the_prompt_is_left() {
    let mut line = typed("ab");
    assert_eq!(line.execute_command(Command::DeleteCharForward), None);
    assert_eq!(line.command_string(), ":ab");
    assert_eq!(line.execute_command(Command::DeleteCharBackward), None);
    assert_eq!(line.command_string(), ":a");
    assert_eq!(line.cursor_position().col, 2);
    assert_eq!(line.execute_command(Command::MoveCursorLineStart), None);
    assert_eq!(line.execute_command(Command::DeleteCharForward), to_normal());
    assert_eq!(line.command_string(), ":");
    assert_eq!(line.cursor_position().col, 1);

    let mut line = typed("x");
    assert_eq!(line.execute_command(Command::DeleteCharBackward), to_normal());
    assert_eq!(line.command_string(), ":");
}

#[test]
fn command_line_ignores_other_commands() {
    let mut line = typed("w");
    for command in [
        Command::Save,
        Command::Quit,
        Command::MoveCursorUp(1),
        Command::MoveCursorDown(1),
        Command::InsertLineBreak,
        Command::MoveCursorPageUp,
        Command::SaveAs("x".into()),
        Command::EnterMode(Mode::Normal(NormalMode::default())),
    ] {
        assert_eq!(line.execute_command(command), None);
    }
    assert_eq!(line.command_string(), ":w");
    assert_eq!(line.cursor_position().col, 2);
}

#[test]
fn command_line_takes_key_presses() {
    let mut line = CommandLine::new(Rect::new(20, 1));
    assert_eq!(line.matched_command_for(Key::Char('w')), None);
    assert_eq!(line.matched_command_for(Key::Char(' ')), None);
    assert_eq!(line.matched_command_for(Key::Char('f')), None);
    assert_eq!(line.matched_command_for(Key::Enter), Some(Command::SaveAs("f".into())));
    assert_eq!(line.command_string(), ":w f");
    assert_eq!(line.matched_command_for(Key::Backspace), None);
    assert_eq!(line.matched_command_for(Key::Backspace), None);
    assert_eq!(line.matched_command_for(Key::Enter), Some(Command::Save));
    assert_eq!(line.matched_command_for(Key::Tab), None);
    assert_eq!(line.matched_command_for(Key::Char('!')), None);
    assert_eq!(line.matched_command_for(Key::Enter), None);
    assert_eq!(line.matched_command_for(Key::Esc), to_normal());
    assert_eq!(line.command_string(), ":");
}

#[test]
fn command_line_prompt_message_and_clear() {
    let mut line = CommandLine::new(Rect::new(20, 1));
    line.set_message("-- INSERT --");
    assert_eq!(line.command_string(), "-- INSERT --");
    assert_eq!(line.cursor_position(), Position::new(1, 0));
    line.clear();
    assert_eq!(line.command_string(), "");
    line.start_prompt();
    assert_eq!(line.command_string(), ":");
    assert_eq!(line.cursor_position(), Position::new(1, 0));
    line.reset();
    assert_eq!(line.command_string(), ":");
}

#[test]
fn command_line_renders_into_its_row() {
    let line = typed("w x");
    let mut frame = FrameBuffer::filled(Rect::new(6, 10), "#");
    assert_eq!(line.render(&mut frame), Ok(()));
    let rows = rows_of(&frame);
    assert_eq!(rows[9], ":w x  ");
    assert_eq!(rows[8], "######");
    let mut small = FrameBuffer::filled(Rect::new(6, 9), "#");
    assert_eq!((&line).render(&mut small), Err(OutOfBoundsError));
    assert_eq!(rows_of(&small), vec!["######"; 9]);
}

#[test]
fn status_bar_shows_mode_file_and_cursor() {
    let mut bar = StatusBar::new(Rect::positioned(50, 1, 0, 2));
    assert_eq!(
        bar.status(),
        format!("Mode: [NORMAL]    File: {}L: 0/0 C: 1", " ".repeat(15))
    );
    bar.update(Descriptor::Insert, 120, Position::new(7, 42), "notes.txt");
    let status = bar.status();
    assert_eq!(status.len(), 50);
    assert!(status.starts_with("Mode: [INSERT]    File: notes.txt "));
    assert!(status.ends_with(" L: 42/120 C: 8"));

    let mut frame = FrameBuffer::filled(Rect::new(50, 4), "#");
    assert_eq!(bar.render(&mut frame), Ok(()));
    let rows = rows_of(&frame);
    assert_eq!(rows[2], status);
    assert_eq!(rows[1], "#".repeat(50));
    let mut small = FrameBuffer::filled(Rect::new(50, 2), "#");
    assert_eq!(bar.render(&mut small), Err(OutOfBoundsError));
    assert_eq!(rows_of(&small), vec!["#".repeat(50); 2]);
}

#[test]
fn status_bar_is_cut_to_its_width() {
    let mut bar = StatusBar::new(Rect::new(12, 1));
    bar.update(Descriptor::Command, 1, Position::new(0, 0), "f");
    assert_eq!(bar.status(), "Mode: [COMMA");
    let mut exact = StatusBar::new(Rect::new(37, 1));
    exact.update(Descriptor::Command, 1, Position::new(0, 0), "f");
    assert_eq!(exact.status(), "Mode: [COMMAND]    File: fL: 0/1 C: 1");
    let mut one_more = StatusBar::new(Rect::new(38, 1));
    one_more.update(Descriptor::Command, 1, Position::new(0, 0), "f");
    assert_eq!(one_more.status(), "Mode: [COMMAND]    File: f L: 0/1 C: 1");
    let mut none = StatusBar::new(Rect::new(0, 1));
    none.update(Descriptor::Normal, 1, Position::new(usize::MAX, 0), "é");
    assert_eq!(none.status(), "");
    let mut wide = StatusBar::new(Rect::new(60, 1));
    wide.update(Descriptor::Normal, 1, Position::new(usize::MAX, 0), "é");
    assert!(wide.status().ends_with(&format!("C: {}", usize::MAX as u128 + 1)));
    assert_eq!(wide.status().chars().count(), 60);
}

#[test]
fn parser_reads_normal_and_insert_mode() {
    let mut parser = Parser::default();
    assert_eq!(parser.matched_command_for(Key::Char('2'), Descriptor::Normal), None);
    assert_eq!(
        parser.matched_command_for(Key::Char('k'), Descriptor::Normal),
        Some(Command::MoveCursorUp(2))
    );
    assert_eq!(
        parser.matched_command_for(Key::Char('k'), Descriptor::Insert),
        Some(Command::InsertChar('k'))
    );
    assert_eq!(parser.matched_command_for(Key::Char('k'), Descriptor::Command), None);
    assert_eq!(parser.matched_command_for(Key::Enter, Descriptor::Command), None);
    assert_eq!(parser.matched_command_for(Key::Char('3'), Descriptor::Normal), None);
    assert_eq!(
        parser.matched_command_for(Key::Char('x'), Descriptor::Insert),
        Some(Command::InsertChar('x'))
    );
    assert_eq!(
        parser.matched_command_for(Key::Char('l'), Descriptor::Normal),
        Some(Command::MoveCursorRight(3))
    );
    assert_eq!(
        parser.matched_command_for(Key::PageDown, Descriptor::Normal),
        Some(Command::MoveCursorPageDown)
    );
}
