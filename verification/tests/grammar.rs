use vie_core::command::{Command, Descriptor, ExecuteMode, InsertMode, Mode, NormalMode};
use vie_core::execute_mode::{command_for_input, command_for_key, quit, save, save_as, NoMatch};
use vie_core::key::Key;
use vie_core::normal_mode;

#[test]
fn command_test_command_for_input() {
    let tests = vec![
        (":q", Command::Quit),
        (":w", Command::Save),
        (":w some_file.txt", Command::SaveAs("some_file.txt".into())),
    ];

    for (input, command) in tests.into_iter() {
        assert_eq!(command_for_input(input), Some(command));
    }
}

#[test]
fn command_test_quit() {
    assert!(quit("w").is_err());
    assert_eq!(quit("q"), Ok(("", Command::Quit)));
}

#[test]
fn command_test_save() {
    assert!(save("q").is_err());
    assert_eq!(save("w"), Ok(("", Command::Save)));
}

#[test]
fn command_test_save_as() {
    assert!(save_as("w").is_err());
    assert_eq!(save_as("w test.txt"), Ok(("", Command::SaveAs("test.txt".into()))));
}

#[test]
fn mod_test_command_for_input() {
    let tests = vec![
        (":q", Command::Quit),
        (":w", Command::Save),
        (":w some_file.txt", Command::SaveAs("some_file.txt".into())),
    ];

    for (input, command) in tests.into_iter() {
        assert_eq!(command_for_input(input), Some(command));
    }
}

#[test]
fn mod_test_quit() {
    assert!(quit("w").is_err());
    assert_eq!(quit("q"), Ok(("", Command::Quit)));
}

#[test]
fn mod_test_save() {
    assert!(save("q").is_err());
    assert_eq!(save("w"), Ok(("", Command::Save)));
}

#[test]
fn mod_test_save_as() {
    assert!(save_as("w").is_err());
    assert_eq!(save_as("w test.txt"), Ok(("", Command::SaveAs("test.txt".into()))));
}

#[test]
fn command_line_grammar_accepts_the_three_commands_and_nothing_else() {
    assert_eq!(command_for_input(":q"), Some(Command::Quit));
    assert_eq!(command_for_input(":w"), Some(Command::Save));
    assert_eq!(command_for_input(":w notes.txt"), Some(Command::SaveAs("notes.txt".into())));
    assert_eq!(command_for_input(":x"), None);
    assert_eq!(command_for_input(""), None);
    assert_eq!(command_for_input(":"), None);
    assert_eq!(command_for_input("q"), None);
    assert_eq!(command_for_input("w"), None);
    assert_eq!(command_for_input(" :q"), None);
    assert_eq!(command_for_input(":q "), None);
    assert_eq!(command_for_input(":qq"), None);
    assert_eq!(command_for_input(":wq"), None);
    assert_eq!(command_for_input(":w "), None);
    assert_eq!(command_for_input("::q"), None);
}

#[test]
fn save_as_takes_the_name_verbatim() {
    assert_eq!(command_for_input(":w a b"), Some(Command::SaveAs("a b".into())));
    assert_eq!(command_for_input(":w  "), Some(Command::SaveAs(" ".into())));
    assert_eq!(command_for_input(":w  x "), Some(Command::SaveAs(" x ".into())));
    assert_eq!(command_for_input(":w é\u{301}.txt"), Some(Command::SaveAs("é\u{301}.txt".into())));
    assert_eq!(save_as("w q"), Ok(("", Command::SaveAs("q".into()))));
    assert_eq!(save_as("w "), Err(NoMatch));
    assert_eq!(save_as("wq"), Err(NoMatch));
    assert_eq!(save_as(""), Err(NoMatch));
}

#[test]
fn quit_and_save_take_the_whole_input() {
    assert_eq!(quit("qq"), Err(NoMatch));
    assert_eq!(quit(""), Err(NoMatch));
    assert_eq!(save("w "), Err(NoMatch));
    assert_eq!(save(""), Err(NoMatch));
}

#[test]
fn execute_mode_maps_keys_to_command_line_commands() {
    let mut mode = ExecuteMode::default();
    assert_eq!(mode.handle(Key::Enter), Some(Command::EndCommandLineInput));
    assert_eq!(mode.handle(Key::Char('x')), Some(Command::InsertChar('x')));
    assert_eq!(mode.handle(Key::Char(' ')), Some(Command::InsertChar(' ')));
    assert_eq!(mode.handle(Key::Left), Some(Command::MoveCursorLeft(1)));
    assert_eq!(mode.handle(Key::Right), Some(Command::MoveCursorRight(1)));
    assert_eq!(mode.handle(Key::Backspace), Some(Command::DeleteCharBackward));
    assert_eq!(mode.handle(Key::Delete), Some(Command::DeleteCharForward));
    assert_eq!(mode.handle(Key::Home), Some(Command::MoveCursorLineStart));
    assert_eq!(mode.handle(Key::End), Some(Command::MoveCursorLineEnd));
    assert_eq!(mode.handle(Key::Esc), Some(Command::AbortCommandLineInput));
    assert_eq!(mode.handle(Key::Up), None);
    assert_eq!(mode.handle(Key::Down), None);
    assert_eq!(mode.handle(Key::Tab), None);
    assert_eq!(mode.handle(Key::PageUp), None);
    assert_eq!(mode.handle(Key::Ctrl('c')), None);
    assert_eq!(mode.handle(Key::Unknown), None);
    assert_eq!(mode, ExecuteMode::default());
    assert_eq!(command_for_key(Key::Enter), Some(Command::EndCommandLineInput));
    assert_eq!(command_for_key(Key::Insert), None);
}

#[test]
fn execute_mode_parses_a_command_string() {
    let mode = ExecuteMode::default();
    assert_eq!(mode.parse(":q"), Some(Command::Quit));
    assert_eq!(mode.parse(":w out"), Some(Command::SaveAs("out".into())));
    assert_eq!(mode.parse(":nope"), None);
}

#[test]
fn insert_mode_maps_keys_to_editing_commands() {
    let mut mode = InsertMode;
    assert_eq!(mode.handle(Key::Up), Some(Command::MoveCursorUp(1)));
    assert_eq!(mode.handle(Key::Down), Some(Command::MoveCursorDown(1)));
    assert_eq!(mode.handle(Key::Left), Some(Command::MoveCursorLeft(1)));
    assert_eq!(mode.handle(Key::Right), Some(Command::MoveCursorRight(1)));
    assert_eq!(mode.handle(Key::Home), Some(Command::MoveCursorLineStart));
    assert_eq!(mode.handle(Key::End), Some(Command::MoveCursorLineEnd));
    assert_eq!(mode.handle(Key::PageUp), Some(Command::MoveCursorPageUp));
    assert_eq!(mode.handle(Key::PageDown), Some(Command::MoveCursorPageDown));
    assert_eq!(mode.handle(Key::Delete), Some(Command::DeleteCharForward));
    assert_eq!(mode.handle(Key::Backspace), Some(Command::DeleteCharBackward));
    assert_eq!(mode.handle(Key::Enter), Some(Command::InsertLineBreak));
    assert_eq!(mode.handle(Key::Char('j')), Some(Command::InsertChar('j')));
    assert_eq!(mode.handle(Key::Char(':')), Some(Command::InsertChar(':')));
    assert_eq!(
        mode.handle(Key::Esc),
        Some(Command::EnterMode(Mode::Normal(NormalMode::default())))
    );
    assert_eq!(mode.handle(Key::Tab), None);
    assert_eq!(mode.handle(Key::Insert), None);
    assert_eq!(mode.handle(Key::Ctrl('a')), None);
    assert_eq!(mode.handle(Key::Unknown), None);
}

fn press(mode: &mut NormalMode, keys: &str) -> Vec<Option<Command>> {
    keys.chars().map(|ch| mode.handle(Key::Char(ch))).collect()
}

#[test]
fn normal_mode_reads_a_count_before_a_motion() {
    let mut mode = NormalMode::default();
    assert_eq!(press(&mut mode, "12j"), vec![None, None, Some(Command::MoveCursorDown(12))]);
    assert_eq!(mode, NormalMode::default());
    assert_eq!(press(&mut mode, "j"), vec![Some(Command::MoveCursorDown(1))]);
    assert_eq!(press(&mut mode, "h"), vec![Some(Command::MoveCursorLeft(1))]);
    assert_eq!(press(&mut mode, "k"), vec![Some(Command::MoveCursorUp(1))]);
    assert_eq!(press(&mut mode, "l"), vec![Some(Command::MoveCursorRight(1))]);
    assert_eq!(press(&mut mode, "3h"), vec![None, Some(Command::MoveCursorLeft(3))]);
    assert_eq!(press(&mut mode, "40k"), vec![None, None, Some(Command::MoveCursorUp(40))]);
    assert_eq!(
        press(&mut mode, "105l"),
        vec![None, None, None, Some(Command::MoveCursorRight(105))]
    );
    assert_eq!(mode, NormalMode::default());
}

#[test]
fn normal_mode_enters_the_other_modes() {
    let mut mode = NormalMode::default();
    assert_eq!(
        mode.handle(Key::Char(':')),
        Some(Command::EnterMode(Mode::Execute(ExecuteMode::default())))
    );
    assert_eq!(mode.handle(Key::Char('i')), Some(Command::EnterMode(Mode::Insert(InsertMode))));
    assert_eq!(mode.handle(Key::Insert), Some(Command::EnterMode(Mode::Insert(InsertMode))));
    assert_eq!(mode, NormalMode::default());
}

#[test]
fn normal_mode_keys_that_are_commands_by_themselves() {
    let mut mode = NormalMode::default();
    assert_eq!(mode.handle(Key::Home), Some(Command::MoveCursorLineStart));
    assert_eq!(mode.handle(Key::End), Some(Command::MoveCursorLineEnd));
    assert_eq!(mode.handle(Key::PageUp), Some(Command::MoveCursorPageUp));
    assert_eq!(mode.handle(Key::PageDown), Some(Command::MoveCursorPageDown));
    assert_eq!(mode.handle(Key::Enter), None);
    assert_eq!(mode.handle(Key::Tab), None);
    assert_eq!(mode.handle(Key::Up), None);
    assert_eq!(mode.handle(Key::Backspace), None);
    assert_eq!(mode.handle(Key::Ctrl('j')), None);
    assert_eq!(mode.handle(Key::Unknown), None);
}

#[test]
fn normal_mode_escape_drops_the_pending_input() {
    let mut mode = NormalMode::default();
    assert_eq!(press(&mut mode, "12"), vec![None, None]);
    assert_eq!(mode.input(), "12");
    assert_eq!(mode.handle(Key::Esc), None);
    assert_eq!(mode.input(), "");
    assert_eq!(press(&mut mode, "j"), vec![Some(Command::MoveCursorDown(1))]);
}

#[test]
fn normal_mode_keeps_what_is_no_command_yet() {
    let mut mode = NormalMode::default();
    assert_eq!(press(&mut mode, "x"), vec![None]);
    assert_eq!(mode.input(), "x");
    assert_eq!(press(&mut mode, "j"), vec![None]);
    assert_eq!(mode.input(), "xj");
    assert_eq!(mode.handle(Key::Tab), None);
    assert_eq!(mode.input(), "xj");
    assert_eq!(mode.handle(Key::Home), Some(Command::MoveCursorLineStart));
    assert_eq!(mode.input(), "");
}

#[test]
fn a_count_never_starts_with_zero() {
    assert_eq!(normal_mode::command_for_input("0j"), None);
    assert_eq!(normal_mode::command_for_input("01j"), None);
    assert_eq!(normal_mode::command_for_input("10j"), Some(Command::MoveCursorDown(10)));
    assert_eq!(normal_mode::command_for_input("100h"), Some(Command::MoveCursorLeft(100)));
    assert_eq!(normal_mode::multiplier("0"), Err(NoMatch));
    assert_eq!(normal_mode::non_zero_digit("0"), Err(NoMatch));
    assert_eq!(normal_mode::non_zero_digit("9x"), Ok(("x", '9')));
    assert_eq!(normal_mode::non_zero_digit(""), Err(NoMatch));
}

#[test]
fn a_count_that_overflows_is_no_command() {
    let largest = format!("{}j", usize::MAX);
    assert_eq!(normal_mode::command_for_input(&largest), Some(Command::MoveCursorDown(usize::MAX)));
    let too_large = format!("{}0j", usize::MAX);
    assert_eq!(normal_mode::command_for_input(&too_large), None);
    let one_more = "18446744073709551616j";
    if usize::MAX as u128 == 18446744073709551615 {
        assert_eq!(normal_mode::command_for_input(one_more), None);
    }
    assert_eq!(normal_mode::command_for_input("99999999999999999999999999999999999999999k"), None);
    assert_eq!(normal_mode::multi_move_action(&too_large), Err(NoMatch));
}

#[test]
fn a_sequence_has_to_match_as_a_whole() {
    assert_eq!(normal_mode::command_for_input(""), None);
    assert_eq!(normal_mode::command_for_input("jj"), None);
    assert_eq!(normal_mode::command_for_input("12"), None);
    assert_eq!(normal_mode::command_for_input("12jj"), None);
    assert_eq!(normal_mode::command_for_input("1 j"), None);
    assert_eq!(normal_mode::command_for_input(":q"), None);
    assert_eq!(normal_mode::command_for_input("ii"), None);
    assert_eq!(normal_mode::command_for_input("x"), None);
    assert_eq!(normal_mode::command_for_input("1x"), None);
    assert_eq!(normal_mode::command_for_input("١j"), None);
    assert_eq!(
        normal_mode::command_for_input(":"),
        Some(Command::EnterMode(Mode::Execute(ExecuteMode::default())))
    );
    assert_eq!(
        normal_mode::command_for_input("i"),
        Some(Command::EnterMode(Mode::Insert(InsertMode)))
    );
}

#[test]
fn normal_mode_parsers_leave_the_rest_of_the_input() {
    assert_eq!(normal_mode::multiplier("120j"), Ok(("j", "120")));
    assert_eq!(normal_mode::multiplier("7"), Ok(("", "7")));
    assert_eq!(normal_mode::multiplier("j"), Err(NoMatch));
    assert_eq!(normal_mode::movement_key("jk"), Ok(("k", 'j')));
    assert_eq!(normal_mode::movement_key("x"), Err(NoMatch));
    assert_eq!(normal_mode::movement_key(""), Err(NoMatch));
    assert_eq!(normal_mode::single_move_action("l3"), Ok(("3", Command::MoveCursorRight(1))));
    assert_eq!(normal_mode::single_move_action("3l"), Err(NoMatch));
    assert_eq!(normal_mode::multi_move_action("3lk"), Ok(("k", Command::MoveCursorRight(3))));
    assert_eq!(normal_mode::multi_move_action("l"), Err(NoMatch));
    assert_eq!(normal_mode::multi_move_action("3"), Err(NoMatch));
    assert_eq!(normal_mode::multi_move_action("3x"), Err(NoMatch));
    assert_eq!(normal_mode::movement_action("k"), Ok(("", Command::MoveCursorUp(1))));
    assert_eq!(normal_mode::movement_action("25h!"), Ok(("!", Command::MoveCursorLeft(25))));
    assert_eq!(normal_mode::movement_action("!"), Err(NoMatch));
    assert_eq!(
        normal_mode::command_mode(":w"),
        Ok(("w", Command::EnterMode(Mode::Execute(ExecuteMode::default()))))
    );
    assert_eq!(normal_mode::command_mode("w:"), Err(NoMatch));
    assert_eq!(
        normal_mode::insert_mode("ix"),
        Ok(("x", Command::EnterMode(Mode::Insert(InsertMode))))
    );
    assert_eq!(normal_mode::insert_mode(""), Err(NoMatch));
    assert_eq!(normal_mode::command_for_key_press(Key::Home), Some(Command::MoveCursorLineStart));
    assert_eq!(normal_mode::command_for_key_press(Key::Char('j')), None);
}

#[test]
fn mode_names_and_kinds() {
    assert_eq!(Mode::default(), Mode::Normal(NormalMode::default()));
    assert_eq!(Mode::default().to_string(), "NORMAL");
    assert_eq!(Mode::Insert(InsertMode).to_string(), "INSERT");
    assert_eq!(Mode::Execute(ExecuteMode::default()).to_string(), "COMMAND");
    assert_eq!(Mode::default().descriptor(), Descriptor::Normal);
    assert_eq!(Mode::Insert(InsertMode).descriptor(), Descriptor::Insert);
    assert_eq!(Mode::Execute(ExecuteMode::default()).descriptor(), Descriptor::Command);
    assert_eq!(Descriptor::default(), Descriptor::Normal);
    assert_eq!(Descriptor::Command.to_string(), "COMMAND");
    let command = Command::EnterMode(Mode::Execute(ExecuteMode::default()));
    assert_eq!(command.clone(), command);
    assert_eq!(Command::SaveAs("a".into()).clone(), Command::SaveAs("a".into()));
}
