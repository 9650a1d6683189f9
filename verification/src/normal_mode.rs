//! The normal mode: its keys and the grammar of typed sequences.
//!
//! Some keys are commands by themselves. Typed characters are gathered and
//! read as a sequence:
//!
//! ```text
//! sequence   := ':' | 'i' | movement
//! movement   := multiplier? key
//! multiplier := non_zero_digit digit*
//! key        := 'h' | 'j' | 'k' | 'l'
//! ```
//!
//! A multiplier never starts with `0`, and one that does not fit the
//! machine's count makes the sequence meaningless rather than a smaller
//! count.

use crate::command::{
    command_view, Command, CommandView, ExecuteMode, InsertMode, Mode, ModeView, NormalMode,
};
use crate::execute_mode::NoMatch;
use crate::key::Key;
use vstd::prelude::*;

verus! {

/// Whether `c` is one of the decimal digits.
pub open spec fn is_digit(c: char) -> bool {
    '0' <= c <= '9'
}

/// Whether `c` is a decimal digit other than `0`.
pub open spec fn is_non_zero_digit(c: char) -> bool {
    '1' <= c <= '9'
}

/// Whether `c` is one of the four movement keys.
pub open spec fn is_movement_key(c: char) -> bool {
    c == 'h' || c == 'j' || c == 'k' || c == 'l'
}

/// The number that the digit `c` stands for.
pub open spec fn digit_value(c: char) -> nat {
    (c as int - '0' as int) as nat
}

/// The number that `digits` spell in decimal.
pub open spec fn decimal_value(digits: Seq<char>) -> nat
    decreases digits.len(),
{
    if digits.len() == 0 {
        0
    } else {
        decimal_value(digits.drop_last()) * 10 + digit_value(digits.last())
    }
}

/// Whether `digits` is a repeat count: decimal digits, the first of which is not `0`.
pub open spec fn is_multiplier(digits: Seq<char>) -> bool {
    &&& digits.len() >= 1
    &&& is_non_zero_digit(digits[0])
    &&& forall|i: int| 0 <= i < digits.len() ==> is_digit(#[trigger] digits[i])
}

/// The cursor movement that `key` asks for, `count` times.
pub open spec fn movement(key: char, count: usize) -> CommandView {
    if key == 'h' {
        CommandView::MoveCursorLeft(count)
    } else if key == 'j' {
        CommandView::MoveCursorDown(count)
    } else if key == 'k' {
        CommandView::MoveCursorUp(count)
    } else {
        CommandView::MoveCursorRight(count)
    }
}

/// What a whole typed sequence says, or `None` where it says nothing (yet).
pub open spec fn sequence_meaning(input: Seq<char>) -> Option<CommandView> {
    if input.len() == 1 && input[0] == ':' {
        Some(CommandView::EnterMode(ModeView::fresh_execute()))
    } else if input.len() == 1 && input[0] == 'i' {
        Some(CommandView::EnterMode(ModeView::Insert))
    } else if input.len() >= 1 && is_movement_key(input.last()) {
        let digits = input.drop_last();
        if digits.len() == 0 {
            Some(movement(input.last(), 1))
        } else if is_multiplier(digits) && decimal_value(digits) <= usize::MAX {
            Some(movement(input.last(), decimal_value(digits) as usize))
        } else {
            None
        }
    } else {
        None
    }
}

/// The command that a key stands for by itself in normal mode.
pub open spec fn key_meaning(key: Key) -> Option<CommandView> {
    match key {
        Key::Home => Some(CommandView::MoveCursorLineStart),
        Key::End => Some(CommandView::MoveCursorLineEnd),
        Key::PageUp => Some(CommandView::MoveCursorPageUp),
        Key::PageDown => Some(CommandView::MoveCursorPageDown),
        Key::Insert => Some(CommandView::EnterMode(ModeView::Insert)),
        _ => None,
    }
}

/// The characters gathered once `key` was pressed after `pending`: a
/// character is added, Esc drops what was gathered, other keys add nothing.
pub open spec fn gathered(pending: Seq<char>, key: Key) -> Seq<char> {
    match key {
        Key::Char(ch) => pending.push(ch),
        Key::Esc => Seq::empty(),
        _ => pending,
    }
}

/// The command that normal mode answers `key` with when `pending` was typed
/// before: what the key says by itself, else what the gathered sequence says.
pub open spec fn answer(pending: Seq<char>, key: Key) -> Option<CommandView> {
    match key_meaning(key) {
        Some(command) => Some(command),
        None => sequence_meaning(gathered(pending, key)),
    }
}

/// The characters that stay gathered after `key`: none once a command was
/// found, else all that were gathered.
pub open spec fn remaining(pending: Seq<char>, key: Key) -> Seq<char> {
    if answer(pending, key) is Some {
        Seq::empty()
    } else {
        gathered(pending, key)
    }
}

/// The command that a key stands for by itself in normal mode.
pub fn command_for_key_press(key: Key) -> (command: Option<Command>)
    ensures
        command_view(command) == key_meaning(key),
{
    match key {
        Key::Home => Some(Command::MoveCursorLineStart),
        Key::End => Some(Command::MoveCursorLineEnd),
        Key::PageUp => Some(Command::MoveCursorPageUp),
        Key::PageDown => Some(Command::MoveCursorPageDown),
        Key::Insert => Some(Command::EnterMode(Mode::Insert(InsertMode))),
        _ => None,
    }
}

impl NormalMode {
    /// Take a key press in normal mode. A character is added to the pending
    /// input and Esc drops that input. A key that is a command by itself
    /// gives that command; otherwise the pending input is read as a
    /// sequence. Once a command is found the pending input is dropped.
    pub fn handle(&mut self, key: Key) -> (command: Option<Command>)
        ensures
            command_view(command) == answer(old(self).pending(), key),
            final(self).pending() == remaining(old(self).pending(), key),
    {
        let mut input = self.input().clone();
        match key {
            Key::Char(ch) => {
                input.push(ch);
            },
            Key::Esc => {
                input = String::new();
            },
            _ => {},
        }
        let command = match command_for_key_press(key) {
            Some(command) => Some(command),
            None => command_for_input(input.as_str()),
        };
        if command.is_some() {
            input = String::new();
        }
        self.set_input(input);
        command
    }
}

/// Whether `c` is one of the decimal digits.
fn digit(c: char) -> (is: bool)
    ensures
        is == is_digit(c),
{
    '0' <= c && c <= '9'
}

/// The end of the run of digits that starts at offset `from` of `input`.
fn digits_end(input: &str, from: usize) -> (end: usize)
    requires
        from <= input@.len(),
    ensures
        from <= end <= input@.len(),
        forall|i: int| from <= i < end ==> is_digit(#[trigger] input@[i]),
        end == input@.len() || !is_digit(input@[end as int]),
{
    let len = input.unicode_len();
    let mut end = from;
    while end < len && digit(input.get_char(end))
        invariant
            len == input@.len(),
            from <= end <= len,
            forall|i: int| from <= i < end ==> is_digit(#[trigger] input@[i]),
        decreases len - end,
    {
        end += 1;
    }
    end
}

/// Parse one digit other than `0` from the start of `input`.
pub fn non_zero_digit<'a>(input: &'a str) -> (parsed: Result<(&'a str, char), NoMatch>)
    ensures
        parsed.is_ok() == (input@.len() >= 1 && is_non_zero_digit(input@[0])),
        parsed matches Ok((rest, c)) ==> c == input@[0] && rest@ == input@.skip(1),
{
    let len = input.unicode_len();
    if len >= 1 {
        let c = input.get_char(0);
        if '1' <= c && c <= '9' {
            return Ok((input.substring_char(1, len), c));
        }
    }
    Err(NoMatch)
}

/// Parse a repeat count from the start of `input`: the longest run of
/// digits there, which has to start with a digit other than `0`.
pub fn multiplier<'a>(input: &'a str) -> (parsed: Result<(&'a str, &'a str), NoMatch>)
    ensures
        parsed.is_ok() == (input@.len() >= 1 && is_non_zero_digit(input@[0])),
        parsed matches Ok((rest, digits)) ==> {
            &&& is_multiplier(digits@)
            &&& digits@ + rest@ == input@
            &&& (rest@.len() == 0 || !is_digit(rest@[0]))
        },
{
    match non_zero_digit(input) {
        Ok(_) => {
            let len = input.unicode_len();
            let end = digits_end(input, 1);
            let digits = input.substring_char(0, end);
            let rest = input.substring_char(end, len);
            assert(digits@ + rest@ =~= input@);
            Ok((rest, digits))
        },
        Err(_) => Err(NoMatch),
    }
}

/// Parse one movement key from the start of `input`.
pub fn movement_key<'a>(input: &'a str) -> (parsed: Result<(&'a str, char), NoMatch>)
    ensures
        parsed.is_ok() == (input@.len() >= 1 && is_movement_key(input@[0])),
        parsed matches Ok((rest, c)) ==> c == input@[0] && rest@ == input@.skip(1),
{
    let len = input.unicode_len();
    if len >= 1 {
        let c = input.get_char(0);
        if c == 'h' || c == 'j' || c == 'k' || c == 'l' {
            return Ok((input.substring_char(1, len), c));
        }
    }
    Err(NoMatch)
}

/// The movement that `key` asks for, `count` times.
fn movement_command(key: char, count: usize) -> (command: Command)
    ensures
        command@ == movement(key, count),
{
    if key == 'h' {
        Command::MoveCursorLeft(count)
    } else if key == 'j' {
        Command::MoveCursorDown(count)
    } else if key == 'k' {
        Command::MoveCursorUp(count)
    } else {
        Command::MoveCursorRight(count)
    }
}

/// A number spelled with one more digit is at least the number spelled
/// without it, so a count that has outgrown the machine stays outgrown.
pub proof fn lemma_decimal_value_grows(digits: Seq<char>, shorter: int)
    requires
        0 <= shorter <= digits.len(),
    ensures
        decimal_value(digits.take(shorter)) <= decimal_value(digits),
    decreases digits.len() - shorter,
{
    if shorter < digits.len() {
        lemma_decimal_value_grows(digits, shorter + 1);
        assert(digits.take(shorter + 1).drop_last() =~= digits.take(shorter));
    } else {
        assert(digits.take(shorter) =~= digits);
    }
}

/// The number that `digits` spell, or `None` where it does not fit in `usize`.
fn parse_count(digits: &str) -> (count: Option<usize>)
    requires
        forall|i: int| 0 <= i < digits@.len() ==> is_digit(#[trigger] digits@[i]),
    ensures
        count == if decimal_value(digits@) <= usize::MAX {
            Some(decimal_value(digits@) as usize)
        } else {
            None
        },
{
    let len = digits.unicode_len();
    let mut value: usize = 0;
    let mut i: usize = 0;
    assert(digits@.take(0) =~= Seq::<char>::empty());
    while i < len
        invariant
            len == digits@.len(),
            i <= len,
            forall|j: int| 0 <= j < digits@.len() ==> is_digit(#[trigger] digits@[j]),
            value == decimal_value(digits@.take(i as int)),
        decreases len - i,
    {
        let c = digits.get_char(i);
        let d: usize = (c as u32 - '0' as u32) as usize;
        proof {
            assert(digits@.take(i + 1).drop_last() =~= digits@.take(i as int));
            assert(digits@.take(i + 1).last() == c);
            assert(d == digit_value(c));
            lemma_decimal_value_grows(digits@, i + 1);
        }
        let scaled = match value.checked_mul(10) {
            Some(scaled) => scaled,
            None => {
                return None;
            },
        };
        value = match scaled.checked_add(d) {
            Some(sum) => sum,
            None => {
                return None;
            },
        };
        i += 1;
    }
    assert(digits@.take(i as int) =~= digits@);
    Some(value)
}

/// Parse a movement without a count from the start of `input`.
pub fn single_move_action<'a>(input: &'a str) -> (parsed: Result<(&'a str, Command), NoMatch>)
    ensures
        parsed.is_ok() == (input@.len() >= 1 && is_movement_key(input@[0])),
        parsed matches Ok((rest, command)) ==> command@ == movement(input@[0], 1) && rest@
            == input@.skip(1),
{
    match movement_key(input) {
        Ok((rest, key)) => Ok((rest, movement_command(key, 1))),
        Err(_) => Err(NoMatch),
    }
}

/// Parse a movement with a count from the start of `input`. A count that
/// does not fit in `usize` is no match.
pub fn multi_move_action<'a>(input: &'a str) -> (parsed: Result<(&'a str, Command), NoMatch>)
    ensures
        parsed matches Ok((rest, command)) ==> exists|n: int|
            {
                &&& 1 <= n < input@.len()
                &&& is_multiplier(#[trigger] input@.take(n))
                &&& is_movement_key(input@[n])
                &&& decimal_value(input@.take(n)) <= usize::MAX
                &&& command@ == movement(input@[n], decimal_value(input@.take(n)) as usize)
                &&& rest@ == input@.skip(n + 1)
            },
        parsed is Err ==> forall|n: int|
            1 <= n < input@.len() && is_multiplier(#[trigger] input@.take(n)) ==> !is_movement_key(
                input@[n],
            ) || decimal_value(input@.take(n)) > usize::MAX,
{
    match multiplier(input) {
        Ok((after_count, digits)) => {
            let ghost n = digits@.len() as int;
            assert(input@.take(n) =~= digits@);
            assert(input@.skip(n) =~= after_count@);
            assert forall|m: int|
                1 <= m < input@.len() && is_multiplier(#[trigger] input@.take(m)) && m
                    != n implies !is_movement_key(input@[m]) by {
                if m < n {
                    assert(input@.take(n)[m] == input@[m]);
                } else {
                    assert(input@.take(m)[n] == input@[n]);
                    assert(after_count@[0] == input@[n]);
                }
            }
            match movement_key(after_count) {
                Ok((rest, key)) => {
                    assert(input@[n] == after_count@[0]);
                    assert(rest@ =~= input@.skip(n + 1));
                    match parse_count(digits) {
                        Some(count) => Ok((rest, movement_command(key, count))),
                        None => Err(NoMatch),
                    }
                },
                Err(_) => {
                    assert(n < input@.len() ==> input@[n] == after_count@[0]);
                    Err(NoMatch)
                },
            }
        },
        Err(_) => {
            assert forall|m: int|
                1 <= m < input@.len() && is_multiplier(
                    #[trigger] input@.take(m),
                ) implies !is_movement_key(input@[m]) by {
                assert(input@.take(m)[0] == input@[0]);
            }
            Err(NoMatch)
        },
    }
}

/// Parse a movement, with or without a count, from the start of `input`.
pub fn movement_action<'a>(input: &'a str) -> (parsed: Result<(&'a str, Command), NoMatch>)
    ensures
        input@.len() >= 1 && is_movement_key(input@[0]) ==> (parsed matches Ok((rest, command))
            && command@ == movement(input@[0], 1) && rest@ == input@.skip(1)),
        !(input@.len() >= 1 && is_movement_key(input@[0])) ==> {
            &&& parsed matches Ok((rest, command)) ==> exists|n: int|
                {
                    &&& 1 <= n < input@.len()
                    &&& is_multiplier(#[trigger] input@.take(n))
                    &&& is_movement_key(input@[n])
                    &&& decimal_value(input@.take(n)) <= usize::MAX
                    &&& command@ == movement(input@[n], decimal_value(input@.take(n)) as usize)
                    &&& rest@ == input@.skip(n + 1)
                }
            &&& parsed is Err ==> forall|n: int|
                1 <= n < input@.len() && is_multiplier(#[trigger] input@.take(n))
                    ==> !is_movement_key(input@[n]) || decimal_value(input@.take(n)) > usize::MAX
        },
{
    match single_move_action(input) {
        Ok(parsed) => Ok(parsed),
        Err(_) => multi_move_action(input),
    }
}

/// Parse the key that enters command-line mode from the start of `input`.
pub fn command_mode<'a>(input: &'a str) -> (parsed: Result<(&'a str, Command), NoMatch>)
    ensures
        parsed.is_ok() == (input@.len() >= 1 && input@[0] == ':'),
        parsed matches Ok((rest, command)) ==> command@ == CommandView::EnterMode(
            ModeView::fresh_execute(),
        ) && rest@ == input@.skip(1),
{
    let len = input.unicode_len();
    if len >= 1 && input.get_char(0) == ':' {
        Ok((input.substring_char(1, len), Command::EnterMode(Mode::Execute(ExecuteMode::default()))))
    } else {
        Err(NoMatch)
    }
}

/// Parse the key that enters insert mode from the start of `input`.
pub fn insert_mode<'a>(input: &'a str) -> (parsed: Result<(&'a str, Command), NoMatch>)
    ensures
        parsed.is_ok() == (input@.len() >= 1 && input@[0] == 'i'),
        parsed matches Ok((rest, command)) ==> command@ == CommandView::EnterMode(ModeView::Insert)
            && rest@ == input@.skip(1),
{
    let len = input.unicode_len();
    if len >= 1 && input.get_char(0) == 'i' {
        Ok((input.substring_char(1, len), Command::EnterMode(Mode::Insert(InsertMode))))
    } else {
        Err(NoMatch)
    }
}

/// Read a whole typed sequence. `None` where the sequence is not a command.
pub fn command_for_input(input: &str) -> (command: Option<Command>)
    ensures
        command_view(command) == sequence_meaning(input@),
{
    let parsed = match command_mode(input) {
        Ok(parsed) => Ok(parsed),
        Err(_) => match insert_mode(input) {
            Ok(parsed) => Ok(parsed),
            Err(_) => movement_action(input),
        },
    };
    match parsed {
        Ok((rest, command)) => {
            if rest.unicode_len() == 0 {
                proof {
                    if !(input@[0] == ':' || input@[0] == 'i' || is_movement_key(input@[0])) {
                        let n = choose|n: int|
                            {
                                &&& 1 <= n < input@.len()
                                &&& is_multiplier(#[trigger] input@.take(n))
                                &&& is_movement_key(input@[n])
                                &&& decimal_value(input@.take(n)) <= usize::MAX
                                &&& command@ == movement(
                                    input@[n],
                                    decimal_value(input@.take(n)) as usize,
                                )
                                &&& rest@ == input@.skip(n + 1)
                            };
                        assert(input@.skip(n + 1).len() == input@.len() - (n + 1));
                        assert(input@.drop_last() =~= input@.take(n));
                    }
                }
                Some(command)
            } else {
                proof {
                    if input@.len() >= 1 && is_movement_key(input@.last()) && is_multiplier(
                        input@.drop_last(),
                    ) {
                        assert(input@.drop_last()[0] == input@[0]);
                    }
                    if !(input@[0] == ':' || input@[0] == 'i' || is_movement_key(input@[0])) {
                        let n = choose|n: int|
                            {
                                &&& 1 <= n < input@.len()
                                &&& is_multiplier(#[trigger] input@.take(n))
                                &&& is_movement_key(input@[n])
                                &&& rest@ == input@.skip(n + 1)
                            };
                        if is_movement_key(input@.last()) && is_multiplier(input@.drop_last()) {
                            assert(input@.drop_last()[n] == input@[n]);
                        }
                    }
                }
                None
            }
        },
        Err(_) => {
            proof {
                if input@.len() >= 2 && is_movement_key(input@.last()) && is_multiplier(
                    input@.drop_last(),
                ) {
                    assert(input@.drop_last() =~= input@.take(input@.len() - 1));
                    assert(input@.drop_last()[0] == input@[0]);
                }
            }
            None
        },
    }
}

} // verus!
