//! A parser of key presses for the modes that edit the document.

use crate::command::{command_view, Command, CommandView, Descriptor, NormalMode};
use crate::insert_mode;
use crate::key::Key;
use crate::normal_mode;
use vstd::prelude::*;

verus! {

/// The command that a key press resolves to in a mode of kind `mode` when
/// `pending` was typed before: normal mode reads keys and sequences,
/// insert mode reads keys, and command-line mode is not this parser's.
pub open spec fn matched(pending: Seq<char>, key: Key, mode: Descriptor) -> Option<CommandView> {
    match mode {
        Descriptor::Normal => normal_mode::answer(pending, key),
        Descriptor::Insert => insert_mode::key_meaning(key),
        Descriptor::Command => None,
    }
}

/// The characters that stay pending after a key press in a mode of kind
/// `mode`: only normal mode gathers and drops them.
pub open spec fn left_pending(pending: Seq<char>, key: Key, mode: Descriptor) -> Seq<char> {
    match mode {
        Descriptor::Normal => normal_mode::remaining(pending, key),
        _ => pending,
    }
}

/// The parser of key presses.
#[derive(Debug)]
pub struct Parser {
    normal: NormalMode,
}

impl Parser {
    /// The characters typed in normal mode since the last command.
    pub closed spec fn pending(&self) -> Seq<char> {
        self.normal.pending()
    }

    /// Take a key press in a mode of kind `mode`.
    pub fn matched_command_for(&mut self, key: Key, mode: Descriptor) -> (command: Option<Command>)
        ensures
            command_view(command) == matched(old(self).pending(), key, mode),
            final(self).pending() == left_pending(old(self).pending(), key, mode),
    {
        match mode {
            Descriptor::Normal => self.normal.handle(key),
            Descriptor::Insert => insert_mode::command_for_key_press(key),
            Descriptor::Command => None,
        }
    }
}

impl Default for Parser {
    fn default() -> (parser: Self)
        ensures
            parser.pending() == Seq::<char>::empty(),
    {
        let normal = NormalMode::default();
        proof {
            normal.lemma_view_is_normal();
        }
        Self { normal }
    }
}

} // verus!
