//! The core of a modal text editor for the terminal.
//!
//! Two pieces make up the core. The first renders: frames are drawn into a
//! grid of cells, and a viewport with two such grids sends the screen only
//! the cells that changed since the last frame. The second reads input: a
//! state machine with a normal, an insert and a command-line mode turns key
//! presses into commands. Around them stand the document that the commands
//! edit and the few widgets that the editor shows.
//!
//! The terminal itself and the source of events are not part of the
//! library; they are reached through the traits in `backend`.

pub mod backend;
pub mod bindings;
pub mod buffer;
pub mod cell;
pub mod command;
pub mod command_line;
pub mod component;
pub mod document;
pub mod document_view;
pub mod editor;
pub mod execute_mode;
pub mod frame;
pub mod insert_mode;
pub mod key;
pub mod layout;
pub mod normal_mode;
pub mod parser;
pub mod row;
pub mod segmentation;
pub mod status_bar;
pub mod style;
pub mod text;
pub mod viewport;
pub mod welcome;
