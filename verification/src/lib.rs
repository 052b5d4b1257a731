//! A terminal text viewer: the cursor and viewport engine, the renderer of
//! frames, the decoder of raw key bytes, and the terminal's raw mode.
//!
//! The library computes; it reads no key and writes no frame. A program
//! around it hands it what the terminal gave and writes out what it built.

pub mod cli_argument;
pub mod constants;
pub mod content;
pub mod editor;
pub mod input;
pub mod logger;
pub mod screen;
pub mod stdin_raw_mode;
pub mod text;
pub mod viewport;

pub use cli_argument::CliArguments;
pub use content::Content;
pub use editor::{Editor, EditorAction};
pub use input::{Input, Key};
pub use logger::{LogLevel, Logger};
pub use screen::Screen;
pub use stdin_raw_mode::{StdinRawMode, TerminalAttributes, TerminalError};
