//! Clipboard session and transfer protocol for windowless programs.
//!
//! The library decides and marshals; the caller makes the platform calls.
//! `clipboard` starts an operation, `transfer` says which call comes next,
//! `buffer` builds and reads terminator-delimited images, `formats` collects
//! an enumeration, `watcher` detects changes, and `discipline` states what
//! holds of every run.

pub mod buffer;
pub mod clipboard;
pub mod discipline;
pub mod error;
pub mod formats;
pub mod text;
pub mod transfer;
pub mod watcher;

pub use buffer::{byte_strlen, read_raw, read_text, rust_strlen};
pub use clipboard::{
    get_clipboard, get_clipboard_formats, get_clipboard_string, get_format_name, set_clipboard,
    set_clipboard_raw,
};
pub use error::WinResult;
pub use formats::{format_name_from, FormatScan};
pub use transfer::{ClipboardError, Ownership, Phase, Reply, Request, Task, Transfer};
pub use watcher::{get_clipboard_seq_num, ClipboardManager, Turn, Watch};
