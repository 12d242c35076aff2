//! A settings bridge for a Neovim plugin: it reads configuration values
//! (the plugin's installation path, a log file location, a debug-logging
//! flag) out of the host editor's embedded Lua engine and exposes them as
//! typed values, memoizing the debug-logging flag in a one-shot cell.

pub mod errors;
pub mod utils;
