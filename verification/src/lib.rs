//! The verified core of a desktop widget that shows the balance, the tokens and
//! the cost of a DeepSeek account next to the Codex window.
//!
//! The core reads no clock, file, window or network. It says what to ask the
//! system or a service, and what to make of the answers; the program around it
//! does the asking.

pub mod autostart;
pub mod codex;
pub mod credentials;
pub mod deepseek;
pub mod follow;
pub mod http;
pub mod json;
pub mod prefs;
pub mod text;
pub mod usage;
pub mod utf16;
