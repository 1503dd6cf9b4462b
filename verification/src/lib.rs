//! The state machine of a keyboard-driven directory browser.
//!
//! The browser shows one directory with a cursor on its sorted entries.
//! Arrow keys move the cursor and walk the directory tree; `n`, `d` and `r`
//! open a prompt to create, delete or rename an entry. The library decides
//! and never touches a file: `app::handle_input` takes a key press and
//! hands back a `protocol::Request`, the caller carries it out and answers
//! through `app::handle_reply`, until the request is for the next key.
//!
//! `app::AppModel` says what every step does, `laws` what holds of all of
//! them together.

pub mod app;
pub mod directory;
pub mod entries;
pub mod keys;
pub mod laws;
pub mod layout;
pub mod modal;
pub mod paths;
pub mod protocol;
pub mod shell;
pub mod text;
