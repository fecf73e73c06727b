//! WorkWatch: a work-session tracker core.
//!
//! The library holds the verified heart of a terminal time tracker: the
//! application state machine (menu / working / logs with a prompt overlay),
//! the session log store with its selection, the elapsed-time formatter and
//! the notification text builder. Terminal rendering, keyboard decoding and
//! webhook delivery live outside the library and talk to it in plain values.

pub mod logs;
pub mod machine;
pub mod notify;
pub mod timefmt;
