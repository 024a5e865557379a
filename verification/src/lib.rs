//! Verified core of a live log-tailing parser for the Fall Guys game client.
//!
//! The library turns raw log lines into typed game-event messages. It holds
//! the rule catalogue (one matcher per event kind), the pending-block parser
//! state machine, the incremental reader's offset logic, and the watcher's
//! event classification. File and channel I/O live outside the library and
//! hand it plain values.

pub mod assets;
pub mod catalog;
pub mod common;
pub mod dto;
pub mod exports;
pub mod messages;
pub mod parser;
pub mod reader;
pub mod rules;
pub mod rules_bootstrap;
pub mod rules_multiline;
pub mod rules_rewards;
pub mod state;
pub mod text;
pub mod time;
pub mod watch;
