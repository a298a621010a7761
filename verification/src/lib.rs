//! The decision logic of a Discord tip bot that keeps one wallet per Discord
//! user: every slash command is a small state machine that asks the outside
//! world (Discord, the wallet store, the node) for facts and decides, from
//! those facts alone, what to do and what to answer.
//!
//! - `protocol`: commands, the actions the bot asks for, the events that
//!   answer them, and the sessions that carry a command along.
//! - `flow`: the steps of every command, as a relation and as code, and
//!   `CommandRun`, the always-consistent way to drive them.
//! - `laws`: what holds of every step and of every run.
//! - `answers`: what every command does at every step, stated from its
//!   inputs.
//! - `secret`, `text`, `settings`: the secret rule, the texts the bot
//!   builds, and the settings read at start-up.

pub mod answers;
pub mod flow;
pub mod laws;
pub mod protocol;
pub mod secret;
pub mod settings;
pub mod text;

pub use flow::{confirmation_given, CommandRun};
pub use protocol::{Action, Command, Event, Phase, Recipient, Reply, Session};
pub use secret::{secret_is_too_short, MIN_SECRET_BYTES};
pub use settings::{settings_from, Settings, SettingsError};
pub use text::{bool_string, status_string};
