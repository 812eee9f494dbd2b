//! Verified core of the barista Discord bot: the triage workflow that puts
//! new guild members on hold until a moderator approves, kicks or bans them.
//!
//! The library decides; the program around it talks to Discord and to the
//! database and hands the results back as plain values.
pub mod decimal;
pub mod text;
pub mod buttons;
pub mod clock;
pub mod models;
pub mod embeds;
pub mod triage;
pub mod interaction;
pub mod commands;
pub mod events;
