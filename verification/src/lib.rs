//! Translation relay for shared chat channels.
//!
//! The crate holds the decision logic of a bot that lets people who write in
//! different languages share one channel: it classifies the language of a
//! message, consults the channel's translation mode and the subscriptions of
//! its members, asks a translation backend for the texts that are needed and
//! says which replies and private messages are to be delivered.
//!
//! Everything that touches the outside world (the chat platform, the store,
//! the HTTP backend) is left to the caller. The library tells the caller what
//! to ask for and takes the answers back as plain values.

pub mod antiloop;
pub mod catchup;
pub mod classifier;
pub mod commands;
pub mod clock;
pub mod config;
pub mod delivery;
pub mod dispatcher;
pub mod guarantees;
pub mod language;
pub mod mode;
pub mod models;
pub mod number;
pub mod permission;
pub mod registry;
pub mod replies;
pub mod schedule;
pub mod status;
pub mod text;
pub mod translator;
pub mod watch;
