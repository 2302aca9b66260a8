//! Verified core of the Kon bot.
//!
//! The heart of the crate is the resilient cache client: [`backoff`] holds
//! the schedule of delays between attempts to reach the store, [`cache`] the
//! machine that builds the client and the requests the client makes,
//! [`store`] what the client expects of its store, and [`memory`] a store in
//! memory that meets those expectations.
//!
//! The other modules hold the rules behind the bot's commands: [`config`]
//! the bot's settings, [`ilo`], [`translate`], [`wargaming`] and [`uptime`]
//! what each command asks for and how it shows the answer, [`events`] and
//! [`notices`] what the bot does, logs and replies when it is told something
//! or something goes wrong, and [`embed`] and [`text`] the messages and the
//! handling of text that they share.
//!
//! Nothing in this crate performs I/O. A thin asynchronous shell makes the
//! network calls and reports how they ended; the functions here decide what
//! is asked, what is shown and what happens next.

pub mod backoff;
pub mod cache;
pub mod config;
pub mod embed;
pub mod events;
pub mod ilo;
pub mod memory;
pub mod notices;
pub mod store;
pub mod text;
pub mod translate;
pub mod uptime;
pub mod wargaming;
