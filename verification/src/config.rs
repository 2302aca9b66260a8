//! The bot's fixed settings.

use crate::text::{contains, contains_text};
use vstd::prelude::*;
use vstd::string::*;

verus! {

/// The settings that the bot runs with: which environment it is in, the
/// colour of its messages, the channels it writes to and who develops it.
#[derive(Debug)]
pub struct ConfigMeta {
    pub env: String,
    pub embed_color: u32,
    pub ready_notify: u64,
    pub rss_channel: u64,
    pub kon_logs: u64,
    pub developers: Vec<u64>,
}

impl ConfigMeta {
    /// The settings for production.
    pub fn new() -> (config: Self)
        ensures
            config.env@ == "prod"@,
            config.embed_color == 0x5A99C7,
            config.ready_notify == 1268493237912604672,
            config.rss_channel == 865673694184996888,
            config.kon_logs == 1268493237912604672,
            config.developers@ == seq![190407856527376384u64],
    {
        let mut developers: Vec<u64> = Vec::new();
        developers.push(190407856527376384);
        assert(developers@ =~= seq![190407856527376384u64]);
        ConfigMeta {
            env: String::from_str("prod"),
            embed_color: 0x5A99C7,
            ready_notify: 1268493237912604672,
            rss_channel: 865673694184996888,
            kon_logs: 1268493237912604672,
            developers,
        }
    }

    /// The same settings in another environment.
    pub fn env(self, env: &str) -> (config: Self)
        ensures
            config.env@ == env@,
            config.embed_color == self.embed_color,
            config.ready_notify == self.ready_notify,
            config.rss_channel == self.rss_channel,
            config.kon_logs == self.kon_logs,
            config.developers == self.developers,
    {
        let mut config = self;
        config.env = String::from_str(env);
        config
    }

    /// The same settings with another colour for messages.
    pub fn embed_color(self, color: u32) -> (config: Self)
        ensures
            config.embed_color == color,
            config.env == self.env,
            config.ready_notify == self.ready_notify,
            config.rss_channel == self.rss_channel,
            config.kon_logs == self.kon_logs,
            config.developers == self.developers,
    {
        let mut config = self;
        config.embed_color = color;
        config
    }

    /// The same settings with another channel to announce readiness in.
    pub fn ready_notify(self, channel_id: u64) -> (config: Self)
        ensures
            config.ready_notify == channel_id,
            config.env == self.env,
            config.embed_color == self.embed_color,
            config.rss_channel == self.rss_channel,
            config.kon_logs == self.kon_logs,
            config.developers == self.developers,
    {
        let mut config = self;
        config.ready_notify = channel_id;
        config
    }

    /// The same settings with another channel for feeds.
    pub fn rss_channel(self, channel_id: u64) -> (config: Self)
        ensures
            config.rss_channel == channel_id,
            config.env == self.env,
            config.embed_color == self.embed_color,
            config.ready_notify == self.ready_notify,
            config.kon_logs == self.kon_logs,
            config.developers == self.developers,
    {
        let mut config = self;
        config.rss_channel = channel_id;
        config
    }

    /// The settings for development: the production settings in the
    /// environment `dev`, with a colour and channels of their own.
    pub fn development() -> (config: Self)
        ensures
            config.env@ == "dev"@,
            config.embed_color == 0xF1D63C,
            config.ready_notify == 1311282815601741844,
            config.rss_channel == 1311282815601741844,
            config.kon_logs == 1268493237912604672,
            config.developers@ == seq![190407856527376384u64],
    {
        ConfigMeta::new().env("dev").embed_color(0xF1D63C).ready_notify(
            1311282815601741844,
        ).rss_channel(1311282815601741844)
    }

    /// The prefix that commands typed as messages begin with.
    pub open spec fn prefix_text(&self) -> Seq<char> {
        if contains_text(self.env@, "dev"@) {
            "kon!"@
        } else {
            "k!"@
        }
    }

    /// The prefix that commands typed as messages begin with: one for every
    /// environment whose name holds `dev`, another for the rest.
    pub fn prefix(&self) -> (prefix: &'static str)
        ensures
            prefix@ == self.prefix_text(),
    {
        if contains(self.env.as_str(), "dev") {
            "kon!"
        } else {
            "k!"
        }
    }
}

} // verus!
