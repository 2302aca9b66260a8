//! What the bot does when the chat platform tells it something.

use crate::config::ConfigMeta;
use crate::embed::Embed;
use crate::notices::{build_version_log, connected_log, ready_embed, session_limit_log};
use crate::text::decimal_text;
use vstd::prelude::*;
use vstd::string::*;

verus! {

/// How many sessions the bot may still start, out of how many.
#[derive(Clone, Copy, Debug, PartialEq, Eq, Structural)]
pub struct SessionLimit {
    pub remaining: u64,
    pub total: u64,
}

/// The build that is running.
#[derive(Debug)]
pub struct Build {
    pub version: String,
    pub commit: String,
    pub branch: String,
}

/// Something the chat platform tells the bot.
#[derive(Debug)]
pub enum Event {
    /// The bot is connected under `name`. `session` is known in
    /// development only.
    Ready { name: String, avatar_url: Option<String>, session: Option<SessionLimit> },
    /// Anything else.
    Other,
}

/// Something for the shell to do.
#[derive(Debug)]
pub enum Action {
    /// Write a line to the log.
    Log(String),
    /// Send a framed message to a channel.
    Announce { channel: u64, embed: Embed },
}

/// The lines logged when the bot is ready, in their order: in development
/// a notice and the sessions that are left, then always the build and the
/// name under which the bot is connected.
pub open spec fn ready_lines(build: Build, name: Seq<char>, session: Option<SessionLimit>) -> Seq<
    Seq<char>,
> {
    let always = seq![
        "Event[Ready] Build version: v"@ + build.version@ + " ("@ + build.commit@ + ":"@
            + build.branch@ + ")"@,
        "Event[Ready] Connected to API as "@ + name,
    ];
    match session {
        Some(session) => seq![
            "Event[Ready][Notice] Detected a development environment!"@,
            "Event[Ready][Notice] Session limit: "@ + decimal_text(session.remaining as nat) + "/"@
                + decimal_text(session.total as nat),
        ] + always,
        None => always,
    }
}

/// The bot's reactions to what the chat platform tells it.
#[derive(Clone, Copy, Debug)]
pub struct DiscordEvents;

impl DiscordEvents {
    /// Decides what to do about `event`.
    ///
    /// When the bot is ready it logs who it is and announces itself in the
    /// channel that the settings name for that, with a message in the
    /// settings' colour. Nothing else calls for anything.
    pub fn dispatch(&self, config: &ConfigMeta, build: &Build, event: Event) -> (actions: Vec<
        Action,
    >)
        ensures
            match event {
                Event::Other => actions@.len() == 0,
                Event::Ready { name, avatar_url, session } => {
                    let lines = ready_lines(*build, name@, session);
                    &&& actions@.len() == lines.len() + 1
                    &&& forall|i: int|
                        0 <= i < lines.len() ==> (#[trigger] actions@[i]) is Log
                            && actions@[i]->Log_0@ == lines[i]
                    &&& actions@.last() is Announce
                    &&& actions@.last()->channel == config.ready_notify
                    &&& actions@.last()->embed.color == config.embed_color
                    &&& actions@.last()->embed.author is Some
                    &&& actions@.last()->embed.author->Some_0@ == name@ + " is ready!"@
                    &&& actions@.last()->embed.thumbnail is Some
                    &&& actions@.last()->embed.thumbnail->Some_0@ == match avatar_url {
                        Some(address) => address@,
                        None => Seq::empty(),
                    }
                    &&& actions@.last()->embed.title is None
                    &&& actions@.last()->embed.description is None
                    &&& actions@.last()->embed.fields@.len() == 0
                    &&& !actions@.last()->embed.timestamped
                },
            },
    {
        let mut actions: Vec<Action> = Vec::new();
        match event {
            Event::Other => {},
            Event::Ready { name, avatar_url, session } => {
                match session {
                    Some(session) => {
                        actions.push(
                            Action::Log(
                                String::from_str(
                                    "Event[Ready][Notice] Detected a development environment!",
                                ),
                            ),
                        );
                        actions.push(
                            Action::Log(session_limit_log(session.remaining, session.total)),
                        );
                    },
                    None => {},
                }
                actions.push(
                    Action::Log(
                        build_version_log(
                            build.version.as_str(),
                            build.commit.as_str(),
                            build.branch.as_str(),
                        ),
                    ),
                );
                actions.push(Action::Log(connected_log(name.as_str())));
                let embed = ready_embed(config.embed_color, name.as_str(), avatar_url);
                actions.push(Action::Announce { channel: config.ready_notify, embed });
            },
        }
        actions
    }
}

} // verus!
