//! What the bot says about itself: the lines it logs, the replies it gives
//! when a command fails, and the developers it asks for help.

use crate::text::{decimal, decimal_text, join, joined, texts};
use crate::embed::Embed;
use vstd::prelude::*;
use vstd::string::*;

verus! {

/// How a user is mentioned in a message.
pub open spec fn mention_text(user: u64) -> Seq<char> {
    "<@"@ + decimal_text(user as nat) + ">"@
}

/// The mentions of those of `devs` that are among `owners`, in the order
/// of `devs`.
pub open spec fn mentions_of(devs: Seq<u64>, owners: Seq<u64>) -> Seq<Seq<char>>
    decreases devs.len(),
{
    if devs.len() == 0 {
        Seq::empty()
    } else if owners.contains(devs.last()) {
        mentions_of(devs.drop_last(), owners).push(mention_text(devs.last()))
    } else {
        mentions_of(devs.drop_last(), owners)
    }
}

/// Whether `user` is among `owners`.
fn is_owner(owners: &Vec<u64>, user: u64) -> (found: bool)
    ensures
        found == owners@.contains(user),
{
    let mut i: usize = 0;
    while i < owners.len()
        invariant
            i <= owners.len(),
            forall|j: int| 0 <= j < i ==> owners@[j] != user,
        decreases owners.len() - i,
    {
        if owners[i] == user {
            return true;
        }
        i += 1;
    }
    false
}

/// Mentions the developers who own the running application, separated by
/// commas, or returns `None` if none of the developers does.
pub fn mention_dev(devs: &Vec<u64>, owners: &Vec<u64>) -> (mentions: Option<String>)
    ensures
        match mentions {
            None => mentions_of(devs@, owners@).len() == 0,
            Some(text) => mentions_of(devs@, owners@).len() > 0 && text@ == joined(
                mentions_of(devs@, owners@),
                ", "@,
            ),
        },
{
    let mut mentions: Vec<String> = Vec::new();
    let mut i: usize = 0;
    proof {
        assert(texts(mentions@) =~= mentions_of(devs@.take(0), owners@));
    }
    while i < devs.len()
        invariant
            i <= devs.len(),
            texts(mentions@) == mentions_of(devs@.take(i as int), owners@),
        decreases devs.len() - i,
    {
        proof {
            assert(devs@.take(i + 1).drop_last() =~= devs@.take(i as int));
        }
        if is_owner(owners, devs[i]) {
            let mut mention = String::from_str("<@");
            let id = decimal(devs[i]);
            mention.append(id.as_str());
            mention.append(">");
            proof {
                assert(texts(mentions@.push(mention)) =~= texts(mentions@).push(mention@));
            }
            mentions.push(mention);
        }
        i += 1;
    }
    proof {
        assert(devs@.take(devs.len() as int) =~= devs@);
    }
    if mentions.len() == 0 {
        None
    } else {
        Some(join(&mentions, ", "))
    }
}

/// The line logged when a command has failed.
pub fn command_error_log(command: &str, error: &str) -> (line: String)
    ensures
        line@ == "PoiseCommandError("@ + command@ + "): "@ + error@,
{
    let mut line = String::from_str("PoiseCommandError(");
    line.append(command);
    line.append("): ");
    line.append(error);
    line
}

/// What the user is told when a command has failed. `mentions` names whom
/// to ask; where there is nobody to name, the place stays empty.
pub fn command_error_reply(mentions: Option<&str>) -> (text: String)
    ensures
        text@ == "Encountered an error during command execution, ask "@ + (match mentions {
            Some(mentions) => mentions@,
            None => Seq::empty(),
        }) + " to check console for more details!"@,
{
    let mut text = String::from_str("Encountered an error during command execution, ask ");
    match mentions {
        Some(mentions) => text.append(mentions),
        None => {},
    }
    text.append(" to check console for more details!");
    text
}

/// What the user is told when a command has panicked.
pub fn command_panic_reply(mentions: Option<&str>) -> (text: String)
    ensures
        text@ == "Command panicked during execution, ask "@ + (match mentions {
            Some(mentions) => mentions@,
            None => Seq::empty(),
        }) + " to check console for more details!"@,
{
    let mut text = String::from_str("Command panicked during execution, ask ");
    match mentions {
        Some(mentions) => text.append(mentions),
        None => {},
    }
    text.append(" to check console for more details!");
    text
}

/// The line logged when a command has panicked and the user could not be
/// told.
pub fn command_panic_log(command: &str, payload: &str) -> (line: String)
    ensures
        line@ == "PoiseCommandPanicError("@ + command@ + "): "@ + payload@,
{
    let mut line = String::from_str("PoiseCommandPanicError(");
    line.append(command);
    line.append("): ");
    line.append(payload);
    line
}

/// The line logged when someone used an interaction that the bot does not
/// know.
pub fn unknown_interaction_log(user: &str, interaction: &str) -> (line: String)
    ensures
        line@ == "PoiseUnknownInteractionError: "@ + user@
            + " tried to execute an unknown interaction ("@ + interaction@ + ")"@,
{
    let mut line = String::from_str("PoiseUnknownInteractionError: ");
    line.append(user);
    line.append(" tried to execute an unknown interaction (");
    line.append(interaction);
    line.append(")");
    line
}

/// The line logged for any other failure of the framework.
pub fn other_error_log(description: &str) -> (line: String)
    ensures
        line@ == "PoiseOtherError: "@ + description@,
{
    let mut line = String::from_str("PoiseOtherError: ");
    line.append(description);
    line
}

/// The line logged at start-up that names the build.
pub fn build_version_log(version: &str, commit: &str, branch: &str) -> (line: String)
    ensures
        line@ == "Event[Ready] Build version: v"@ + version@ + " ("@ + commit@ + ":"@ + branch@
            + ")"@,
{
    let mut line = String::from_str("Event[Ready] Build version: v");
    line.append(version);
    line.append(" (");
    line.append(commit);
    line.append(":");
    line.append(branch);
    line.append(")");
    line
}

/// The line logged once the bot is connected.
pub fn connected_log(name: &str) -> (line: String)
    ensures
        line@ == "Event[Ready] Connected to API as "@ + name@,
{
    let mut line = String::from_str("Event[Ready] Connected to API as ");
    line.append(name);
    line
}

/// The line logged in development about the sessions that are left.
pub fn session_limit_log(remaining: u64, total: u64) -> (line: String)
    ensures
        line@ == "Event[Ready][Notice] Session limit: "@ + decimal_text(remaining as nat) + "/"@
            + decimal_text(total as nat),
{
    let mut line = String::from_str("Event[Ready][Notice] Session limit: ");
    let left = decimal(remaining);
    line.append(left.as_str());
    line.append("/");
    let all = decimal(total);
    line.append(all.as_str());
    line
}

/// The heading of the message that announces that the bot is ready.
pub fn ready_heading(name: &str) -> (text: String)
    ensures
        text@ == name@ + " is ready!"@,
{
    let mut text = String::from_str(name);
    text.append(" is ready!");
    text
}

/// The line logged before a command runs: where, who and what. A command
/// run outside a guild is logged under `Unknown Guild`; a command typed as a
/// message is shown with the prefix it was typed with, any other with a
/// slash.
pub fn command_log(guild: Option<&str>, author: &str, typed_prefix: Option<&str>, command: &str) -> (line:
    String)
    ensures
        line@ == "Discord["@ + (match guild {
            Some(guild) => guild@,
            None => "Unknown Guild"@,
        }) + "] "@ + author@ + " ran "@ + (match typed_prefix {
            Some(prefix) => prefix@,
            None => "/"@,
        }) + command@,
{
    let mut line = String::from_str("Discord[");
    match guild {
        Some(guild) => line.append(guild),
        None => line.append("Unknown Guild"),
    }
    line.append("] ");
    line.append(author);
    line.append(" ran ");
    match typed_prefix {
        Some(prefix) => line.append(prefix),
        None => line.append("/"),
    }
    line.append(command);
    line
}

/// Something that went wrong while the framework ran a command.
#[derive(Debug)]
pub enum Failure {
    /// A command returned an error.
    Command { command: String, error: String },
    /// A command panicked; `payload` is what it panicked with, in words.
    Panic { command: String, payload: String },
    /// Someone used an interaction that the bot does not know.
    UnknownInteraction { user: String, interaction: String },
    /// Anything else, described in words.
    Other { description: String },
}

/// What to do about a failure.
#[derive(Debug)]
pub struct Reaction {
    /// The line to log at once, if there is one.
    pub log: Option<String>,
    /// What to tell the user, if anything.
    pub reply: Option<String>,
    /// The line to log if the user could not be told, if there is one.
    pub log_if_unanswered: Option<String>,
}

/// How the developers to ask are named in a reply: by their mentions, or
/// not at all where there is nobody to mention.
pub open spec fn whom_to_ask(mentions: Option<String>) -> Seq<char> {
    match mentions {
        Some(mentions) => mentions@,
        None => Seq::empty(),
    }
}

/// Decides what to do about a failure, `mentions` naming the developers to
/// ask.
///
/// A command that returned an error is logged, and the user is told. A
/// command that panicked is answered first and logged only if the answer
/// could not be sent. Everything else is logged and not answered.
pub fn react(failure: &Failure, mentions: Option<String>) -> (reaction: Reaction)
    ensures
        match *failure {
            Failure::Command { command, error } => {
                &&& reaction.log is Some && reaction.log->Some_0@ == "PoiseCommandError("@
                    + command@ + "): "@ + error@
                &&& reaction.reply is Some && reaction.reply->Some_0@
                    == "Encountered an error during command execution, ask "@ + whom_to_ask(
                    mentions,
                ) + " to check console for more details!"@
                &&& reaction.log_if_unanswered is None
            },
            Failure::Panic { command, payload } => {
                &&& reaction.log is None
                &&& reaction.reply is Some && reaction.reply->Some_0@
                    == "Command panicked during execution, ask "@ + whom_to_ask(mentions)
                    + " to check console for more details!"@
                &&& reaction.log_if_unanswered is Some && reaction.log_if_unanswered->Some_0@
                    == "PoiseCommandPanicError("@ + command@ + "): "@ + payload@
            },
            Failure::UnknownInteraction { user, interaction } => {
                &&& reaction.log is Some && reaction.log->Some_0@
                    == "PoiseUnknownInteractionError: "@ + user@
                    + " tried to execute an unknown interaction ("@ + interaction@ + ")"@
                &&& reaction.reply is None
                &&& reaction.log_if_unanswered is None
            },
            Failure::Other { description } => {
                &&& reaction.log is Some && reaction.log->Some_0@ == "PoiseOtherError: "@
                    + description@
                &&& reaction.reply is None
                &&& reaction.log_if_unanswered is None
            },
        },
{
    let whom: Option<&str> = match &mentions {
        Some(mentions) => Some(mentions.as_str()),
        None => None,
    };
    match failure {
        Failure::Command { command, error } => Reaction {
            log: Some(command_error_log(command.as_str(), error.as_str())),
            reply: Some(command_error_reply(whom)),
            log_if_unanswered: None,
        },
        Failure::Panic { command, payload } => Reaction {
            log: None,
            reply: Some(command_panic_reply(whom)),
            log_if_unanswered: Some(command_panic_log(command.as_str(), payload.as_str())),
        },
        Failure::UnknownInteraction { user, interaction } => Reaction {
            log: Some(unknown_interaction_log(user.as_str(), interaction.as_str())),
            reply: None,
            log_if_unanswered: None,
        },
        Failure::Other { description } => Reaction {
            log: Some(other_error_log(description.as_str())),
            reply: None,
            log_if_unanswered: None,
        },
    }
}

/// The message that announces that the bot is ready: its name in the
/// heading and its picture in the corner; where it has no picture the
/// address of the picture is empty.
pub fn ready_embed(color: u32, name: &str, avatar_url: Option<String>) -> (embed: Embed)
    ensures
        embed.color == color,
        embed.title is None,
        embed.description is None,
        embed.fields@.len() == 0,
        embed.thumbnail is Some && embed.thumbnail->Some_0@ == match avatar_url {
            Some(address) => address@,
            None => Seq::empty(),
        },
        embed.author is Some && embed.author->Some_0@ == name@ + " is ready!"@,
        !embed.timestamped,
{
    let mut embed = Embed::new(color);
    embed.thumbnail = Some(
        match avatar_url {
            Some(address) => address,
            None => String::new(),
        },
    );
    embed.author = Some(ready_heading(name));
    embed
}

} // verus!
