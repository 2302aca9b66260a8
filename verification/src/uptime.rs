//! The rules behind the uptime command.

use crate::text::{join, joined, texts};
use vstd::prelude::*;
use vstd::string::*;

verus! {

/// For how many seconds the process has run, `now` seconds after the
/// epoch, if it started `started` seconds after the epoch. Where the start is
/// not known the answer is zero.
pub fn process_uptime(now: u64, started: Option<u64>) -> (seconds: u64)
    requires
        started is Some ==> started->Some_0 <= now,
    ensures
        seconds == match started {
            Some(started) => now - started,
            None => 0,
        },
{
    match started {
        Some(started) => now - started,
        None => 0,
    }
}

/// What the uptime message reports, each part already in words.
#[derive(Debug)]
pub struct Stats {
    pub bot_name: String,
    pub version: String,
    pub commit: String,
    pub branch: String,
    pub system_uptime: String,
    pub process_uptime: String,
    pub cpu: String,
    /// The memory that the process uses, if that could be found out.
    pub process_memory: Option<String>,
    pub used_memory: String,
    pub total_memory: String,
    pub os: String,
    pub kernel: String,
}

/// The lines of the uptime message.
pub open spec fn stat_lines(stats: Stats) -> Seq<Seq<char>> {
    seq![
        "**"@ + stats.bot_name@ + " v"@ + stats.version@ + "** `"@ + stats.commit@ + ":"@
            + stats.branch@ + "`"@,
        ">>> System: `"@ + stats.system_uptime@ + "`"@,
        "Process: `"@ + stats.process_uptime@ + "`"@,
        "CPU: `"@ + stats.cpu@ + "`"@,
        "RAM: `"@ + (match stats.process_memory {
            Some(memory) => memory@,
            None => "Unavailable"@,
        }) + "` (`"@ + stats.used_memory@ + "/"@ + stats.total_memory@ + "`)"@,
        "OS: `"@ + stats.os@ + "`"@,
        "Kernel: `"@ + stats.kernel@ + "`"@,
    ]
}

/// One line of the form `label` + text + `` ` ``.
fn quoted(label: &str, text: &str) -> (line: String)
    ensures
        line@ == label@ + text@ + "`"@,
{
    let mut line = String::from_str(label);
    line.append(text);
    line.append("`");
    line
}

/// Writes the uptime message: who the bot is, for how long the machine and
/// the process have run, and what they run on, one line each.
pub fn stat_message(stats: &Stats) -> (text: String)
    ensures
        text@ == joined(stat_lines(*stats), "\n"@),
{
    let mut lines: Vec<String> = Vec::new();
    let mut head = String::from_str("**");
    head.append(stats.bot_name.as_str());
    head.append(" v");
    head.append(stats.version.as_str());
    head.append("** `");
    head.append(stats.commit.as_str());
    head.append(":");
    head.append(stats.branch.as_str());
    head.append("`");
    lines.push(head);
    lines.push(quoted(">>> System: `", stats.system_uptime.as_str()));
    lines.push(quoted("Process: `", stats.process_uptime.as_str()));
    lines.push(quoted("CPU: `", stats.cpu.as_str()));
    let mut memory = String::from_str("RAM: `");
    match &stats.process_memory {
        Some(used) => memory.append(used.as_str()),
        None => memory.append("Unavailable"),
    }
    memory.append("` (`");
    memory.append(stats.used_memory.as_str());
    memory.append("/");
    memory.append(stats.total_memory.as_str());
    memory.append("`)");
    lines.push(memory);
    lines.push(quoted("OS: `", stats.os.as_str()));
    lines.push(quoted("Kernel: `", stats.kernel.as_str()));
    proof {
        assert(texts(lines@) =~= stat_lines(*stats));
    }
    join(&lines, "\n")
}

} // verus!
