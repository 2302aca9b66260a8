//! The rules behind the game-server status command.

use crate::text::{
    join, joined, lemma_replaced_by_itself, replace, replaced, same_text, split, split_text, texts,
};
use crate::embed::{fields_of, to_fields, Embed};
use vstd::prelude::*;
use vstd::string::*;

verus! {

/// The region that a server is shown under, for the servers whose own name
/// says less than their region does.
pub open spec fn region_of(id: Seq<char>) -> Option<Seq<char>> {
    if id == "wotbsg"@ {
        Some("ASIA"@)
    } else if id == "wowssg"@ {
        Some("ASIA"@)
    } else if id == "wowseu"@ {
        Some("EU"@)
    } else {
        None
    }
}

/// Looks up the region that the server with the given id is shown under.
pub fn id_name_map(id: &str) -> (name: Option<&'static str>)
    ensures
        match name {
            Some(name) => region_of(id@) == Some(name@),
            None => region_of(id@) is None,
        },
{
    if same_text(id, "wotbsg") {
        Some("ASIA")
    } else if same_text(id, "wowssg") {
        Some("ASIA")
    } else if same_text(id, "wowseu") {
        Some("EU")
    } else {
        None
    }
}

/// The regions whose servers are asked for their status, each with the
/// name it is shown under.
pub fn regions() -> (regions: Vec<(&'static str, &'static str)>)
    ensures
        regions@.len() == 4,
        regions@[0].0@ == "asia"@ && regions@[0].1@ == "Asia (WoT)"@,
        regions@[1].0@ == "eu"@ && regions@[1].1@ == "Europe (WoT)"@,
        regions@[2].0@ == "wgcb"@ && regions@[2].1@ == "Console (WoTX)"@,
        regions@[3].0@ == "lg"@ && regions@[3].1@ == "Europe (WoWL)"@,
{
    let mut regions: Vec<(&'static str, &'static str)> = Vec::new();
    regions.push(("asia", "Asia (WoT)"));
    regions.push(("eu", "Europe (WoT)"));
    regions.push(("wgcb", "Console (WoTX)"));
    regions.push(("lg", "Europe (WoWL)"));
    regions
}

/// The address of a region's status page: the address for Asia with the
/// region's own code wherever that address says `asia`. For Asia itself that
/// is the address as it stands.
pub fn region_url(base: &str, region: &str) -> (address: String)
    ensures
        address@ == replaced(base@, "asia"@, region@),
        region@ == "asia"@ ==> address@ == base@,
{
    proof {
        lemma_replaced_by_itself(base@, "asia"@);
    }
    replace(base, "asia", region)
}

/// Why a region's status could not be had.
#[derive(Debug)]
pub enum FetchFailure {
    /// The page could not be reached.
    Connect(String),
    /// The page did not answer in time.
    RequestTimedOut,
    /// The answer could not be read.
    Parse(String),
    /// Reading the answer took too long.
    ParseTimedOut,
    /// The answer does not hold what a status answer holds.
    InvalidFormat,
}

impl FetchFailure {
    /// The words that describe the failure.
    pub open spec fn text(&self) -> Seq<char> {
        match self {
            FetchFailure::Connect(cause) => "Failed to connect: "@ + cause@,
            FetchFailure::RequestTimedOut => "Request timed out"@,
            FetchFailure::Parse(cause) => "Failed to parse response: "@ + cause@,
            FetchFailure::ParseTimedOut => "Response parsing timed out"@,
            FetchFailure::InvalidFormat => "Invalid response format"@,
        }
    }

    /// Describes the failure in words.
    pub fn message(&self) -> (text: String)
        ensures
            text@ == self.text(),
    {
        match self {
            FetchFailure::Connect(cause) => {
                let mut text = String::from_str("Failed to connect: ");
                text.append(cause.as_str());
                text
            },
            FetchFailure::RequestTimedOut => String::from_str("Request timed out"),
            FetchFailure::Parse(cause) => {
                let mut text = String::from_str("Failed to parse response: ");
                text.append(cause.as_str());
                text
            },
            FetchFailure::ParseTimedOut => String::from_str("Response parsing timed out"),
            FetchFailure::InvalidFormat => String::from_str("Invalid response format"),
        }
    }
}

/// The line that reports a region whose status could not be had.
pub fn region_error(region_name: &str, cause: &str) -> (line: String)
    ensures
        line@ == "**"@ + region_name@ + ":** "@ + cause@,
{
    let mut line = String::from_str("**");
    line.append(region_name);
    line.append(":** ");
    line.append(cause);
    line
}

/// The note on the regions whose status could not be had, or `None` if
/// every region answered.
pub fn failures_note(errors: &Vec<String>) -> (note: Option<String>)
    ensures
        match note {
            None => errors@.len() == 0,
            Some(text) => errors@.len() > 0 && text@ == "No response from certain servers:\n"@
                + joined(texts(errors@), "\n"@),
        },
{
    if errors.len() == 0 {
        None
    } else {
        let mut text = String::from_str("No response from certain servers:\n");
        let lines = join(errors, "\n");
        text.append(lines.as_str());
        Some(text)
    }
}

/// One server as a status page reports it.
#[derive(Debug)]
pub struct Server {
    pub name: String,
    pub id: String,
    pub availability: String,
}

/// One entry of a status page: a title, if it has one, and the servers
/// listed under it, if it lists any.
#[derive(Debug)]
pub struct Listing {
    pub title: Option<String>,
    pub servers: Option<Vec<Server>>,
}

/// Whether an entry of a status page is shown: it must have a title and at
/// least one server.
pub open spec fn is_shown(listing: Listing) -> bool {
    listing.title is Some && listing.servers is Some && listing.servers->Some_0@.len() > 0
}

/// The entries of a status page that are shown, in their order, each as
/// its title and its servers.
pub open spec fn shown(listings: Seq<Listing>) -> Seq<(String, Vec<Server>)>
    decreases listings.len(),
{
    if listings.len() == 0 {
        Seq::empty()
    } else if is_shown(listings.last()) {
        shown(listings.drop_last()).push(
            (listings.last().title->Some_0, listings.last().servers->Some_0),
        )
    } else {
        shown(listings.drop_last())
    }
}

/// Picks from the entries of a status page those that are shown.
pub fn shown_listings(listings: Vec<Listing>) -> (groups: Vec<(String, Vec<Server>)>)
    ensures
        groups@ == shown(listings@),
{
    let mut groups: Vec<(String, Vec<Server>)> = Vec::new();
    for listing in it: listings
        invariant
            it.seq() == listings@,
            groups@ == shown(listings@.take(it.index() as int)),
    {
        proof {
            assert(listings@.take(it.index() + 1).drop_last() =~= listings@.take(
                it.index() as int,
            ));
        }
        match listing.title {
            Some(title) => match listing.servers {
                Some(servers) => {
                    if servers.len() > 0 {
                        groups.push((title, servers));
                    }
                },
                None => {},
            },
            None => {},
        }
    }
    proof {
        assert(listings@.take(listings@.len() as int) =~= listings@);
    }
    groups
}

/// Reads a status answer: `data` is the list of entries that the answer
/// holds, or `None` where it holds no such list. An answer without the list
/// is of an invalid format; of any other, the entries that are shown are
/// handed on.
pub fn listings_or_invalid(data: Option<Vec<Listing>>) -> (groups: Result<
    Vec<(String, Vec<Server>)>,
    FetchFailure,
>)
    ensures
        match data {
            None => groups is Err && groups->Err_0 is InvalidFormat,
            Some(listings) => groups is Ok && groups->Ok_0@ == shown(listings@),
        },
{
    match data {
        None => Err(FetchFailure::InvalidFormat),
        Some(listings) => Ok(shown_listings(listings)),
    }
}

/// How a server's availability is shown.
pub open spec fn availability_label(availability: Seq<char>) -> Seq<char> {
    if availability == "1"@ {
        "Online"@
    } else if availability == "-1"@ {
        "Offline"@
    } else {
        "Unknown"@
    }
}

/// The name a server is shown under: the region that goes with the part of
/// its id before the first colon, or its own name where that part has no
/// region.
pub open spec fn shown_name(server: Server) -> Seq<char> {
    match region_of(split_text(server.id@, ':')[0]) {
        Some(region) => region,
        None => server.name@,
    }
}

/// The line that shows one server: its name and whether it is available.
pub open spec fn server_line(server: Server) -> Seq<char> {
    "**"@ + shown_name(server) + ":** "@ + availability_label(server.availability@)
}

/// Writes the line that shows one server.
pub fn render_server(server: &Server) -> (line: String)
    ensures
        line@ == server_line(*server),
{
    let pieces = split(server.id.as_str(), ':');
    proof {
        assert(texts(pieces@)[0] == pieces@[0]@);
    }
    let mut line = String::from_str("**");
    match id_name_map(pieces[0].as_str()) {
        Some(region) => line.append(region),
        None => line.append(server.name.as_str()),
    }
    line.append(":** ");
    if same_text(server.availability.as_str(), "1") {
        line.append("Online");
    } else if same_text(server.availability.as_str(), "-1") {
        line.append("Offline");
    } else {
        line.append("Unknown");
    }
    line
}

/// The lines that show the given servers, in their order.
pub open spec fn lines_of(servers: Seq<Server>) -> Seq<Seq<char>> {
    Seq::new(servers.len(), |i: int| server_line(servers[i]))
}

/// The titles of the given groups, each once, in the order in which they
/// first occur.
pub open spec fn titles_of(groups: Seq<(String, Vec<Server>)>) -> Seq<Seq<char>>
    decreases groups.len(),
{
    if groups.len() == 0 {
        Seq::empty()
    } else {
        let earlier = titles_of(groups.drop_last());
        if earlier.contains(groups.last().0@) {
            earlier
        } else {
            earlier.push(groups.last().0@)
        }
    }
}

/// The lines of all servers that the given groups list under `title`, in
/// the order of the groups and of the servers in them.
pub open spec fn lines_under(groups: Seq<(String, Vec<Server>)>, title: Seq<char>) -> Seq<
    Seq<char>,
>
    decreases groups.len(),
{
    if groups.len() == 0 {
        Seq::empty()
    } else if groups.last().0@ == title {
        lines_under(groups.drop_last(), title) + lines_of(groups.last().1@)
    } else {
        lines_under(groups.drop_last(), title)
    }
}

/// The titles of the given groups, each once, in the order in which they
/// first occur.
fn distinct_titles(groups: &Vec<(String, Vec<Server>)>) -> (titles: Vec<String>)
    ensures
        texts(titles@) == titles_of(groups@),
{
    let mut titles: Vec<String> = Vec::new();
    let mut g: usize = 0;
    proof {
        assert(texts(titles@) =~= titles_of(groups@.take(0)));
    }
    while g < groups.len()
        invariant
            g <= groups.len(),
            texts(titles@) == titles_of(groups@.take(g as int)),
        decreases groups.len() - g,
    {
        let title = &groups[g].0;
        let mut known = false;
        let mut t: usize = 0;
        while t < titles.len()
            invariant
                t <= titles.len(),
                known <==> exists|j: int| 0 <= j < t && titles@[j]@ == title@,
            decreases titles.len() - t,
        {
            if titles[t] == *title {
                known = true;
            }
            t += 1;
        }
        proof {
            let earlier = titles_of(groups@.take(g as int));
            assert(groups@.take(g + 1).drop_last() =~= groups@.take(g as int));
            assert(groups@.take(g + 1).last().0@ == title@);
            if known {
                let j = choose|j: int| 0 <= j < titles@.len() && titles@[j]@ == title@;
                assert(earlier[j] == title@);
            } else {
                if earlier.contains(title@) {
                    let j = choose|j: int| 0 <= j < earlier.len() && earlier[j] == title@;
                    assert(titles@[j]@ == title@);
                }
            }
        }
        if !known {
            let fresh = title.clone();
            proof {
                assert(texts(titles@.push(fresh)) =~= texts(titles@).push(title@));
            }
            titles.push(fresh);
        }
        g += 1;
    }
    proof {
        assert(groups@.take(groups.len() as int) =~= groups@);
    }
    titles
}

/// The lines of all servers that the given groups list under `title`.
fn collect_lines(groups: &Vec<(String, Vec<Server>)>, title: &String) -> (lines: Vec<String>)
    ensures
        texts(lines@) == lines_under(groups@, title@),
{
    let mut lines: Vec<String> = Vec::new();
    let mut g: usize = 0;
    proof {
        assert(texts(lines@) =~= lines_under(groups@.take(0), title@));
    }
    while g < groups.len()
        invariant
            g <= groups.len(),
            texts(lines@) == lines_under(groups@.take(g as int), title@),
        decreases groups.len() - g,
    {
        proof {
            assert(groups@.take(g + 1).drop_last() =~= groups@.take(g as int));
        }
        if groups[g].0 == *title {
            let servers = &groups[g].1;
            let ghost before = texts(lines@);
            let mut k: usize = 0;
            proof {
                assert(texts(lines@) =~= before + lines_of(servers@.take(0)));
            }
            while k < servers.len()
                invariant
                    k <= servers.len(),
                    texts(lines@) == before + lines_of(servers@.take(k as int)),
                decreases servers.len() - k,
            {
                let line = render_server(&servers[k]);
                proof {
                    assert(texts(lines@.push(line)) =~= texts(lines@).push(line@));
                    assert(lines_of(servers@.take(k + 1)) =~= lines_of(servers@.take(k as int)).push(
                        server_line(servers@[k as int]),
                    ));
                    assert(texts(lines@).push(line@) =~= before + lines_of(servers@.take(k + 1)));
                }
                lines.push(line);
                k += 1;
            }
            proof {
                assert(servers@.take(servers.len() as int) =~= servers@);
            }
        }
        g += 1;
    }
    proof {
        assert(groups@.take(groups.len() as int) =~= groups@);
    }
    lines
}

/// Turns the servers of all regions into the entries of the status message.
///
/// There is one entry for each title, in the order in which the titles
/// first occur. It holds the lines of all servers listed under that title,
/// whichever region reported them, in the order in which they were reported,
/// and it is marked to be laid out in line with the others.
pub fn process_pms_statuses(servers: Vec<(String, Vec<Server>)>) -> (statuses: Vec<
    (String, String, bool),
>)
    ensures
        statuses@.len() == titles_of(servers@).len(),
        forall|i: int|
            0 <= i < statuses@.len() ==> {
                &&& (#[trigger] statuses@[i]).0@ == titles_of(servers@)[i]
                &&& statuses@[i].1@ == joined(lines_under(servers@, titles_of(servers@)[i]), "\n"@)
                &&& statuses@[i].2
            },
{
    let titles = distinct_titles(&servers);
    let mut statuses: Vec<(String, String, bool)> = Vec::new();
    let mut t: usize = 0;
    while t < titles.len()
        invariant
            t <= titles.len(),
            texts(titles@) == titles_of(servers@),
            statuses@.len() == t,
            forall|i: int|
                0 <= i < t ==> {
                    &&& (#[trigger] statuses@[i]).0@ == titles_of(servers@)[i]
                    &&& statuses@[i].1@ == joined(
                        lines_under(servers@, titles_of(servers@)[i]),
                        "\n"@,
                    )
                    &&& statuses@[i].2
                },
        decreases titles.len() - t,
    {
        proof {
            assert(texts(titles@)[t as int] == titles@[t as int]@);
        }
        let lines = collect_lines(&servers, &titles[t]);
        let text = join(&lines, "\n");
        statuses.push((titles[t].clone(), text, true));
        t += 1;
    }
    statuses
}

/// What asking one region came to: the name the region is shown under,
/// and its servers or the reason why there are none.
#[derive(Debug)]
pub struct RegionResult {
    pub region_name: String,
    pub outcome: Result<Vec<(String, Vec<Server>)>, FetchFailure>,
}

/// The groups of servers that the regions reported, region after region.
pub open spec fn reported(results: Seq<RegionResult>) -> Seq<(String, Vec<Server>)>
    decreases results.len(),
{
    if results.len() == 0 {
        Seq::empty()
    } else {
        reported(results.drop_last()) + match results.last().outcome {
            Ok(groups) => groups@,
            Err(_) => Seq::empty(),
        }
    }
}

/// The lines that report the regions whose status could not be had, region
/// after region.
pub open spec fn failure_lines(results: Seq<RegionResult>) -> Seq<Seq<char>>
    decreases results.len(),
{
    if results.len() == 0 {
        Seq::empty()
    } else {
        match results.last().outcome {
            Ok(_) => failure_lines(results.drop_last()),
            Err(failure) => failure_lines(results.drop_last()).push(
                "**"@ + results.last().region_name@ + ":** "@ + failure.text(),
            ),
        }
    }
}

/// Sorts what the regions came to into the servers that were reported and
/// the lines about the regions that failed.
pub fn gather(results: Vec<RegionResult>) -> (gathered: (Vec<(String, Vec<Server>)>, Vec<String>))
    ensures
        gathered.0@ == reported(results@),
        texts(gathered.1@) == failure_lines(results@),
{
    let mut servers: Vec<(String, Vec<Server>)> = Vec::new();
    let mut errors: Vec<String> = Vec::new();
    proof {
        assert(texts(errors@) =~= failure_lines(results@.take(0)));
    }
    for result in it: results
        invariant
            it.seq() == results@,
            servers@ == reported(results@.take(it.index() as int)),
            texts(errors@) == failure_lines(results@.take(it.index() as int)),
    {
        proof {
            assert(results@.take(it.index() + 1).drop_last() =~= results@.take(it.index() as int));
        }
        let RegionResult { region_name, outcome } = result;
        match outcome {
            Ok(groups) => {
                let mut groups = groups;
                servers.append(&mut groups);
            },
            Err(failure) => {
                let cause = failure.message();
                let line = region_error(region_name.as_str(), cause.as_str());
                proof {
                    assert(texts(errors@.push(line)) =~= texts(errors@).push(line@));
                    assert(servers@ + Seq::<(String, Vec<Server>)>::empty() =~= servers@);
                }
                errors.push(line);
            },
        }
    }
    proof {
        assert(results@.take(results@.len() as int) =~= results@);
    }
    (servers, errors)
}

/// The message that shows the status of the game servers: one entry per
/// title, and a note on the regions that did not answer, if there are any.
pub fn status_embed(color: u32, results: Vec<RegionResult>) -> (embed: Embed)
    ensures
        embed.color == color,
        embed.title is Some && embed.title->Some_0@ == "Wargaming Server Status"@,
        match embed.description {
            None => failure_lines(results@).len() == 0,
            Some(note) => failure_lines(results@).len() > 0 && note@
                == "No response from certain servers:\n"@ + joined(failure_lines(results@), "\n"@),
        },
        embed.fields@.len() == titles_of(reported(results@)).len(),
        forall|i: int|
            0 <= i < embed.fields@.len() ==> {
                &&& (#[trigger] embed.fields@[i]).name@ == titles_of(reported(results@))[i]
                &&& embed.fields@[i].value@ == joined(
                    lines_under(reported(results@), titles_of(reported(results@))[i]),
                    "\n"@,
                )
                &&& embed.fields@[i].inline
            },
        embed.thumbnail is None,
        embed.author is None,
        !embed.timestamped,
{
    let (servers, errors) = gather(results);
    let statuses = process_pms_statuses(servers);
    let mut embed = Embed::new(color);
    embed.title = Some(String::from_str("Wargaming Server Status"));
    embed.description = failures_note(&errors);
    embed.fields = to_fields(statuses);
    embed
}

} // verus!
