//! The rules behind the server-management commands: where each kind of
//! reading is fetched from and how the readings are shown.

use crate::embed::{fields_of, to_fields, Embed, Field};
use crate::text::{same_text, signed_decimal, signed_decimal_text, trim, trimmed};
use crate::text::{split, split_text, texts, trim_end, trimmed_end};
use vstd::prelude::*;
use vstd::string::*;

verus! {

/// The name under which the managed server is shown.
pub const ILO_HOSTNAME: &'static str = "POMNI";

/// The kinds of data that the management interface is asked for.
#[derive(Clone, Copy, Debug, PartialEq, Eq, Structural)]
pub enum RedfishEndpoint {
    Thermal,
    Power,
    System,
    EventService,
    LogServices,
}

impl RedfishEndpoint {
    /// The path of this endpoint below the root of the interface.
    pub open spec fn url_text(&self) -> Seq<char> {
        match self {
            RedfishEndpoint::Thermal => "Chassis/1/Thermal"@,
            RedfishEndpoint::Power => "Chassis/1/Power"@,
            RedfishEndpoint::System => "Systems/1"@,
            RedfishEndpoint::EventService => "EventService"@,
            RedfishEndpoint::LogServices => "Systems/1/LogServices/IML/Entries"@,
        }
    }

    /// The path of this endpoint below the root of the interface.
    pub fn url(&self) -> (path: String)
        ensures
            path@ == self.url_text(),
    {
        match self {
            RedfishEndpoint::Thermal => String::from_str("Chassis/1/Thermal"),
            RedfishEndpoint::Power => String::from_str("Chassis/1/Power"),
            RedfishEndpoint::System => String::from_str("Systems/1"),
            RedfishEndpoint::EventService => String::from_str("EventService"),
            RedfishEndpoint::LogServices => String::from_str("Systems/1/LogServices/IML/Entries"),
        }
    }
}

/// The address to fetch `endpoint` from on the server at `host`.
pub fn redfish_url(host: &str, endpoint: RedfishEndpoint) -> (address: String)
    ensures
        address@ == "https://"@ + host@ + "/redfish/v1/"@ + endpoint.url_text(),
{
    let mut address = String::from_str("https://");
    address.append(host);
    address.append("/redfish/v1/");
    let path = endpoint.url();
    address.append(path.as_str());
    address
}

/// A timestamp such as `2024-05-01T12:30:00Z` as it is shown: day, month
/// and year separated by slashes, then the time without the `Z` at its end.
/// A text that is not a date, a `T` and a time, or whose date is not three
/// parts separated by dashes, has no such form.
pub open spec fn formatted_dt(input: Seq<char>) -> Option<Seq<char>> {
    let parts = split_text(input, 'T');
    if parts.len() != 2 {
        None
    } else {
        let date = split_text(parts[0], '-');
        if date.len() != 3 {
            None
        } else {
            Some(
                date[2] + "/"@ + date[1] + "/"@ + date[0] + " "@ + trimmed_end(parts[1], 'Z'),
            )
        }
    }
}

/// Rewrites a timestamp for display, or returns `None` if `input` is not
/// one.
pub fn fmt_dt(input: &str) -> (formatted: Option<String>)
    ensures
        match formatted {
            Some(text) => formatted_dt(input@) == Some(text@),
            None => formatted_dt(input@) is None,
        },
{
    let parts = split(input, 'T');
    if parts.len() != 2 {
        return None;
    }
    let date = split(parts[0].as_str(), '-');
    if date.len() != 3 {
        return None;
    }
    let mut text = String::from_str(date[2].as_str());
    text.append("/");
    text.append(date[1].as_str());
    text.append("/");
    text.append(date[0].as_str());
    text.append(" ");
    text.append(trim_end(parts[1].as_str(), 'Z'));
    proof {
        assert(texts(parts@)[0] == parts@[0]@);
        assert(texts(parts@)[1] == parts@[1]@);
        assert(texts(date@)[0] == date@[0]@);
        assert(texts(date@)[1] == date@[1]@);
        assert(texts(date@)[2] == date@[2]@);
    }
    Some(text)
}

/// The title of a message about the server: the server's name, a dash and
/// what the message is about.
pub fn embed_title(title: &str) -> (text: String)
    ensures
        text@ == ILO_HOSTNAME@ + " - "@ + title@,
{
    let mut text = String::from_str(ILO_HOSTNAME);
    text.append(" - ");
    text.append(title);
    text
}

/// A table from names to the names shown in their place.
#[verifier::external_type_specification]
#[verifier::external_body]
#[verifier::reject_recursive_types(K)]
#[verifier::reject_recursive_types(V)]
#[verifier::reject_recursive_types(S)]
pub struct ExDashMap<K, V, S>(dashmap::DashMap<K, V, S>);

/// What a table holds: for each name in it, the name shown in its place.
///
/// A table of this kind can be changed through a shared reference. The
/// library never does that, and what it says of a table holds for as long as
/// nobody else does.
pub uninterp spec fn table_entries(table: dashmap::DashMap<&'static str, &'static str>) -> Map<
    Seq<char>,
    Seq<char>,
>;

/// The entries of a table that holds nothing.
pub open spec fn no_entries() -> Map<Seq<char>, Seq<char>> {
    Map::empty()
}

/// `DashMap::new`: a table that holds nothing.
#[verifier::external_body]
fn empty_table() -> (table: dashmap::DashMap<&'static str, &'static str>)
    ensures
        table_entries(table) == no_entries(),
{
    dashmap::DashMap::new()
}

/// `DashMap::insert`: afterwards the table holds `value` under `key`, in
/// place of what it held under that key before, and everything else as
/// before. The table is taken by exclusive reference here, so that nobody
/// looks on while it changes.
#[verifier::external_body]
fn table_insert(
    table: &mut dashmap::DashMap<&'static str, &'static str>,
    key: &'static str,
    value: &'static str,
)
    ensures
        table_entries(*final(table)) == table_entries(*old(table)).insert(key@, value@),
{
    table.insert(key, value);
}

/// `DashMap::get`, with the value copied out of the guard: what the table
/// holds under `key`, if it holds anything.
#[verifier::external_body]
fn table_get(table: &dashmap::DashMap<&'static str, &'static str>, key: &str) -> (found: Option<
    &'static str,
>)
    ensures
        match found {
            Some(value) => table_entries(*table).contains_key(key@) && table_entries(*table)[key@]
                == value@,
            None => !table_entries(*table).contains_key(key@),
        },
{
    table.get(key).map(|entry| *entry.value())
}

/// The names that the temperature sensors are shown under.
pub open spec fn sensor_labels() -> Map<Seq<char>, Seq<char>> {
    no_entries().insert("01-Inlet Ambient"@, "Inlet Ambient"@).insert(
        "04-P1 DIMM 1-6"@,
        "P1 DIMM 1-6"@,
    ).insert("14-Chipset Zone"@, "Chipset Zone"@)
}

/// Builds the table of the names that the temperature sensors are shown
/// under.
pub fn sensor_names() -> (table: dashmap::DashMap<&'static str, &'static str>)
    ensures
        table_entries(table) == sensor_labels(),
{
    let mut table = empty_table();
    table_insert(&mut table, "01-Inlet Ambient", "Inlet Ambient");
    table_insert(&mut table, "04-P1 DIMM 1-6", "P1 DIMM 1-6");
    table_insert(&mut table, "14-Chipset Zone", "Chipset Zone");
    table
}

/// Whether readings of the sensor with this name are shown.
pub open spec fn is_shown_sensor(name: Seq<char>) -> bool {
    name == "01-Inlet Ambient"@ || name == "04-P1 DIMM 1-6"@ || name == "14-Chipset Zone"@
}

/// The name that a sensor is shown under according to `names`: the one
/// that the table holds for it, or `Unknown sensor` where it holds none.
pub open spec fn sensor_label(names: Map<Seq<char>, Seq<char>>, name: Seq<char>) -> Seq<char> {
    if names.contains_key(name) {
        names[name]
    } else {
        "Unknown sensor"@
    }
}

/// Looks up the name that a sensor is shown under.
pub fn sensor_name(names: &dashmap::DashMap<&'static str, &'static str>, name: &str) -> (label:
    &'static str)
    ensures
        label@ == sensor_label(table_entries(*names), name@),
{
    match table_get(names, name) {
        Some(label) => label,
        None => "Unknown sensor",
    }
}

/// How the stages of the server's start-up are shown.
pub open spec fn post_state_labels() -> Map<Seq<char>, Seq<char>> {
    no_entries().insert("FinishedPost"@, "Finished POST"@).insert(
        "InPost"@,
        "In POST (Booting)"@,
    ).insert("PowerOff"@, "Powered off"@)
}

/// Builds the table of how the stages of the server's start-up are shown.
pub fn post_states() -> (table: dashmap::DashMap<&'static str, &'static str>)
    ensures
        table_entries(table) == post_state_labels(),
{
    let mut table = empty_table();
    table_insert(&mut table, "FinishedPost", "Finished POST");
    table_insert(&mut table, "InPost", "In POST (Booting)");
    table_insert(&mut table, "PowerOff", "Powered off");
    table
}

/// How a stage of start-up is shown according to `states`: as the table
/// says, or as `Unknown POST state` where it says nothing.
pub open spec fn post_state_label(states: Map<Seq<char>, Seq<char>>, state: Seq<char>) -> Seq<
    char,
> {
    if states.contains_key(state) {
        states[state]
    } else {
        "Unknown POST state"@
    }
}

/// The words that show a stage of the server's start-up.
pub fn post_state(states: &dashmap::DashMap<&'static str, &'static str>, state: &str) -> (label:
    &'static str)
    ensures
        label@ == post_state_label(table_entries(*states), state@),
{
    match table_get(states, state) {
        Some(label) => label,
        None => "Unknown POST state",
    }
}

/// Whether a stage of start-up is worth a line in the log: every stage but
/// the finished one is.
pub fn post_state_is_notable(state: &str) -> (notable: bool)
    ensures
        notable == (state@ != "FinishedPost"@),
{
    !same_text(state, "FinishedPost")
}

/// One temperature reading.
#[derive(Debug)]
pub struct Temperature {
    pub name: String,
    pub reading_celsius: i32,
}

/// One fan with its speed in percent.
#[derive(Debug)]
pub struct Fan {
    pub fan_name: String,
    pub current_reading: i32,
}

/// The line that shows one temperature reading, the sensor under the name
/// that `names` gives it. A reading of zero gives no line, and neither does
/// a sensor that is not among those shown.
pub open spec fn temperature_line(
    names: Map<Seq<char>, Seq<char>>,
    name: Seq<char>,
    reading: int,
) -> Seq<char> {
    if reading == 0 || !is_shown_sensor(name) {
        Seq::empty()
    } else {
        "**"@ + sensor_label(names, name) + ":** `"@ + signed_decimal_text(reading) + "\u{b0}C`\n"@
    }
}

/// The lines that show the given temperature readings, in their order.
pub open spec fn temperatures_text(
    names: Map<Seq<char>, Seq<char>>,
    readings: Seq<Temperature>,
) -> Seq<char>
    decreases readings.len(),
{
    if readings.len() == 0 {
        Seq::empty()
    } else {
        temperatures_text(names, readings.drop_last()) + temperature_line(
            names,
            readings.last().name@,
            readings.last().reading_celsius as int,
        )
    }
}

/// Whether readings of the sensor with this name are shown.
fn shows_sensor(name: &str) -> (shown: bool)
    ensures
        shown == is_shown_sensor(name@),
{
    same_text(name, "01-Inlet Ambient") || same_text(name, "04-P1 DIMM 1-6") || same_text(
        name,
        "14-Chipset Zone",
    )
}

/// Writes the temperature readings that are shown, one line each.
pub fn render_temperatures(
    names: &dashmap::DashMap<&'static str, &'static str>,
    readings: &Vec<Temperature>,
) -> (text: String)
    ensures
        text@ == temperatures_text(table_entries(*names), readings@),
{
    let mut text = String::new();
    let mut i: usize = 0;
    while i < readings.len()
        invariant
            i <= readings.len(),
            text@ == temperatures_text(table_entries(*names), readings@.take(i as int)),
        decreases readings.len() - i,
    {
        proof {
            assert(readings@.take(i + 1).drop_last() =~= readings@.take(i as int));
        }
        let reading = &readings[i];
        let ghost before = text@;
        if reading.reading_celsius != 0 && shows_sensor(reading.name.as_str()) {
            text.append("**");
            text.append(sensor_name(names, reading.name.as_str()));
            text.append(":** `");
            let degrees = signed_decimal(reading.reading_celsius as i64);
            text.append(degrees.as_str());
            text.append("\u{b0}C`\n");
        }
        proof {
            assert(text@ =~= before + temperature_line(
                table_entries(*names),
                reading.name@,
                reading.reading_celsius as int,
            ));
        }
        i += 1;
    }
    proof {
        assert(readings@.take(readings.len() as int) =~= readings@);
    }
    text
}

/// The line that shows one fan. A fan that stands still gives no line.
pub open spec fn fan_line(name: Seq<char>, reading: int) -> Seq<char> {
    if reading == 0 {
        Seq::empty()
    } else {
        "**"@ + name + ":** `"@ + signed_decimal_text(reading) + "%`\n"@
    }
}

/// The lines that show the given fans, in their order.
pub open spec fn fans_text(fans: Seq<Fan>) -> Seq<char>
    decreases fans.len(),
{
    if fans.len() == 0 {
        Seq::empty()
    } else {
        fans_text(fans.drop_last()) + fan_line(
            fans.last().fan_name@,
            fans.last().current_reading as int,
        )
    }
}

/// Writes the fans that are running, one line each.
pub fn render_fans(fans: &Vec<Fan>) -> (text: String)
    ensures
        text@ == fans_text(fans@),
{
    let mut text = String::new();
    let mut i: usize = 0;
    while i < fans.len()
        invariant
            i <= fans.len(),
            text@ == fans_text(fans@.take(i as int)),
        decreases fans.len() - i,
    {
        proof {
            assert(fans@.take(i + 1).drop_last() =~= fans@.take(i as int));
        }
        let fan = &fans[i];
        let ghost before = text@;
        if fan.current_reading != 0 {
            text.append("**");
            text.append(fan.fan_name.as_str());
            text.append(":** `");
            let percent = signed_decimal(fan.current_reading as i64);
            text.append(percent.as_str());
            text.append("%`\n");
        }
        proof {
            assert(text@ =~= before + fan_line(fan.fan_name@, fan.current_reading as int));
        }
        i += 1;
    }
    proof {
        assert(fans@.take(fans.len() as int) =~= fans@);
    }
    text
}

/// The server's power figures, in watts.
#[derive(Clone, Copy, Debug, PartialEq, Eq, Structural)]
pub struct Power {
    pub power_capacity_watts: i32,
    pub power_consumed_watts: i32,
    pub average_consumed_watts: i32,
    pub max_consumed_watts: i32,
    pub min_consumed_watts: i32,
}

/// One line of a list of figures in watts.
pub open spec fn watts_line(label: Seq<char>, watts: int) -> Seq<char> {
    "**"@ + label + ":** `"@ + signed_decimal_text(watts) + "w`"@
}

/// The text that shows the power figures: capacity, consumption and its
/// average, maximum and minimum, one per line.
pub open spec fn power_text(power: Power) -> Seq<char> {
    watts_line("Power Capacity"@, power.power_capacity_watts as int) + "\n"@ + watts_line(
        "Power Consumed"@,
        power.power_consumed_watts as int,
    ) + "\n"@ + watts_line("Average Power"@, power.average_consumed_watts as int) + "\n"@
        + watts_line("Max Consumed"@, power.max_consumed_watts as int) + "\n"@ + watts_line(
        "Min Consumed"@,
        power.min_consumed_watts as int,
    )
}

/// Appends one line of a list of figures in watts.
fn push_watts(text: &mut String, label: &str, watts: i32)
    ensures
        final(text)@ == old(text)@ + watts_line(label@, watts as int),
{
    let ghost before = text@;
    text.append("**");
    text.append(label);
    text.append(":** `");
    let figure = signed_decimal(watts as i64);
    text.append(figure.as_str());
    text.append("w`");
    proof {
        assert(text@ =~= before + watts_line(label@, watts as int));
    }
}

/// Writes the power figures.
pub fn render_power(power: &Power) -> (text: String)
    ensures
        text@ == power_text(*power),
{
    let mut text = String::new();
    push_watts(&mut text, "Power Capacity", power.power_capacity_watts);
    text.append("\n");
    push_watts(&mut text, "Power Consumed", power.power_consumed_watts);
    text.append("\n");
    push_watts(&mut text, "Average Power", power.average_consumed_watts);
    text.append("\n");
    push_watts(&mut text, "Max Consumed", power.max_consumed_watts);
    text.append("\n");
    push_watts(&mut text, "Min Consumed", power.min_consumed_watts);
    proof {
        assert(text@ =~= power_text(*power));
    }
    text
}

/// The text that shows the state of the server: its health, or `Unknown`
/// where none is reported, the stage of its start-up, its power state and
/// its model.
pub open spec fn system_text(
    states: Map<Seq<char>, Seq<char>>,
    health: Option<Seq<char>>,
    post: Seq<char>,
    power_state: Seq<char>,
    model: Seq<char>,
) -> Seq<char> {
    let health = match health {
        Some(health) => health,
        None => "Unknown"@,
    };
    "**Health:** `"@ + health + "`\n"@ + "**POST:** `"@ + post_state_label(states, post) + "`\n"@
        + "**Power:** `"@ + power_state + "`\n"@ + "**Model:** `"@ + model + "`"@
}

/// Writes the state of the server.
pub fn render_system(
    states: &dashmap::DashMap<&'static str, &'static str>,
    health: Option<&str>,
    post: &str,
    power_state: &str,
    model: &str,
) -> (text: String)
    ensures
        text@ == system_text(
            table_entries(*states),
            match health {
                Some(health) => Some(health@),
                None => None,
            },
            post@,
            power_state@,
            model@,
        ),
{
    let mut text = String::from_str("**Health:** `");
    match health {
        Some(health) => text.append(health),
        None => text.append("Unknown"),
    }
    text.append("`\n");
    text.append("**POST:** `");
    text.append(post_state(states, post));
    text.append("`\n");
    text.append("**Power:** `");
    text.append(power_state);
    text.append("`\n");
    text.append("**Model:** `");
    text.append(model);
    text.append("`");
    proof {
        assert(text@ =~= system_text(
            table_entries(*states),
            match health {
                Some(health) => Some(health@),
                None => None,
            },
            post@,
            power_state@,
            model@,
        ));
    }
    text
}

/// The heading of the processors' entry: how many there are.
pub fn cpu_heading(count: i32) -> (text: String)
    ensures
        text@ == "CPU ("@ + signed_decimal_text(count as int) + "x)"@,
{
    let mut text = String::from_str("CPU (");
    let figure = signed_decimal(count as i64);
    text.append(figure.as_str());
    text.append("x)");
    text
}

/// The memory's entry: its size in gigabytes.
pub fn memory_size(gigabytes: i32) -> (text: String)
    ensures
        text@ == signed_decimal_text(gigabytes as int) + " GB"@,
{
    let mut text = signed_decimal(gigabytes as i64);
    text.append(" GB");
    text
}

/// One entry of the server's management log.
#[derive(Debug)]
pub struct ImlEntry {
    pub created: String,
    pub message: String,
    pub severity: String,
}

/// How many entries of the log are shown.
pub const SHOWN_LOG_ENTRIES: usize = 5;

/// The line that shows one entry of the log: its severity, when it was
/// made, or `Unknown` where that cannot be read, and its message.
pub open spec fn log_line(entry: ImlEntry) -> Seq<char> {
    let made = match formatted_dt(entry.created@) {
        Some(made) => made,
        None => "Unknown"@,
    };
    "**["@ + entry.severity@ + ":"@ + made + "]:** "@ + entry.message@ + "\n"@
}

/// The lines that show the last `count` of the given entries, the latest
/// first.
pub open spec fn latest_lines(entries: Seq<ImlEntry>, count: nat) -> Seq<char>
    decreases count,
{
    if count == 0 || entries.len() == 0 {
        Seq::empty()
    } else {
        log_line(entries.last()) + latest_lines(entries.drop_last(), (count - 1) as nat)
    }
}

/// The text that shows the log: its last five entries, the latest first.
pub open spec fn logs_text(entries: Seq<ImlEntry>) -> Seq<char> {
    latest_lines(entries, SHOWN_LOG_ENTRIES as nat)
}

/// Writes the latest entries of the log.
pub fn render_logs(entries: &Vec<ImlEntry>) -> (text: String)
    ensures
        text@ == logs_text(entries@),
{
    let mut text = String::new();
    let mut left: usize = SHOWN_LOG_ENTRIES;
    let mut i: usize = entries.len();
    proof {
        assert(entries@.take(i as int) =~= entries@);
    }
    while left > 0 && i > 0
        invariant
            i <= entries.len(),
            text@ + latest_lines(entries@.take(i as int), left as nat) == logs_text(entries@),
        decreases i,
    {
        let entry = &entries[i - 1];
        let ghost before = text@;
        proof {
            assert(entries@.take(i as int).drop_last() =~= entries@.take(i - 1));
            assert(entries@.take(i as int).last() == *entry);
        }
        text.append("**[");
        text.append(entry.severity.as_str());
        text.append(":");
        match fmt_dt(entry.created.as_str()) {
            Some(made) => text.append(made.as_str()),
            None => text.append("Unknown"),
        }
        text.append("]:** ");
        text.append(entry.message.as_str());
        text.append("\n");
        proof {
            assert(text@ =~= before + log_line(*entry));
            assert(text@ + latest_lines(entries@.take(i - 1), (left - 1) as nat) =~= before
                + latest_lines(entries@.take(i as int), left as nat));
        }
        left -= 1;
        i -= 1;
    }
    proof {
        assert(text@ =~= text@ + latest_lines(entries@.take(i as int), left as nat));
    }
    text
}

/// Frames a message about the server: the given colour, the title with
/// the server's name before it, the text and the entries if there are any,
/// and a stamp of the time.
pub fn embed_builder(
    color: u32,
    title: &str,
    description: Option<String>,
    fields: Option<Vec<(String, String, bool)>>,
) -> (embed: Embed)
    ensures
        embed.color == color,
        embed.title is Some && embed.title->Some_0@ == ILO_HOSTNAME@ + " - "@ + title@,
        embed.description == description,
        embed.fields@ == match fields {
            Some(entries) => fields_of(entries@),
            None => Seq::empty(),
        },
        embed.thumbnail is None,
        embed.author is None,
        embed.timestamped,
{
    let mut embed = Embed::new(color);
    embed.timestamped = true;
    embed.title = Some(embed_title(title));
    embed.description = description;
    match fields {
        Some(entries) => {
            embed.fields = to_fields(entries);
        },
        None => {
            assert(embed.fields@ =~= Seq::<Field>::empty());
        },
    }
    embed
}

/// The message that shows temperatures and fans: one entry for the
/// temperature readings and one for the fans, each on a row of its own.
pub fn temperature_embed(
    color: u32,
    names: &dashmap::DashMap<&'static str, &'static str>,
    temperatures: &Vec<Temperature>,
    fans: &Vec<Fan>,
) -> (embed: Embed)
    ensures
        embed.color == color,
        embed.title is Some && embed.title->Some_0@ == ILO_HOSTNAME@ + " - "@ + "Temperatures"@,
        embed.description is None,
        embed.fields@.len() == 2,
        embed.fields@[0].name@ == "Temperatures"@,
        embed.fields@[0].value@ == temperatures_text(table_entries(*names), temperatures@),
        !embed.fields@[0].inline,
        embed.fields@[1].name@ == "Fans"@,
        embed.fields@[1].value@ == fans_text(fans@),
        !embed.fields@[1].inline,
        embed.thumbnail is None,
        embed.author is None,
        embed.timestamped,
{
    let mut entries: Vec<(String, String, bool)> = Vec::new();
    entries.push((String::from_str("Temperatures"), render_temperatures(names, temperatures), false));
    entries.push((String::from_str("Fans"), render_fans(fans), false));
    embed_builder(color, "Temperatures", None, Some(entries))
}

/// The message that shows the power figures.
pub fn power_embed(color: u32, power: &Power) -> (embed: Embed)
    ensures
        embed.color == color,
        embed.title is Some && embed.title->Some_0@ == ILO_HOSTNAME@ + " - "@ + "Power"@,
        embed.description is Some && embed.description->Some_0@ == power_text(*power),
        embed.fields@.len() == 0,
        embed.thumbnail is None,
        embed.author is None,
        embed.timestamped,
{
    embed_builder(color, "Power", Some(render_power(power)), None)
}

/// What the management interface reports about the server as a whole.
#[derive(Debug)]
pub struct SystemInfo {
    pub health: Option<String>,
    pub post_state: String,
    pub power_state: String,
    pub model: String,
    pub processor_count: i32,
    pub processor_model: String,
    pub total_memory_gb: i32,
}

/// The message that shows the state of the server, with the processors and
/// the memory as two entries side by side. The processors' model is shown
/// without the blanks around it.
pub fn system_embed(
    color: u32,
    states: &dashmap::DashMap<&'static str, &'static str>,
    info: &SystemInfo,
) -> (embed: Embed)
    ensures
        embed.color == color,
        embed.title is Some && embed.title->Some_0@ == ILO_HOSTNAME@ + " - "@ + "System"@,
        embed.description is Some && embed.description->Some_0@ == system_text(
            table_entries(*states),
            match info.health {
                Some(health) => Some(health@),
                None => None,
            },
            info.post_state@,
            info.power_state@,
            info.model@,
        ),
        embed.fields@.len() == 2,
        embed.fields@[0].name@ == "CPU ("@ + signed_decimal_text(info.processor_count as int)
            + "x)"@,
        embed.fields@[0].value@ == trimmed(info.processor_model@),
        embed.fields@[0].inline,
        embed.fields@[1].name@ == "RAM"@,
        embed.fields@[1].value@ == signed_decimal_text(info.total_memory_gb as int) + " GB"@,
        embed.fields@[1].inline,
        embed.thumbnail is None,
        embed.author is None,
        embed.timestamped,
{
    let health: Option<&str> = match &info.health {
        Some(health) => Some(health.as_str()),
        None => None,
    };
    let text = render_system(
        states,
        health,
        info.post_state.as_str(),
        info.power_state.as_str(),
        info.model.as_str(),
    );
    let mut entries: Vec<(String, String, bool)> = Vec::new();
    entries.push(
        (
            cpu_heading(info.processor_count),
            String::from_str(trim(info.processor_model.as_str())),
            true,
        ),
    );
    entries.push((String::from_str("RAM"), memory_size(info.total_memory_gb), true));
    embed_builder(color, "System", Some(text), Some(entries))
}

/// The message that shows the latest entries of the log.
pub fn logs_embed(color: u32, entries: &Vec<ImlEntry>) -> (embed: Embed)
    ensures
        embed.color == color,
        embed.title is Some && embed.title->Some_0@ == ILO_HOSTNAME@ + " - "@ + "IML"@,
        embed.description is Some && embed.description->Some_0@ == logs_text(entries@),
        embed.fields@.len() == 0,
        embed.thumbnail is None,
        embed.author is None,
        embed.timestamped,
{
    embed_builder(color, "IML", Some(render_logs(entries)), None)
}

} // verus!
