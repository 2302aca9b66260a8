use dashmap::DashMap;
use kon::embed::{to_fields, Embed};
use kon::ilo::{
    cpu_heading, embed_builder, embed_title, fmt_dt, logs_embed, memory_size, post_state,
    post_state_is_notable, post_states, power_embed, redfish_url, render_fans, render_logs,
    render_power, render_system, render_temperatures, sensor_name, sensor_names, system_embed,
    temperature_embed, Fan, ImlEntry, Power, RedfishEndpoint, SystemInfo, Temperature,
    ILO_HOSTNAME,
};

fn entry(created: &str, severity: &str, message: &str) -> ImlEntry {
    ImlEntry {
        created: created.to_string(),
        message: message.to_string(),
        severity: severity.to_string(),
    }
}

#[test]
fn every_endpoint_has_its_path() {
    assert_eq!(RedfishEndpoint::Thermal.url(), "Chassis/1/Thermal");
    assert_eq!(RedfishEndpoint::Power.url(), "Chassis/1/Power");
    assert_eq!(RedfishEndpoint::System.url(), "Systems/1");
    assert_eq!(RedfishEndpoint::EventService.url(), "EventService");
    assert_eq!(RedfishEndpoint::LogServices.url(), "Systems/1/LogServices/IML/Entries");
}

#[test]
fn redfish_url_is_built_from_host_and_path() {
    assert_eq!(
        redfish_url("10.0.0.5", RedfishEndpoint::Thermal),
        "https://10.0.0.5/redfish/v1/Chassis/1/Thermal"
    );
    assert_eq!(redfish_url("", RedfishEndpoint::System), "https:///redfish/v1/Systems/1");
}

#[test]
fn fmt_dt_turns_the_date_round() {
    assert_eq!(fmt_dt("2024-05-01T12:30:00Z"), Some("01/05/2024 12:30:00".to_string()));
    assert_eq!(fmt_dt("2024-05-01T12:30:00"), Some("01/05/2024 12:30:00".to_string()));
    assert_eq!(fmt_dt("2024-05-01T12:30:00ZZ"), Some("01/05/2024 12:30:00".to_string()));
    assert_eq!(fmt_dt("a-b-cT"), Some("c/b/a ".to_string()));
    assert_eq!(fmt_dt("--T"), Some("// ".to_string()));
}

#[test]
fn fmt_dt_rejects_what_is_no_timestamp() {
    assert_eq!(fmt_dt(""), None);
    assert_eq!(fmt_dt("2024-05-01"), None);
    assert_eq!(fmt_dt("2024-05-01 12:30:00"), None);
    assert_eq!(fmt_dt("2024-05-01T12:30:00T"), None);
    assert_eq!(fmt_dt("2024-05T12:30:00Z"), None);
    assert_eq!(fmt_dt("2024-05-01-02T12:30:00Z"), None);
    assert_eq!(fmt_dt("T"), None);
}

#[test]
fn fmt_dt_keeps_dashes_in_the_time() {
    assert_eq!(fmt_dt("2024-05-01T12-30"), Some("01/05/2024 12-30".to_string()));
}

#[test]
fn embed_title_names_the_server() {
    assert_eq!(ILO_HOSTNAME, "POMNI");
    assert_eq!(embed_title("Power"), "POMNI - Power");
}

#[test]
fn sensor_table_holds_three_names() {
    let names = sensor_names();
    assert_eq!(names.len(), 3);
    assert_eq!(*names.get("01-Inlet Ambient").unwrap(), "Inlet Ambient");
    assert_eq!(*names.get("04-P1 DIMM 1-6").unwrap(), "P1 DIMM 1-6");
    assert_eq!(*names.get("14-Chipset Zone").unwrap(), "Chipset Zone");
    assert!(names.get("02-CPU 1").is_none());
}

#[test]
fn sensors_have_display_names() {
    let names = sensor_names();
    assert_eq!(sensor_name(&names, "01-Inlet Ambient"), "Inlet Ambient");
    assert_eq!(sensor_name(&names, "04-P1 DIMM 1-6"), "P1 DIMM 1-6");
    assert_eq!(sensor_name(&names, "14-Chipset Zone"), "Chipset Zone");
    assert_eq!(sensor_name(&names, "02-CPU 1"), "Unknown sensor");
    assert_eq!(sensor_name(&names, ""), "Unknown sensor");
    let other: DashMap<&'static str, &'static str> = DashMap::new();
    other.insert("02-CPU 1", "first");
    other.insert("02-CPU 1", "CPU");
    assert_eq!(sensor_name(&other, "02-CPU 1"), "CPU");
    assert_eq!(sensor_name(&other, "01-Inlet Ambient"), "Unknown sensor");
}

#[test]
fn post_state_table_holds_three_states() {
    let states = post_states();
    assert_eq!(states.len(), 3);
    assert_eq!(*states.get("FinishedPost").unwrap(), "Finished POST");
    assert_eq!(*states.get("InPost").unwrap(), "In POST (Booting)");
    assert_eq!(*states.get("PowerOff").unwrap(), "Powered off");
}

#[test]
fn post_states_are_put_in_words() {
    let states = post_states();
    assert_eq!(post_state(&states, "FinishedPost"), "Finished POST");
    assert_eq!(post_state(&states, "InPost"), "In POST (Booting)");
    assert_eq!(post_state(&states, "PowerOff"), "Powered off");
    assert_eq!(post_state(&states, "Reset"), "Unknown POST state");
    assert_eq!(post_state(&DashMap::new(), "FinishedPost"), "Unknown POST state");
    assert!(!post_state_is_notable("FinishedPost"));
    assert!(post_state_is_notable("InPost"));
    assert!(post_state_is_notable(""));
}

#[test]
fn temperatures_show_known_sensors_with_a_reading() {
    let readings = vec![
        Temperature { name: "01-Inlet Ambient".to_string(), reading_celsius: 21 },
        Temperature { name: "02-CPU 1".to_string(), reading_celsius: 40 },
        Temperature { name: "04-P1 DIMM 1-6".to_string(), reading_celsius: 0 },
        Temperature { name: "14-Chipset Zone".to_string(), reading_celsius: -3 },
    ];
    assert_eq!(
        render_temperatures(&sensor_names(), &readings),
        "**Inlet Ambient:** `21\u{b0}C`\n**Chipset Zone:** `-3\u{b0}C`\n"
    );
    assert_eq!(render_temperatures(&sensor_names(), &Vec::new()), "");
}

#[test]
fn temperatures_of_shown_sensors_without_a_name_are_unknown() {
    let readings = vec![
        Temperature { name: "01-Inlet Ambient".to_string(), reading_celsius: 21 },
        Temperature { name: "02-CPU 1".to_string(), reading_celsius: 40 },
    ];
    let names: DashMap<&'static str, &'static str> = DashMap::new();
    names.insert("02-CPU 1", "CPU");
    assert_eq!(render_temperatures(&names, &readings), "**Unknown sensor:** `21\u{b0}C`\n");
}

#[test]
fn fans_show_those_that_run() {
    let fans = vec![
        Fan { fan_name: "Fan 1".to_string(), current_reading: 35 },
        Fan { fan_name: "Fan 2".to_string(), current_reading: 0 },
        Fan { fan_name: "Fan 3".to_string(), current_reading: 100 },
    ];
    assert_eq!(render_fans(&fans), "**Fan 1:** `35%`\n**Fan 3:** `100%`\n");
    assert_eq!(render_fans(&Vec::new()), "");
}

#[test]
fn power_shows_five_figures() {
    let power = Power {
        power_capacity_watts: 800,
        power_consumed_watts: 123,
        average_consumed_watts: 120,
        max_consumed_watts: 250,
        min_consumed_watts: 98,
    };
    assert_eq!(
        render_power(&power),
        "**Power Capacity:** `800w`\n**Power Consumed:** `123w`\n**Average Power:** `120w`\n**Max Consumed:** `250w`\n**Min Consumed:** `98w`"
    );
}

#[test]
fn system_shows_health_post_power_and_model() {
    assert_eq!(
        render_system(&post_states(), Some("OK"), "FinishedPost", "On", "ProLiant DL380p Gen8"),
        "**Health:** `OK`\n**POST:** `Finished POST`\n**Power:** `On`\n**Model:** `ProLiant DL380p Gen8`"
    );
    assert_eq!(
        render_system(&post_states(), None, "Booting", "Off", ""),
        "**Health:** `Unknown`\n**POST:** `Unknown POST state`\n**Power:** `Off`\n**Model:** ``"
    );
    assert_eq!(cpu_heading(2), "CPU (2x)");
    assert_eq!(memory_size(64), "64 GB");
}

#[test]
fn logs_show_the_last_five_latest_first() {
    let entries = vec![
        entry("2024-01-01T00:00:00Z", "OK", "one"),
        entry("2024-01-02T00:00:00Z", "OK", "two"),
        entry("2024-01-03T00:00:00Z", "Warning", "three"),
        entry("garbage", "OK", "four"),
        entry("2024-01-05T10:11:12Z", "Critical", "five"),
        entry("2024-01-06T00:00:00Z", "OK", "six"),
    ];
    assert_eq!(
        render_logs(&entries),
        "**[OK:06/01/2024 00:00:00]:** six\n**[Critical:05/01/2024 10:11:12]:** five\n**[OK:Unknown]:** four\n**[Warning:03/01/2024 00:00:00]:** three\n**[OK:02/01/2024 00:00:00]:** two\n"
    );
    assert_eq!(render_logs(&entries[..2].iter().map(|e| entry(&e.created, &e.severity, &e.message)).collect()),
        "**[OK:02/01/2024 00:00:00]:** two\n**[OK:01/01/2024 00:00:00]:** one\n");
    assert_eq!(render_logs(&Vec::new()), "");
}

#[test]
fn a_new_embed_holds_nothing() {
    let embed = Embed::new(0x5A99C7);
    assert_eq!(embed.color, 0x5A99C7);
    assert!(embed.title.is_none() && embed.description.is_none());
    assert!(embed.fields.is_empty());
    assert!(embed.thumbnail.is_none() && embed.author.is_none());
    assert!(!embed.timestamped);
}

#[test]
fn fields_keep_their_order() {
    let fields = to_fields(vec![
        ("a".to_string(), "1".to_string(), true),
        ("b".to_string(), "2".to_string(), false),
    ]);
    assert_eq!(fields.len(), 2);
    assert_eq!((fields[0].name.as_str(), fields[0].value.as_str(), fields[0].inline), ("a", "1", true));
    assert_eq!((fields[1].name.as_str(), fields[1].value.as_str(), fields[1].inline), ("b", "2", false));
    assert!(to_fields(Vec::new()).is_empty());
}

#[test]
fn embed_builder_frames_a_message_about_the_server() {
    let embed = embed_builder(7, "Power", Some("text".to_string()), None);
    assert_eq!(embed.color, 7);
    assert_eq!(embed.title.as_deref(), Some("POMNI - Power"));
    assert_eq!(embed.description.as_deref(), Some("text"));
    assert!(embed.fields.is_empty());
    assert!(embed.timestamped);
    assert!(embed.thumbnail.is_none() && embed.author.is_none());

    let embed = embed_builder(7, "X", None, Some(vec![("n".to_string(), "v".to_string(), true)]));
    assert_eq!(embed.title.as_deref(), Some("POMNI - X"));
    assert!(embed.description.is_none());
    assert_eq!(embed.fields.len(), 1);
    assert_eq!(embed.fields[0].name, "n");
    assert_eq!(embed.fields[0].value, "v");
    assert!(embed.fields[0].inline);
}

#[test]
fn temperature_embed_has_two_rows() {
    let temperatures = vec![Temperature { name: "01-Inlet Ambient".to_string(), reading_celsius: 21 }];
    let fans = vec![Fan { fan_name: "Fan 1".to_string(), current_reading: 35 }];
    let embed = temperature_embed(1, &sensor_names(), &temperatures, &fans);
    assert_eq!(embed.title.as_deref(), Some("POMNI - Temperatures"));
    assert!(embed.description.is_none());
    assert_eq!(embed.fields.len(), 2);
    assert_eq!(embed.fields[0].name, "Temperatures");
    assert_eq!(embed.fields[0].value, "**Inlet Ambient:** `21\u{b0}C`\n");
    assert!(!embed.fields[0].inline);
    assert_eq!(embed.fields[1].name, "Fans");
    assert_eq!(embed.fields[1].value, "**Fan 1:** `35%`\n");
    assert!(!embed.fields[1].inline);
    assert!(embed.timestamped);
}

#[test]
fn power_and_logs_embeds_carry_their_text() {
    let power = Power {
        power_capacity_watts: 1,
        power_consumed_watts: 2,
        average_consumed_watts: 3,
        max_consumed_watts: 4,
        min_consumed_watts: 5,
    };
    let embed = power_embed(9, &power);
    assert_eq!(embed.title.as_deref(), Some("POMNI - Power"));
    assert_eq!(embed.description, Some(render_power(&power)));
    assert!(embed.fields.is_empty());

    let entries = vec![entry("2024-01-01T00:00:00Z", "OK", "one")];
    let embed = logs_embed(9, &entries);
    assert_eq!(embed.title.as_deref(), Some("POMNI - IML"));
    assert_eq!(embed.description.as_deref(), Some("**[OK:01/01/2024 00:00:00]:** one\n"));
    assert!(embed.fields.is_empty());
}

#[test]
fn system_embed_shows_processors_and_memory_side_by_side() {
    let info = SystemInfo {
        health: Some("OK".to_string()),
        post_state: "InPost".to_string(),
        power_state: "On".to_string(),
        model: "ProLiant".to_string(),
        processor_count: 2,
        processor_model: "  Intel(R) Xeon(R) CPU E5-2650 0 @ 2.00GHz      ".to_string(),
        total_memory_gb: 128,
    };
    let embed = system_embed(3, &post_states(), &info);
    assert_eq!(embed.title.as_deref(), Some("POMNI - System"));
    assert_eq!(
        embed.description.as_deref(),
        Some("**Health:** `OK`\n**POST:** `In POST (Booting)`\n**Power:** `On`\n**Model:** `ProLiant`")
    );
    assert_eq!(embed.fields.len(), 2);
    assert_eq!(embed.fields[0].name, "CPU (2x)");
    assert_eq!(embed.fields[0].value, "Intel(R) Xeon(R) CPU E5-2650 0 @ 2.00GHz");
    assert!(embed.fields[0].inline);
    assert_eq!(embed.fields[1].name, "RAM");
    assert_eq!(embed.fields[1].value, "128 GB");
    assert!(embed.fields[1].inline);
}
