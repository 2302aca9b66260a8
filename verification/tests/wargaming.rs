use kon::wargaming::{
    failures_note, gather, id_name_map, listings_or_invalid, process_pms_statuses, region_error,
    region_url, regions, render_server, shown_listings, status_embed, FetchFailure, Listing,
    RegionResult, Server,
};

fn server(name: &str, id: &str, availability: &str) -> Server {
    Server { name: name.to_string(), id: id.to_string(), availability: availability.to_string() }
}

#[test]
fn ids_map_to_regions() {
    assert_eq!(id_name_map("wotbsg"), Some("ASIA"));
    assert_eq!(id_name_map("wowssg"), Some("ASIA"));
    assert_eq!(id_name_map("wowseu"), Some("EU"));
    assert_eq!(id_name_map("wotbeu"), None);
    assert_eq!(id_name_map(""), None);
}

#[test]
fn four_regions_are_asked() {
    assert_eq!(
        regions(),
        vec![
            ("asia", "Asia (WoT)"),
            ("eu", "Europe (WoT)"),
            ("wgcb", "Console (WoTX)"),
            ("lg", "Europe (WoWL)")
        ]
    );
}

#[test]
fn region_url_swaps_the_region_in() {
    let base = "https://pms.example/asia/status?region=asia";
    assert_eq!(region_url(base, "asia"), base);
    assert_eq!(region_url(base, "eu"), "https://pms.example/eu/status?region=eu");
    assert_eq!(region_url("https://pms.example/status", "lg"), "https://pms.example/status");
}

#[test]
fn failures_are_put_in_words() {
    assert_eq!(FetchFailure::Connect("refused".to_string()).message(), "Failed to connect: refused");
    assert_eq!(FetchFailure::RequestTimedOut.message(), "Request timed out");
    assert_eq!(
        FetchFailure::Parse("bad json".to_string()).message(),
        "Failed to parse response: bad json"
    );
    assert_eq!(FetchFailure::ParseTimedOut.message(), "Response parsing timed out");
    assert_eq!(FetchFailure::InvalidFormat.message(), "Invalid response format");
    assert_eq!(region_error("Asia (WoT)", "Request timed out"), "**Asia (WoT):** Request timed out");
}

#[test]
fn failures_note_lists_the_regions_that_failed() {
    assert_eq!(failures_note(&Vec::new()), None);
    assert_eq!(
        failures_note(&vec!["**A:** x".to_string(), "**B:** y".to_string()]),
        Some("No response from certain servers:\n**A:** x\n**B:** y".to_string())
    );
}

#[test]
fn listings_without_title_or_servers_are_left_out() {
    let listings = vec![
        Listing { title: Some("World of Tanks".to_string()), servers: Some(vec![server("EU1", "a", "1")]) },
        Listing { title: None, servers: Some(vec![server("EU2", "b", "1")]) },
        Listing { title: Some("Empty".to_string()), servers: Some(Vec::new()) },
        Listing { title: Some("None".to_string()), servers: None },
        Listing { title: Some("World of Warships".to_string()), servers: Some(vec![server("X", "c", "-1"), server("Y", "d", "0")]) },
    ];
    let groups = shown_listings(listings);
    assert_eq!(groups.len(), 2);
    assert_eq!(groups[0].0, "World of Tanks");
    assert_eq!(groups[0].1.len(), 1);
    assert_eq!(groups[0].1[0].name, "EU1");
    assert_eq!(groups[1].0, "World of Warships");
    assert_eq!(groups[1].1.len(), 2);
    assert_eq!(groups[1].1[1].name, "Y");
    assert!(shown_listings(Vec::new()).is_empty());
}

#[test]
fn a_server_is_shown_by_region_or_name() {
    assert_eq!(render_server(&server("SG", "wotbsg:1", "1")), "**ASIA:** Online");
    assert_eq!(render_server(&server("EU", "wowseu", "-1")), "**EU:** Offline");
    assert_eq!(render_server(&server("RU7", "wotru:7:x", "2")), "**RU7:** Unknown");
    assert_eq!(render_server(&server("Name", "", "")), "**Name:** Unknown");
    assert_eq!(render_server(&server("Name", ":wotbsg", "1")), "**Name:** Online");
}

#[test]
fn servers_are_grouped_by_title() {
    let servers = vec![
        ("World of Tanks".to_string(), vec![server("EU1", "woteu:1", "1"), server("EU2", "woteu:2", "-1")]),
        ("World of Warships".to_string(), vec![server("SG", "wowssg:1", "1")]),
        ("World of Tanks".to_string(), vec![server("SG", "wotbsg:1", "0")]),
    ];
    assert_eq!(
        process_pms_statuses(servers),
        vec![
            (
                "World of Tanks".to_string(),
                "**EU1:** Online\n**EU2:** Offline\n**ASIA:** Unknown".to_string(),
                true
            ),
            ("World of Warships".to_string(), "**ASIA:** Online".to_string(), true),
        ]
    );
    assert!(process_pms_statuses(Vec::new()).is_empty());
}

fn results() -> Vec<RegionResult> {
    vec![
        RegionResult {
            region_name: "Asia (WoT)".to_string(),
            outcome: Ok(vec![("World of Tanks".to_string(), vec![server("SG", "wotbsg:1", "1")])]),
        },
        RegionResult {
            region_name: "Europe (WoT)".to_string(),
            outcome: Err(FetchFailure::RequestTimedOut),
        },
        RegionResult {
            region_name: "Console (WoTX)".to_string(),
            outcome: Ok(vec![
                ("World of Tanks".to_string(), vec![server("X1", "wotx:1", "-1")]),
                ("Console".to_string(), vec![server("X2", "wotx:2", "1")]),
            ]),
        },
        RegionResult {
            region_name: "Europe (WoWL)".to_string(),
            outcome: Err(FetchFailure::Connect("refused".to_string())),
        },
    ]
}

#[test]
fn gather_sorts_servers_from_failures() {
    let (servers, errors) = gather(results());
    assert_eq!(servers.len(), 3);
    assert_eq!(servers[0].0, "World of Tanks");
    assert_eq!(servers[1].0, "World of Tanks");
    assert_eq!(servers[2].0, "Console");
    assert_eq!(
        errors,
        vec![
            "**Europe (WoT):** Request timed out".to_string(),
            "**Europe (WoWL):** Failed to connect: refused".to_string()
        ]
    );
    let (servers, errors) = gather(Vec::new());
    assert!(servers.is_empty() && errors.is_empty());
}

#[test]
fn status_embed_shows_titles_and_failures() {
    let embed = status_embed(0xF1D63C, results());
    assert_eq!(embed.color, 0xF1D63C);
    assert_eq!(embed.title.as_deref(), Some("Wargaming Server Status"));
    assert_eq!(
        embed.description.as_deref(),
        Some("No response from certain servers:\n**Europe (WoT):** Request timed out\n**Europe (WoWL):** Failed to connect: refused")
    );
    assert_eq!(embed.fields.len(), 2);
    assert_eq!(embed.fields[0].name, "World of Tanks");
    assert_eq!(embed.fields[0].value, "**ASIA:** Online\n**X1:** Offline");
    assert!(embed.fields[0].inline);
    assert_eq!(embed.fields[1].name, "Console");
    assert_eq!(embed.fields[1].value, "**X2:** Online");
    assert!(!embed.timestamped);

    let embed = status_embed(1, Vec::new());
    assert!(embed.description.is_none());
    assert!(embed.fields.is_empty());
}

#[test]
fn an_answer_without_a_list_is_of_an_invalid_format() {
    assert!(matches!(listings_or_invalid(None), Err(FetchFailure::InvalidFormat)));
}

#[test]
fn an_answer_with_a_list_hands_on_what_is_shown() {
    let listings = vec![
        Listing { title: None, servers: Some(vec![server("A", "a", "1")]) },
        Listing { title: Some("Shown".to_string()), servers: Some(vec![server("B", "b", "1")]) },
    ];
    match listings_or_invalid(Some(listings)) {
        Ok(groups) => {
            assert_eq!(groups.len(), 1);
            assert_eq!(groups[0].0, "Shown");
            assert_eq!(groups[0].1[0].name, "B");
        }
        Err(_) => panic!("the answer holds a list"),
    }
    assert!(matches!(listings_or_invalid(Some(Vec::new())), Ok(groups) if groups.is_empty()));
}
