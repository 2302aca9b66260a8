use kon::config::ConfigMeta;
use kon::events::{Action, Build, DiscordEvents, Event, SessionLimit};

fn build() -> Build {
    Build { version: "0.6.12".to_string(), commit: "abc123".to_string(), branch: "master".to_string() }
}

fn logged(action: &Action) -> &str {
    match action {
        Action::Log(line) => line,
        Action::Announce { .. } => panic!("a line was expected"),
    }
}

#[test]
fn readiness_is_logged_and_announced() {
    let config = ConfigMeta::new();
    let event = Event::Ready {
        name: "Kon".to_string(),
        avatar_url: Some("https://cdn.example/kon.png".to_string()),
        session: None,
    };
    let actions = DiscordEvents.dispatch(&config, &build(), event);
    assert_eq!(actions.len(), 3);
    assert_eq!(logged(&actions[0]), "Event[Ready] Build version: v0.6.12 (abc123:master)");
    assert_eq!(logged(&actions[1]), "Event[Ready] Connected to API as Kon");
    match &actions[2] {
        Action::Announce { channel, embed } => {
            assert_eq!(*channel, 1268493237912604672);
            assert_eq!(embed.color, 0x5A99C7);
            assert_eq!(embed.author.as_deref(), Some("Kon is ready!"));
            assert_eq!(embed.thumbnail.as_deref(), Some("https://cdn.example/kon.png"));
            assert!(embed.title.is_none() && embed.description.is_none());
            assert!(embed.fields.is_empty());
            assert!(!embed.timestamped);
        }
        Action::Log(_) => panic!("an announcement was expected"),
    }
}

#[test]
fn development_logs_the_sessions_first() {
    let config = ConfigMeta::development();
    let event = Event::Ready {
        name: "Kon".to_string(),
        avatar_url: None,
        session: Some(SessionLimit { remaining: 998, total: 1000 }),
    };
    let actions = DiscordEvents.dispatch(&config, &build(), event);
    assert_eq!(actions.len(), 5);
    assert_eq!(logged(&actions[0]), "Event[Ready][Notice] Detected a development environment!");
    assert_eq!(logged(&actions[1]), "Event[Ready][Notice] Session limit: 998/1000");
    assert_eq!(logged(&actions[2]), "Event[Ready] Build version: v0.6.12 (abc123:master)");
    assert_eq!(logged(&actions[3]), "Event[Ready] Connected to API as Kon");
    match &actions[4] {
        Action::Announce { channel, embed } => {
            assert_eq!(*channel, 1311282815601741844);
            assert_eq!(embed.color, 0xF1D63C);
            assert_eq!(embed.thumbnail.as_deref(), Some(""));
        }
        Action::Log(_) => panic!("an announcement was expected"),
    }
}

#[test]
fn other_events_call_for_nothing() {
    assert!(DiscordEvents.dispatch(&ConfigMeta::new(), &build(), Event::Other).is_empty());
}
