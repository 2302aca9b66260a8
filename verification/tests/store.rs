use kon::cache::{AttemptOutcome, Progress, RedisController, Request};
use kon::memory::MemoryStore;
use kon::store::Reply;

fn client() -> RedisController {
    let state = RedisController::new("redis://localhost", 20).expect("the address is well formed");
    match state.create_pool(AttemptOutcome::Probed) {
        Progress::Ready { client, .. } => client,
        Progress::Retry { .. } => panic!("a probed store makes the client ready"),
    }
}

fn read(store: &mut MemoryStore, key: &str) -> Option<String> {
    match store.execute(&client().get(key)) {
        Reply::Value(value) => value,
        Reply::Done => panic!("a read is answered with a value"),
    }
}

fn done(reply: Reply) {
    assert!(matches!(reply, Reply::Done));
}

#[test]
fn set_then_get_returns_the_value() {
    let client = client();
    let mut store = MemoryStore::new();
    done(store.execute(&client.set("greeting", "hello")));
    assert_eq!(read(&mut store, "greeting"), Some("hello".to_string()));
    done(store.execute(&client.set("greeting", "")));
    assert_eq!(read(&mut store, "greeting"), Some(String::new()));
    done(store.execute(&client.set("", "empty key")));
    assert_eq!(read(&mut store, ""), Some("empty key".to_string()));
}

#[test]
fn set_overwrites() {
    let client = client();
    let mut store = MemoryStore::new();
    done(store.execute(&client.set("k", "1")));
    done(store.execute(&client.set("k", "2")));
    assert_eq!(read(&mut store, "k"), Some("2".to_string()));
    assert_eq!(store.len(), 1);
}

#[test]
fn delete_of_a_key_never_set_succeeds() {
    let client = client();
    let mut store = MemoryStore::new();
    done(store.execute(&client.del("ghost")));
    done(store.execute(&client.del("ghost")));
    assert_eq!(store.len(), 0);
    done(store.execute(&client.set("other", "1")));
    done(store.execute(&client.del("ghost")));
    assert_eq!(read(&mut store, "other"), Some("1".to_string()));
}

#[test]
fn get_of_a_key_never_set_is_absent() {
    let mut store = MemoryStore::new();
    assert_eq!(read(&mut store, "ghost"), None);
}

#[test]
fn get_after_delete_is_absent() {
    let client = client();
    let mut store = MemoryStore::new();
    done(store.execute(&client.set("k", "v")));
    done(store.execute(&client.del("k")));
    assert_eq!(read(&mut store, "k"), None);
    assert_eq!(store.len(), 0);
}

#[test]
fn expire_with_no_time_left_removes_the_key() {
    let client = client();
    for seconds in [0, -1, i64::MIN] {
        let mut store = MemoryStore::new();
        done(store.execute(&client.set("k", "v")));
        done(store.execute(&client.expire("k", seconds)));
        assert_eq!(read(&mut store, "k"), None);
    }
}

#[test]
fn expire_of_an_absent_key_changes_nothing() {
    let client = client();
    let mut store = MemoryStore::new();
    done(store.execute(&client.expire("ghost", 10)));
    done(store.execute(&client.expire("ghost", 0)));
    assert_eq!(store.len(), 0);
    assert_eq!(read(&mut store, "ghost"), None);
}

#[test]
fn expire_lets_the_key_live_for_its_seconds() {
    let client = client();
    let mut store = MemoryStore::new();
    done(store.execute(&client.set("k", "v")));
    done(store.execute(&client.set("forever", "w")));
    done(store.execute(&client.expire("k", 10)));
    store.advance(9);
    assert_eq!(read(&mut store, "k"), Some("v".to_string()));
    store.advance(1);
    assert_eq!(read(&mut store, "k"), None);
    store.advance(u64::MAX);
    assert_eq!(read(&mut store, "forever"), Some("w".to_string()));
}

#[test]
fn set_lifts_the_limit_on_a_key_s_life() {
    let client = client();
    let mut store = MemoryStore::new();
    done(store.execute(&client.set("k", "v")));
    done(store.execute(&client.expire("k", 5)));
    done(store.execute(&client.set("k", "again")));
    store.advance(100);
    assert_eq!(read(&mut store, "k"), Some("again".to_string()));
}

#[test]
fn probe_is_answered_and_changes_nothing() {
    let client = client();
    let mut store = MemoryStore::new();
    done(store.execute(&client.set("k", "v")));
    match store.execute(&Request::Ping) {
        Reply::Value(Some(answer)) => assert_eq!(answer, "PONG"),
        _ => panic!("the probe is answered"),
    }
    assert_eq!(store.len(), 1);
    assert_eq!(read(&mut store, "k"), Some("v".to_string()));
}

#[test]
fn interleaved_requests_on_other_keys_do_not_interfere() {
    let client = client();
    let mut together = MemoryStore::new();
    let requests = vec![
        client.set("a", "1"),
        client.set("b", "x"),
        client.del("a"),
        client.set("c", "cc"),
        client.set("a", "2"),
        client.expire("b", 0),
        client.get("c"),
        client.set("a", "3"),
        client.del("c"),
        client.set("b", "y"),
    ];
    for request in &requests {
        together.execute(request);
    }
    assert_eq!(read(&mut together, "a"), Some("3".to_string()));
    assert_eq!(read(&mut together, "b"), Some("y".to_string()));
    assert_eq!(read(&mut together, "c"), None);

    for key in ["a", "b", "c"] {
        let mut alone = MemoryStore::new();
        for request in &requests {
            let own = match request {
                Request::Get { key: k }
                | Request::Del { key: k }
                | Request::Put { key: k, .. }
                | Request::Expire { key: k, .. } => k == key,
                Request::Ping => false,
            };
            if own {
                alone.execute(request);
            }
        }
        assert_eq!(read(&mut alone, key), read(&mut together, key));
    }
}
