use async_mongodb_session::{
    decoded_session, destroy_command, load_command, load_decision_at, session_id_from_cookie,
    Command, LoadDecision, LoadedDocument, MongodbSessionStore, SessionDocument, SessionMeta,
    StoreError, DEFAULT_TTL_SECS,
};
use async_session::Session;
use mongodb::bson::{self, Bson};
use mongodb::options::ClientOptions;
use mongodb::Client;

const NOW: i64 = 1_600_000_000_000;

fn test_store() -> MongodbSessionStore {
    let client_options = ClientOptions::builder().build();
    let client = match Client::with_options(client_options) {
        Ok(c) => c,
        Err(e) => panic!("Client Creation Failed: {}", e),
    };
    MongodbSessionStore::from_client(client, "db_name", "collection")
}

fn meta_of(session: &Session) -> SessionMeta {
    SessionMeta {
        id: session.id().to_string(),
        expiry: session.expiry().map(|e| e.timestamp_millis()),
        cookie_value: None,
    }
}

/// Splits a session into what the store reads, its serialized payload and its cookie value.
fn prepare(session: Session) -> (SessionMeta, Bson, String) {
    let mut meta = meta_of(&session);
    let payload = bson::to_bson(&session).unwrap();
    let cookie = session.into_cookie_value().unwrap();
    meta.cookie_value = Some(cookie.clone());
    (meta, payload, cookie)
}

/// Runs one command against an in-memory collection keyed by `session_id`.
fn run(coll: &mut Vec<SessionDocument<Bson>>, cmd: Command<Bson>) -> Option<LoadedDocument<Bson>> {
    match cmd {
        Command::ReplaceOne { filter_id, replacement, upsert } => {
            match coll.iter().position(|d| d.session_id == filter_id) {
                Some(i) => coll[i] = replacement,
                None if upsert => coll.push(replacement),
                None => {}
            }
            None
        }
        Command::FindOne { filter_id } => coll
            .iter()
            .find(|d| d.session_id == filter_id)
            .map(|d| LoadedDocument { session: Some(d.session.clone()), expire_at: Some(d.expire_at) }),
        Command::DeleteOne { filter_id } => {
            if let Some(i) = coll.iter().position(|d| d.session_id == filter_id) {
                coll.remove(i);
            }
            None
        }
        Command::Drop => {
            coll.clear();
            None
        }
        Command::CreateIndex { .. } => None,
    }
}

fn load(coll: &mut Vec<SessionDocument<Bson>>, cookie: &str, now: i64) -> Option<Session> {
    let cmd = load_command::<Bson>(cookie).unwrap();
    let found = run(coll, cmd);
    match load_decision_at(found, now) {
        LoadDecision::Absent => None,
        LoadDecision::Decode(b) => decoded_session(bson::from_bson::<Session>(b)),
        LoadDecision::DecodeEmpty => Some(Session::new()),
    }
}

fn keyed_session(n2: u16) -> (Session, String, String) {
    let key = format!("key-{}", n2);
    let value = format!("value-{}", n2);
    let mut session = Session::new();
    session.insert(&key, &value).unwrap();
    (session, key, value)
}

#[test]
fn test_from_client() {
    let store = test_store();
    let (session, key, value) = keyed_session(4711);
    let (meta, payload, cookie) = prepare(session);
    let mut coll = Vec::new();
    run(&mut coll, store.store_command_at(&meta, payload, NOW));
    let session = load(&mut coll, &cookie, NOW).unwrap();
    assert_eq!(&session.get::<String>(&key).unwrap(), &value);
}

#[test]
fn test_with_expire() {
    let store = test_store();
    let (mut session, key, value) = keyed_session(17);
    session.expire_in(std::time::Duration::from_secs(5));
    let (meta, payload, cookie) = prepare(session);
    let stored_at = meta.expiry.unwrap() - 5000;
    let mut coll = Vec::new();
    run(&mut coll, store.store_command_at(&meta, payload, stored_at));
    let session = load(&mut coll, &cookie, stored_at).unwrap();
    assert_eq!(&session.get::<String>(&key).unwrap(), &value);
}

#[test]
fn test_check_expired() {
    let store = test_store();
    let (mut session, _key, _value) = keyed_session(99);
    session.expire_in(std::time::Duration::from_secs(1));
    let (meta, payload, cookie) = prepare(session);
    let expiry = meta.expiry.unwrap();
    let mut coll = Vec::new();
    run(&mut coll, store.store_command_at(&meta, payload, expiry - 1000));
    assert!(load(&mut coll, &cookie, expiry - 1000).is_some());
    let session_to_recover = load(&mut coll, &cookie, expiry + 1);
    assert!(&session_to_recover.is_none());
    assert_eq!(coll.len(), 1);
}

#[test]
fn cookie_value_maps_to_session_id() {
    let session = Session::new();
    let id = session.id().to_string();
    let cookie = session.into_cookie_value().unwrap();
    assert_ne!(cookie, id);
    assert_eq!(session_id_from_cookie(&cookie), Ok(id));
}

#[test]
fn malformed_cookie_is_an_error() {
    assert_eq!(session_id_from_cookie("not-a-valid-cookie"), Err(StoreError::MalformedCookie));
    assert!(matches!(load_command::<Bson>("not-a-valid-cookie"), Err(StoreError::MalformedCookie)));
}

#[test]
fn load_command_looks_up_the_session_id() {
    let session = Session::new();
    let id = session.id().to_string();
    let cookie = session.into_cookie_value().unwrap();
    match load_command::<Bson>(&cookie) {
        Ok(Command::FindOne { filter_id }) => assert_eq!(filter_id, id),
        _ => panic!("expected a lookup"),
    }
}

#[test]
fn default_ttl_is_twenty_minutes() {
    let store = test_store();
    assert_eq!(DEFAULT_TTL_SECS, 1200);
    assert_eq!(store.ttl(), 1200);
    assert_eq!(store.expire_at(None, NOW), NOW + 1_200_000);
    assert_eq!(store.database_name(), "db_name");
    assert_eq!(store.collection_name(), "collection");
}

#[test]
fn set_ttl_changes_the_default_expiry() {
    let mut store = test_store();
    store.set_ttl(300);
    assert_eq!(store.ttl(), 300);
    assert_eq!(store.expire_at(None, NOW), NOW + 300_000);
    assert_eq!(store.expire_at(Some(NOW + 5), NOW), NOW + 5);
}

#[test]
fn default_expiry_saturates() {
    let mut store = test_store();
    store.set_ttl(usize::MAX);
    assert_eq!(store.expire_at(None, NOW), i64::MAX);
}

#[test]
fn store_without_expiry_gets_default_ttl() {
    let store = test_store();
    let meta = SessionMeta { id: "abc".to_string(), expiry: None, cookie_value: None };
    match store.store_command_at(&meta, 7u8, NOW) {
        Command::ReplaceOne { filter_id, replacement, upsert } => {
            assert_eq!(filter_id, "abc");
            assert!(upsert);
            assert_eq!(replacement.session_id, "abc");
            assert_eq!(replacement.session, 7u8);
            assert_eq!(replacement.created, NOW);
            assert_eq!(replacement.expire_at, replacement.created + 1_200_000);
        }
        _ => panic!("expected an upsert"),
    }
}

#[test]
fn store_with_expiry_keeps_it() {
    let store = test_store();
    let meta = SessionMeta { id: "abc".to_string(), expiry: Some(NOW - 10), cookie_value: None };
    match store.store_command(&meta, 1u8) {
        Command::ReplaceOne { replacement, .. } => assert_eq!(replacement.expire_at, NOW - 10),
        _ => panic!("expected an upsert"),
    }
}

#[test]
fn storing_twice_keeps_one_record() {
    let store = test_store();
    let (first, key, _) = keyed_session(1);
    let mut second = first.clone();
    second.insert(&key, "newer").unwrap();
    let (meta1, payload1, _) = prepare(first);
    let meta2 = meta_of(&second);
    let payload2 = bson::to_bson(&second).unwrap();
    let mut coll = Vec::new();
    run(&mut coll, store.store_command_at(&meta1, payload1, NOW));
    run(&mut coll, store.store_command_at(&meta2, payload2.clone(), NOW + 10));
    assert_eq!(coll.len(), 1);
    assert_eq!(coll[0].session, payload2);
    assert_eq!(coll[0].created, NOW + 10);
}

#[test]
fn destroying_twice_is_no_error() {
    let store = test_store();
    let (session, _, _) = keyed_session(2);
    let (meta, payload, cookie) = prepare(session);
    let mut coll = Vec::new();
    run(&mut coll, store.store_command_at(&meta, payload, NOW));
    run(&mut coll, destroy_command(&meta));
    assert!(coll.is_empty());
    match destroy_command::<Bson>(&meta) {
        Command::DeleteOne { filter_id } => assert_eq!(filter_id, meta.id),
        _ => panic!("expected a deletion"),
    }
    run(&mut coll, destroy_command(&meta));
    assert!(coll.is_empty());
    assert!(load(&mut coll, &cookie, NOW).is_none());
}

#[test]
fn clear_drops_and_reindexes() {
    let store = test_store();
    let (a, _, _) = keyed_session(3);
    let (b, key, value) = keyed_session(4);
    let (meta_a, payload_a, cookie_a) = prepare(a);
    let (meta_b, payload_b, cookie_b) = prepare(b);
    let mut coll = Vec::new();
    run(&mut coll, store.store_command_at(&meta_a, payload_a, NOW));
    let cmds = store.clear_commands::<Bson>();
    assert_eq!(cmds.len(), 2);
    assert!(matches!(cmds[0], Command::Drop));
    match &cmds[1] {
        Command::CreateIndex { index } => {
            assert_eq!(index.collection, "collection");
            assert_eq!(index.field, "expireAt");
            assert_eq!(index.name, "session_expire_index_expireAt");
            assert_eq!(index.expire_after_seconds, 0);
        }
        _ => panic!("expected an index"),
    }
    for cmd in cmds {
        run(&mut coll, cmd);
    }
    assert!(load(&mut coll, &cookie_a, NOW).is_none());
    run(&mut coll, store.store_command_at(&meta_b, payload_b, NOW));
    let loaded = load(&mut coll, &cookie_b, NOW).unwrap();
    assert_eq!(loaded.get::<String>(&key).unwrap(), value);
}

#[test]
fn index_on_created_names_its_field() {
    let store = test_store();
    match store.index_on_created_command::<Bson>(300) {
        Command::CreateIndex { index } => {
            assert_eq!(index.field, "created");
            assert_eq!(index.name, "session_expire_index_created");
            assert_eq!(index.expire_after_seconds, 300);
        }
        _ => panic!("expected an index"),
    }
    match store.index_on_expiry_at_command::<Bson>() {
        Command::CreateIndex { index } => assert_eq!(index.name, "session_expire_index_expireAt"),
        _ => panic!("expected an index"),
    }
}

#[test]
fn load_decisions() {
    assert!(matches!(load_decision_at::<u8>(None, NOW), LoadDecision::Absent));
    let found = LoadedDocument { session: Some(5u8), expire_at: Some(NOW) };
    assert!(matches!(load_decision_at(Some(found), NOW), LoadDecision::Decode(5)));
    let found = LoadedDocument { session: Some(5u8), expire_at: Some(NOW - 1) };
    assert!(matches!(load_decision_at(Some(found), NOW), LoadDecision::Absent));
    let found = LoadedDocument { session: Some(5u8), expire_at: None };
    assert!(matches!(load_decision_at(Some(found), NOW), LoadDecision::Decode(5)));
    let found = LoadedDocument::<u8> { session: None, expire_at: Some(NOW + 1) };
    assert!(matches!(load_decision_at(Some(found), NOW), LoadDecision::DecodeEmpty));
}

#[test]
fn undecodable_payload_is_no_session() {
    assert_eq!(decoded_session::<u8, ()>(Err(())), None);
    assert_eq!(decoded_session::<u8, ()>(Ok(3)), Some(3));
    let garbage = Bson::String("garbage".to_string());
    assert!(decoded_session(bson::from_bson::<Session>(garbage)).is_none());
}

#[test]
fn error_messages() {
    assert_eq!(StoreError::MalformedCookie.message(), "malformed session cookie");
    assert_eq!(StoreError::DatabaseOperation.message(), "database operation failed");
}
