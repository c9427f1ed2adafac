use backend::error::AuthError;
use backend::ident::new_session_token;
use backend::session::create_session;
use backend::session::delete_session;
use backend::session::get_session_user_id;
use backend::session::SessionCommand;
use backend::session::SessionStoreError;
use backend::session::SessionWrite;
use std::collections::HashMap;

const ALICE: u128 = 0xa1a2a3a4b1b2c1c2d1d2d3d4d5d6d7d8;

/// An expiring key-value store, as far as these tests need one.
struct Store {
    entries: HashMap<String, (String, u64)>,
    now: u64,
}

fn empty_store() -> Store {
    Store { entries: HashMap::new(), now: 1_000 }
}

fn write(store: &mut Store, entry: &SessionWrite) {
    store.entries.insert(entry.token.clone(), (entry.value.clone(), store.now + entry.ttl_seconds));
}

fn lookup(store: &Store, token: &str) -> Option<String> {
    match store.entries.get(token) {
        Some((value, expires_at)) if store.now < *expires_at => Some(value.clone()),
        _ => None,
    }
}

fn execute(store: &mut Store, command: SessionCommand) {
    match command {
        SessionCommand::Store(entry) => write(store, &entry),
        SessionCommand::Find { .. } => {}
        SessionCommand::Delete { token } => {
            store.entries.remove(&token);
        }
    }
}

/// Whether `token` is two canonical UUID texts, one after the other.
fn has_token_shape(token: &str) -> bool {
    token.len() == 72
        && token.chars().enumerate().all(|(i, c)| {
            let at = i % 36;
            if at == 8 || at == 13 || at == 18 || at == 23 {
                c == '-'
            } else {
                c.is_ascii_digit() || ('a'..='f').contains(&c)
            }
        })
}

#[test]
fn session_value_is_the_canonical_text_of_the_user_id() {
    assert_eq!(create_session(ALICE).value, "a1a2a3a4-b1b2-c1c2-d1d2-d3d4d5d6d7d8");
    assert_eq!(create_session(0).value, "00000000-0000-0000-0000-000000000000");
    assert_eq!(create_session(u128::MAX).value, "ffffffff-ffff-ffff-ffff-ffffffffffff");
    assert_eq!(create_session(0x1f).value, "00000000-0000-0000-0000-00000000001f");
}

#[test]
fn session_lives_seven_days() {
    assert_eq!(create_session(ALICE).ttl_seconds, 604800);
}

#[test]
fn session_token_is_url_safe_and_says_nothing_of_the_user() {
    let entry = create_session(ALICE);
    assert!(has_token_shape(&entry.token));
    assert_ne!(entry.token, entry.value);
    assert!(has_token_shape(&new_session_token()));
}

#[test]
fn session_token_is_made_of_two_random_uuids() {
    let token = new_session_token();
    let (first, second) = token.split_at(36);
    assert_ne!(first, second);
    for half in [first, second] {
        assert!(get_session_user_id(Ok(Some(half.to_string()))).unwrap().is_some());
        assert_eq!(half.chars().nth(14), Some('4'));
    }
}

#[test]
fn session_tokens_are_fresh() {
    let first = create_session(ALICE);
    let second = create_session(ALICE);
    assert_ne!(first.token, second.token);
    assert_eq!(first.value, second.value);
}

#[test]
fn found_value_resolves_to_the_user_id() {
    let found = Ok(Some("a1a2a3a4-b1b2-c1c2-d1d2-d3d4d5d6d7d8".to_string()));
    assert_eq!(get_session_user_id(found), Ok(Some(ALICE)));
}

#[test]
fn found_value_is_read_in_every_form_the_parser_takes() {
    for text in [
        "A1A2A3A4-B1B2-C1C2-D1D2-D3D4D5D6D7D8",
        "a1a2a3a4b1b2c1c2d1d2d3d4d5d6d7d8",
        "{a1a2a3a4-b1b2-c1c2-d1d2-d3d4d5d6d7d8}",
        "urn:uuid:a1a2a3a4-b1b2-c1c2-d1d2-d3d4d5d6d7d8",
    ] {
        assert_eq!(get_session_user_id(Ok(Some(text.to_string()))), Ok(Some(ALICE)));
    }
}

#[test]
fn value_that_is_no_id_resolves_to_nobody() {
    for text in ["", "alice", "a1a2a3a4-b1b2-c1c2-d1d2-d3d4d5d6d7d", "a1a2a3a4-b1b2-c1c2-d1d2-d3d4d5d6d7dg"] {
        assert_eq!(get_session_user_id(Ok(Some(text.to_string()))), Ok(None));
    }
}

#[test]
fn no_entry_resolves_to_nobody() {
    assert_eq!(get_session_user_id(Ok(None)), Ok(None));
}

#[test]
fn store_failure_is_store_unavailable() {
    assert_eq!(get_session_user_id(Err(SessionStoreError)), Err(AuthError::StoreUnavailable));
}

#[test]
fn delete_session_deletes_that_token() {
    assert_eq!(
        delete_session("some-token".to_string()),
        SessionCommand::Delete { token: "some-token".to_string() }
    );
}

#[test]
fn created_session_resolves_at_once() {
    let mut store = empty_store();
    let entry = create_session(ALICE);
    let token = entry.token.clone();
    execute(&mut store, SessionCommand::Store(entry));
    assert_eq!(get_session_user_id(Ok(lookup(&store, &token))), Ok(Some(ALICE)));
}

#[test]
fn created_session_resolves_until_it_expires() {
    let mut store = empty_store();
    let entry = create_session(ALICE);
    let token = entry.token.clone();
    execute(&mut store, SessionCommand::Store(entry));
    store.now += 604_799;
    assert_eq!(get_session_user_id(Ok(lookup(&store, &token))), Ok(Some(ALICE)));
    store.now += 1;
    assert_eq!(get_session_user_id(Ok(lookup(&store, &token))), Ok(None));
}

#[test]
fn revoked_session_resolves_to_nobody() {
    let mut store = empty_store();
    let entry = create_session(ALICE);
    let token = entry.token.clone();
    execute(&mut store, SessionCommand::Store(entry));
    execute(&mut store, delete_session(token.clone()));
    assert_eq!(get_session_user_id(Ok(lookup(&store, &token))), Ok(None));
    execute(&mut store, delete_session(token.clone()));
    assert_eq!(get_session_user_id(Ok(lookup(&store, &token))), Ok(None));
}

#[test]
fn token_never_issued_resolves_to_nobody() {
    let mut store = empty_store();
    execute(&mut store, SessionCommand::Store(create_session(ALICE)));
    let stranger = new_session_token();
    assert_eq!(get_session_user_id(Ok(lookup(&store, &stranger))), Ok(None));
    assert_eq!(get_session_user_id(Ok(lookup(&store, "no-such-token"))), Ok(None));
}

#[test]
fn two_sessions_of_one_user_are_independent() {
    let mut store = empty_store();
    let first = create_session(ALICE);
    let second = create_session(ALICE);
    let (first_token, second_token) = (first.token.clone(), second.token.clone());
    execute(&mut store, SessionCommand::Store(first));
    execute(&mut store, SessionCommand::Store(second));
    execute(&mut store, delete_session(first_token.clone()));
    assert_eq!(get_session_user_id(Ok(lookup(&store, &first_token))), Ok(None));
    assert_eq!(get_session_user_id(Ok(lookup(&store, &second_token))), Ok(Some(ALICE)));
}
