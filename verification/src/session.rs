//! Sessions: what is written to the expiring key-value store when one is
//! opened, how the store's answer to a lookup is read, and what the store
//! is taken to do.
//!
//! A session is an entry of the store: the token is the key, the text of
//! the user's id the value, and the store drops the entry by itself once
//! its time to live has passed. Nothing here talks to the store; the
//! functions say what to ask of it and what its answers mean.

use vstd::prelude::*;
use crate::error::AuthError;
use crate::ident::format_uuid;
use crate::ident::is_session_token;
use crate::ident::new_session_token;
use crate::ident::parse_uuid;
use crate::ident::parsed_uuid;
use crate::ident::uuid_text;

verus! {

/// How long a session lives, in seconds: seven days.
pub const SESSION_EXPIRY_SECONDS: u64 = 60 * 60 * 24 * 7;

/// The session store could not be reached, or did not answer in time.
#[derive(Clone, Copy, Debug, PartialEq, Eq, Structural)]
pub struct SessionStoreError;

/// The entry that opens a session.
#[derive(Debug, Clone, PartialEq, Eq)]
pub struct SessionWrite {
    /// The key: the session token.
    pub token: String,
    /// The value: the text of the user's id.
    pub value: String,
    /// The entry's time to live.
    pub ttl_seconds: u64,
}

/// The mathematical value of a [`SessionWrite`].
pub struct SessionWriteView {
    pub token: Seq<char>,
    pub value: Seq<char>,
    pub ttl_seconds: u64,
}

impl View for SessionWrite {
    type V = SessionWriteView;

    open spec fn view(&self) -> SessionWriteView {
        SessionWriteView { token: self.token@, value: self.value@, ttl_seconds: self.ttl_seconds }
    }
}

impl SessionWriteView {
    /// Whether this entry opens a session for `user_id`: the key is a
    /// session token, the value is the text of `user_id` and reads back as
    /// `user_id`, and the entry lives for the session lifetime.
    pub open spec fn binds(self, user_id: u128) -> bool {
        &&& is_session_token(self.token)
        &&& self.value == uuid_text(user_id)
        &&& parsed_uuid(self.value) == Some(user_id)
        &&& self.ttl_seconds == SESSION_EXPIRY_SECONDS
    }
}

/// What can be asked of the session store.
#[derive(Debug, Clone, PartialEq, Eq)]
pub enum SessionCommand {
    /// Set the entry, with its time to live, whatever was there before.
    Store(SessionWrite),
    /// Get the value under `token`, if there is one.
    Find { token: String },
    /// Delete the entry under `token`, if there is one.
    Delete { token: String },
}

/// The mathematical value of a [`SessionCommand`].
pub enum SessionCommandView {
    Store(SessionWriteView),
    Find { token: Seq<char> },
    Delete { token: Seq<char> },
}

impl View for SessionCommand {
    type V = SessionCommandView;

    open spec fn view(&self) -> SessionCommandView {
        match self {
            SessionCommand::Store(write) => SessionCommandView::Store(write@),
            SessionCommand::Find { token } => SessionCommandView::Find { token: token@ },
            SessionCommand::Delete { token } => SessionCommandView::Delete { token: token@ },
        }
    }
}

/// What a lookup's answer means: the user that the session belongs to.
///
/// No entry means no session. An entry whose value is not the text of an
/// id means no session either.
pub open spec fn session_user_id(found: Result<Option<Seq<char>>, SessionStoreError>) -> Result<
    Option<u128>,
    AuthError,
> {
    match found {
        Ok(Some(value)) => Ok(parsed_uuid(value)),
        Ok(None) => Ok(None),
        Err(_) => Err(AuthError::StoreUnavailable),
    }
}

/// The view of a lookup's answer.
pub open spec fn found_view(found: Result<Option<String>, SessionStoreError>) -> Result<
    Option<Seq<char>>,
    SessionStoreError,
> {
    match found {
        Ok(Some(value)) => Ok(Some(value@)),
        Ok(None) => Ok(None),
        Err(e) => Err(e),
    }
}

/// Opens a session for `user_id`: draws a fresh token and says what to
/// write under it.
///
/// The value written reads back as `user_id`, so a lookup of the token
/// that finds the entry resolves to this user.
pub fn create_session(user_id: u128) -> (write: SessionWrite)
    ensures
        write@.binds(user_id),
        session_user_id(Ok(Some(write@.value))) == Ok::<Option<u128>, AuthError>(Some(user_id)),
{
    SessionWrite {
        token: new_session_token(),
        value: format_uuid(user_id),
        ttl_seconds: SESSION_EXPIRY_SECONDS,
    }
}

/// Reads the store's answer to a lookup.
///
/// Returns the user's id where an entry was found and its value is the
/// text of an id, `None` where there was no entry or its value is
/// something else, and `StoreUnavailable` where the store failed.
pub fn get_session_user_id(found: Result<Option<String>, SessionStoreError>) -> (user_id: Result<
    Option<u128>,
    AuthError,
>)
    ensures
        user_id == session_user_id(found_view(found)),
{
    match found {
        Ok(Some(value)) => Ok(parse_uuid(value.as_str())),
        Ok(None) => Ok(None),
        Err(_) => Err(AuthError::StoreUnavailable),
    }
}

/// Revokes the session under `token`: says what to delete. The deletion is
/// asked for whether or not the token names a session.
pub fn delete_session(token: String) -> (command: SessionCommand)
    ensures
        command@ == (SessionCommandView::Delete { token: token@ }),
{
    SessionCommand::Delete { token }
}

/// An entry of the session store.
pub struct StoredSession {
    pub value: Seq<char>,
    /// The instant, in seconds, from which the entry is gone.
    pub expires_at: int,
}

/// What the session store is taken to be: a map from keys to entries that
/// expire. Time is in seconds.
pub struct SessionStore {
    pub entries: Map<Seq<char>, StoredSession>,
}

impl SessionStore {
    /// The value under `token` at the instant `now`: the entry's value while
    /// the entry is there and has not expired. Looking up changes nothing,
    /// so it does not prolong a session.
    pub open spec fn lookup(self, token: Seq<char>, now: int) -> Option<Seq<char>> {
        if self.entries.contains_key(token) && now < self.entries[token].expires_at {
            Some(self.entries[token].value)
        } else {
            None
        }
    }

    /// The store after `write` was carried out at the instant `now`.
    pub open spec fn write(self, write: SessionWriteView, now: int) -> SessionStore {
        SessionStore {
            entries: self.entries.insert(
                write.token,
                StoredSession { value: write.value, expires_at: now + write.ttl_seconds },
            ),
        }
    }

    /// The store after the entry under `token` was deleted.
    pub open spec fn delete(self, token: Seq<char>) -> SessionStore {
        SessionStore { entries: self.entries.remove(token) }
    }

    /// The store after `command` was carried out at the instant `now`.
    pub open spec fn execute(self, command: SessionCommandView, now: int) -> SessionStore {
        match command {
            SessionCommandView::Store(write) => self.write(write, now),
            SessionCommandView::Find { token } => self,
            SessionCommandView::Delete { token } => self.delete(token),
        }
    }
}

/// A session that was just opened resolves to its user, at once and at any
/// instant before the session lifetime has passed.
pub proof fn lemma_created_session_resolves(
    store: SessionStore,
    write: SessionWriteView,
    user_id: u128,
    now: int,
    later: int,
)
    requires
        write.binds(user_id),
        now <= later < now + SESSION_EXPIRY_SECONDS,
    ensures
        session_user_id(Ok(store.write(write, now).lookup(write.token, later))) == Ok::<
            Option<u128>,
            AuthError,
        >(Some(user_id)),
{
}

/// Once the session lifetime has passed, the session resolves to nobody.
pub proof fn lemma_session_expires(
    store: SessionStore,
    write: SessionWriteView,
    user_id: u128,
    now: int,
    later: int,
)
    requires
        write.binds(user_id),
        later >= now + SESSION_EXPIRY_SECONDS,
    ensures
        session_user_id(Ok(store.write(write, now).lookup(write.token, later))) == Ok::<
            Option<u128>,
            AuthError,
        >(None),
{
}

/// A revoked session resolves to nobody, whatever the store held.
pub proof fn lemma_revoked_session_is_gone(store: SessionStore, token: Seq<char>, now: int)
    ensures
        session_user_id(Ok(store.delete(token).lookup(token, now))) == Ok::<Option<u128>, AuthError>(
            None,
        ),
{
}

/// A token that the store has no entry for resolves to nobody, and that is
/// no error.
pub proof fn lemma_unknown_token_resolves_to_nobody(store: SessionStore, token: Seq<char>, now: int)
    requires
        !store.entries.contains_key(token),
    ensures
        session_user_id(Ok(store.lookup(token, now))) == Ok::<Option<u128>, AuthError>(None),
{
}

/// Revoking is idempotent: deleting a token that names no session leaves
/// the store as it was, and so does deleting a second time.
pub proof fn lemma_revoke_is_idempotent(store: SessionStore, token: Seq<char>)
    ensures
        !store.entries.contains_key(token) ==> store.delete(token) == store,
        store.delete(token).delete(token) == store.delete(token),
{
    assert(store.delete(token).delete(token).entries =~= store.delete(token).entries);
    if !store.entries.contains_key(token) {
        assert(store.delete(token).entries =~= store.entries);
    }
}

/// Opening or revoking one session leaves every other session as it was.
pub proof fn lemma_other_sessions_are_untouched(
    store: SessionStore,
    command: SessionCommandView,
    other: Seq<char>,
    now: int,
    later: int,
)
    requires
        match command {
            SessionCommandView::Store(write) => write.token != other,
            SessionCommandView::Find { token } => true,
            SessionCommandView::Delete { token } => token != other,
        },
    ensures
        store.execute(command, now).lookup(other, later) == store.lookup(other, later),
{
}

} // verus!
