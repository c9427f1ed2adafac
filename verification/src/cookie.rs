//! The session cookie: how a session token travels to the client and back.

use vstd::prelude::*;
use crate::session::SESSION_EXPIRY_SECONDS;

verus! {

/// The name of the cookie that carries the session token.
pub const SESSION_COOKIE_NAME: &'static str = "session_id";

/// The path that the session cookie is valid for: the whole site.
pub const SESSION_COOKIE_PATH: &'static str = "/";

/// A session cookie to be set.
#[derive(Debug, Clone, PartialEq, Eq)]
pub struct SessionCookie {
    pub name: String,
    /// The session token, and nothing else.
    pub value: String,
    pub path: String,
    /// Whether the cookie is kept from scripts.
    pub http_only: bool,
    /// After how many seconds the client is to drop the cookie.
    pub max_age_seconds: i64,
}

/// The mathematical value of a [`SessionCookie`].
pub struct SessionCookieView {
    pub name: Seq<char>,
    pub value: Seq<char>,
    pub path: Seq<char>,
    pub http_only: bool,
    pub max_age_seconds: i64,
}

impl View for SessionCookie {
    type V = SessionCookieView;

    open spec fn view(&self) -> SessionCookieView {
        SessionCookieView {
            name: self.name@,
            value: self.value@,
            path: self.path@,
            http_only: self.http_only,
            max_age_seconds: self.max_age_seconds,
        }
    }
}

/// The cookie that carries `token`: named `session_id`, valid for the whole
/// site, kept from scripts, and dropped by the client when the session
/// expires in the store.
pub open spec fn session_cookie_for(token: Seq<char>) -> SessionCookieView {
    SessionCookieView {
        name: SESSION_COOKIE_NAME@,
        value: token,
        path: SESSION_COOKIE_PATH@,
        http_only: true,
        max_age_seconds: SESSION_EXPIRY_SECONDS as i64,
    }
}

/// Builds the cookie that carries `token`.
pub fn session_cookie(token: String) -> (cookie: SessionCookie)
    ensures
        cookie@ == session_cookie_for(token@),
        cookie@.max_age_seconds == 604800,
{
    SessionCookie {
        name: SESSION_COOKIE_NAME.to_owned(),
        value: token,
        path: SESSION_COOKIE_PATH.to_owned(),
        http_only: true,
        max_age_seconds: SESSION_EXPIRY_SECONDS as i64,
    }
}

/// What a response does to the client's session cookie.
#[derive(Debug, Clone, PartialEq, Eq)]
pub enum CookieChange {
    /// Nothing.
    Keep,
    /// Hand this one out.
    Issue(SessionCookie),
    /// Remove the cookie of this name and path. A client drops a cookie
    /// only when the removal names the path that the cookie was set for.
    Remove { name: String, path: String },
}

/// The mathematical value of a [`CookieChange`].
pub enum CookieChangeView {
    Keep,
    Issue(SessionCookieView),
    Remove { name: Seq<char>, path: Seq<char> },
}

impl View for CookieChange {
    type V = CookieChangeView;

    open spec fn view(&self) -> CookieChangeView {
        match self {
            CookieChange::Keep => CookieChangeView::Keep,
            CookieChange::Issue(cookie) => CookieChangeView::Issue(cookie@),
            CookieChange::Remove { name, path } => CookieChangeView::Remove {
                name: name@,
                path: path@,
            },
        }
    }
}

/// The change that removes the session cookie: it names the cookie and
/// the path that [`session_cookie_for`] sets it for.
pub open spec fn cleared_session_cookie() -> CookieChangeView {
    CookieChangeView::Remove { name: SESSION_COOKIE_NAME@, path: SESSION_COOKIE_PATH@ }
}

/// Builds the change that removes the session cookie.
pub fn clear_session_cookie() -> (change: CookieChange)
    ensures
        change@ == cleared_session_cookie(),
        change@ matches CookieChangeView::Remove { name, path } && forall|token: Seq<char>|
            name == (#[trigger] session_cookie_for(token)).name && path == session_cookie_for(
                token,
            ).path,
{
    CookieChange::Remove {
        name: SESSION_COOKIE_NAME.to_owned(),
        path: SESSION_COOKIE_PATH.to_owned(),
    }
}

} // verus!
