//! The vocabulary of the request flows.
//!
//! Every request is served by a small state machine. A step takes the
//! flow's state and an event, and gives the next state and an action. The
//! caller carries the action out (it asks a store, or it answers the
//! client) and comes back with the event that reports how that went. A
//! flow is over once its action is a response, a rejection or a forward.

use vstd::prelude::*;
use crate::auth::AuthResponse;
use crate::auth::AuthResponseView;
use crate::auth::LoginRequest;
use crate::auth::LoginRequestView;
use crate::auth::SignupRequest;
use crate::auth::SignupRequestView;
use crate::cookie::CookieChange;
use crate::cookie::CookieChangeView;
use crate::error::AuthError;
use crate::models::user::Principal;
use crate::models::user::PrincipalView;
use crate::models::user::User;
use crate::models::user::UserCommand;
use crate::models::user::UserCommandView;
use crate::models::user::UserStoreError;
use crate::models::user::UserView;
use crate::session::SessionCommand;
use crate::session::SessionCommandView;
use crate::session::SessionStoreError;
use crate::session::found_view;

verus! {

/// A successful answer to the client.
#[derive(Debug, Clone, PartialEq, Eq)]
pub struct Response {
    /// The HTTP status code.
    pub status: u16,
    /// The body, where the answer has one.
    pub body: Option<AuthResponse>,
    /// What becomes of the client's session cookie.
    pub cookie: CookieChange,
}

/// The mathematical value of a [`Response`].
pub struct ResponseView {
    pub status: u16,
    pub body: Option<AuthResponseView>,
    pub cookie: CookieChangeView,
}

impl View for Response {
    type V = ResponseView;

    open spec fn view(&self) -> ResponseView {
        ResponseView {
            status: self.status,
            body: match self.body {
                Some(body) => Some(body@),
                None => None,
            },
            cookie: self.cookie@,
        }
    }
}

/// What the caller is to do next.
#[derive(Debug, Clone, PartialEq, Eq)]
pub enum Action {
    /// Ask the user store, and come back with its answer.
    Users(UserCommand),
    /// Ask the session store, and come back with its answer.
    Sessions(SessionCommand),
    /// Answer the client. The flow is over.
    Respond(Response),
    /// Refuse the request for this reason. The flow is over.
    Reject(AuthError),
    /// Let the request through to its handler, with the id of the user it
    /// was found to come from, if any. The flow is over.
    Forward { user_id: Option<u128> },
}

/// The mathematical value of an [`Action`].
pub enum ActionView {
    Users(UserCommandView),
    Sessions(SessionCommandView),
    Respond(ResponseView),
    Reject(AuthError),
    Forward { user_id: Option<u128> },
}

impl View for Action {
    type V = ActionView;

    open spec fn view(&self) -> ActionView {
        match self {
            Action::Users(command) => ActionView::Users(command@),
            Action::Sessions(command) => ActionView::Sessions(command@),
            Action::Respond(response) => ActionView::Respond(response@),
            Action::Reject(reason) => ActionView::Reject(*reason),
            Action::Forward { user_id } => ActionView::Forward { user_id: *user_id },
        }
    }
}

impl ActionView {
    /// Whether the action ends the flow.
    pub open spec fn is_final(self) -> bool {
        self is Respond || self is Reject || self is Forward
    }

    /// Whether the action asks anything of the session store.
    pub open spec fn contacts_session_store(self) -> bool {
        self is Sessions
    }
}

/// What the caller reports.
#[derive(Debug, PartialEq, Eq)]
pub enum Event {
    /// A signup request came in.
    Signup(SignupRequest),
    /// A login request came in.
    Login(LoginRequest),
    /// A request came in, with this value in its session cookie, or with no
    /// session cookie.
    Cookie(Option<String>),
    /// The user store's answer to `Create`.
    UserCreated(Result<User, UserStoreError>),
    /// The user store's answer to `FindByEmail` or `FindById`.
    UserFound(Result<Option<User>, UserStoreError>),
    /// The session store's answer to `Store`.
    SessionStored(Result<(), SessionStoreError>),
    /// The session store's answer to `Find`.
    SessionFound(Result<Option<String>, SessionStoreError>),
    /// The session store's answer to `Delete`.
    SessionDeleted(Result<(), SessionStoreError>),
}

/// The mathematical value of an [`Event`].
pub enum EventView {
    Signup(SignupRequestView),
    Login(LoginRequestView),
    Cookie(Option<Seq<char>>),
    UserCreated(Result<UserView, UserStoreError>),
    UserFound(Result<Option<UserView>, UserStoreError>),
    SessionStored(Result<(), SessionStoreError>),
    SessionFound(Result<Option<Seq<char>>, SessionStoreError>),
    SessionDeleted(Result<(), SessionStoreError>),
}

impl View for Event {
    type V = EventView;

    open spec fn view(&self) -> EventView {
        match self {
            Event::Signup(request) => EventView::Signup(request@),
            Event::Login(request) => EventView::Login(request@),
            Event::Cookie(Some(token)) => EventView::Cookie(Some(token@)),
            Event::Cookie(None) => EventView::Cookie(None),
            Event::UserCreated(Ok(user)) => EventView::UserCreated(Ok(user@)),
            Event::UserCreated(Err(e)) => EventView::UserCreated(Err(*e)),
            Event::UserFound(Ok(Some(user))) => EventView::UserFound(Ok(Some(user@))),
            Event::UserFound(Ok(None)) => EventView::UserFound(Ok(None)),
            Event::UserFound(Err(e)) => EventView::UserFound(Err(*e)),
            Event::SessionStored(outcome) => EventView::SessionStored(*outcome),
            Event::SessionFound(found) => EventView::SessionFound(found_view(*found)),
            Event::SessionDeleted(outcome) => EventView::SessionDeleted(*outcome),
        }
    }
}

/// Where a flow stands: what it waits for, and what it has to remember
/// until then.
#[derive(Debug, Clone, PartialEq, Eq)]
pub enum Flow {
    /// Nothing has happened yet.
    Start,
    /// Signup waits for the user store to register the user.
    CreatingUser,
    /// Login waits for the user store to find the user, and keeps the
    /// password that was presented.
    FindingUserByEmail { password: String },
    /// Signup or login waits for the session store to record the session
    /// under `token`.
    StoringSession { user: Principal, token: String },
    /// The flow waits for the session store to look the token up.
    FindingSession,
    /// The flow waits for the user store to find the session's user.
    FindingUserById,
    /// Logout waits for the session store to delete the session.
    DeletingSession,
    /// The flow is over.
    Done,
}

/// The mathematical value of a [`Flow`].
pub enum FlowView {
    Start,
    CreatingUser,
    FindingUserByEmail { password: Seq<char> },
    StoringSession { user: PrincipalView, token: Seq<char> },
    FindingSession,
    FindingUserById,
    DeletingSession,
    Done,
}

impl FlowView {
    /// How many requests to a store a flow in this state can still make
    /// at most.
    pub open spec fn requests_left(self) -> nat {
        match self {
            FlowView::Start => 3,
            FlowView::CreatingUser => 2,
            FlowView::FindingUserByEmail { password } => 2,
            FlowView::FindingSession => 2,
            FlowView::StoringSession { user, token } => 1,
            FlowView::FindingUserById => 1,
            FlowView::DeletingSession => 1,
            FlowView::Done => 0,
        }
    }
}

impl View for Flow {
    type V = FlowView;

    open spec fn view(&self) -> FlowView {
        match self {
            Flow::Start => FlowView::Start,
            Flow::CreatingUser => FlowView::CreatingUser,
            Flow::FindingUserByEmail { password } => FlowView::FindingUserByEmail {
                password: password@,
            },
            Flow::StoringSession { user, token } => FlowView::StoringSession {
                user: user@,
                token: token@,
            },
            Flow::FindingSession => FlowView::FindingSession,
            Flow::FindingUserById => FlowView::FindingUserById,
            Flow::DeletingSession => FlowView::DeletingSession,
            Flow::Done => FlowView::Done,
        }
    }
}

} // verus!
