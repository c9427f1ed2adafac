//! Signup, login, logout and the identity check.
//!
//! Each is a flow (see [`crate::flow`]): a function from the flow's state
//! and an event to the next state and an action. An event that does not
//! answer what the flow waits for ends the flow with an internal error,
//! except in logout, which always succeeds.

use vstd::prelude::*;
pub use crate::cookie::SESSION_COOKIE_NAME;
pub use crate::password::hash_password;
pub use crate::password::verify_password;
pub use crate::session::create_session;
pub use crate::session::delete_session;
pub use crate::session::get_session_user_id;
use crate::cookie::CookieChange;
use crate::cookie::CookieChangeView;
use crate::cookie::clear_session_cookie;
use crate::cookie::cleared_session_cookie;
use crate::cookie::session_cookie;
use crate::cookie::session_cookie_for;
use crate::error::AuthError;
use crate::flow::Action;
use crate::flow::ActionView;
use crate::flow::Event;
use crate::flow::EventView;
use crate::flow::Flow;
use crate::flow::FlowView;
use crate::flow::Response;
use crate::flow::ResponseView;
use crate::models::user::CreateUser;
use crate::models::user::CreateUserView;
use crate::models::user::Principal;
use crate::models::user::PrincipalView;
use crate::models::user::User;
use crate::models::user::UserCommand;
use crate::models::user::UserCommandView;
use crate::models::user::UserStoreError;
use crate::models::user::UserView;
use crate::password::argon2_hashed;
use crate::password::hashed_under;
use crate::password::password_fits;
use crate::password::verification;
use crate::session::SessionCommand;
use crate::session::SessionCommandView;
use crate::session::SessionStoreError;
use crate::session::session_user_id;

verus! {

/// The body of a signup request.
#[derive(Debug, Clone, PartialEq, Eq)]
pub struct SignupRequest {
    pub email: String,
    pub name: String,
    pub password: String,
}

/// The mathematical value of a [`SignupRequest`].
pub struct SignupRequestView {
    pub email: Seq<char>,
    pub name: Seq<char>,
    pub password: Seq<char>,
}

impl View for SignupRequest {
    type V = SignupRequestView;

    open spec fn view(&self) -> SignupRequestView {
        SignupRequestView { email: self.email@, name: self.name@, password: self.password@ }
    }
}

/// The body of a login request.
#[derive(Debug, Clone, PartialEq, Eq)]
pub struct LoginRequest {
    pub email: String,
    pub password: String,
}

/// The mathematical value of a [`LoginRequest`].
pub struct LoginRequestView {
    pub email: Seq<char>,
    pub password: Seq<char>,
}

impl View for LoginRequest {
    type V = LoginRequestView;

    open spec fn view(&self) -> LoginRequestView {
        LoginRequestView { email: self.email@, password: self.password@ }
    }
}

/// The body of an answer that shows a user. It holds a [`Principal`], so
/// no credential can be in it.
#[derive(Debug, Clone, PartialEq, Eq)]
pub struct AuthResponse {
    pub user: Principal,
}

/// The mathematical value of an [`AuthResponse`].
pub struct AuthResponseView {
    pub user: PrincipalView,
}

impl View for AuthResponse {
    type V = AuthResponseView;

    open spec fn view(&self) -> AuthResponseView {
        AuthResponseView { user: self.user@ }
    }
}

/// How a failure of the user store to register a user is reported.
pub open spec fn registration_failure(e: UserStoreError) -> AuthError {
    match e {
        UserStoreError::EmailTaken => AuthError::EmailTaken,
        UserStoreError::Unavailable => AuthError::StoreUnavailable,
        UserStoreError::Unknown => AuthError::Unknown,
    }
}

/// How a failure of the user store to look a user up is reported.
pub open spec fn lookup_failure(e: UserStoreError) -> AuthError {
    match e {
        UserStoreError::Unavailable => AuthError::StoreUnavailable,
        _ => AuthError::Unknown,
    }
}

/// Whether `next` and `action` are the first step of signup where the salt
/// that was drawn is `salt`. Where Argon2 derives a hash from the password
/// under the salt, the user store is asked to register the user with
/// exactly that hash, which verifies for the password. Where it derives
/// none, the password was too long, and the request is rejected with
/// `HashingFailed`.
pub open spec fn signup_hashed(
    request: SignupRequestView,
    salt: Seq<char>,
    next: FlowView,
    action: ActionView,
) -> bool {
    match argon2_hashed(request.password, salt) {
        Some(hash) => {
            &&& next == FlowView::CreatingUser
            &&& action == ActionView::Users(
                UserCommandView::Create {
                    user: CreateUserView { email: request.email, name: request.name },
                    password_hash: hash,
                },
            )
            &&& verification(request.password, hash) == Ok::<bool, AuthError>(true)
        },
        None => {
            &&& !password_fits(request.password)
            &&& (next, action) == (FlowView::Done, ActionView::Reject(AuthError::HashingFailed))
        },
    }
}

/// The answer that shows `user` and hands out the session cookie for
/// `token`.
pub open spec fn session_response(status: u16, user: PrincipalView, token: Seq<char>) -> ActionView {
    ActionView::Respond(
        ResponseView {
            status,
            body: Some(AuthResponseView { user }),
            cookie: CookieChangeView::Issue(session_cookie_for(token)),
        },
    )
}

/// Whether `next` and `action` open a session for `user`: the action
/// writes an entry that binds a session token to the user's id, and the
/// flow goes on to wait for the store, remembering the user without the
/// credential and the token.
pub open spec fn opens_session(user: UserView, next: FlowView, action: ActionView) -> bool {
    &&& action matches ActionView::Sessions(SessionCommandView::Store(write))
    &&& write.binds(user.id)
    &&& next == (FlowView::StoringSession { user: user.principal(), token: write.token })
}

/// What follows the session store's answer to the write: the response with
/// the cookie once the session is recorded, no cookie and an internal error
/// where it is not.
pub open spec fn session_recorded(
    status: u16,
    user: PrincipalView,
    token: Seq<char>,
    outcome: Result<(), SessionStoreError>,
) -> (FlowView, ActionView) {
    match outcome {
        Ok(_) => (FlowView::Done, session_response(status, user, token)),
        Err(_) => (FlowView::Done, ActionView::Reject(AuthError::StoreUnavailable)),
    }
}

/// Whether `next` and `action` are the first step of signup under some
/// salt.
pub open spec fn signup_begun(
    request: SignupRequestView,
    next: FlowView,
    action: ActionView,
) -> bool {
    exists|salt: Seq<char>| #[trigger] signup_hashed(request, salt, next, action)
}

/// The steps of signup. The password is hashed, the user is registered
/// with the hash, a session is opened for the new user, and the answer is
/// `201` with the user and the session cookie.
///
/// The salt and the token are drawn at random, so a step is a relation:
/// it says which next states and actions are possible. The first step is
/// fixed by the salt that was drawn.
pub open spec fn signup_step(
    state: FlowView,
    event: EventView,
    next: FlowView,
    action: ActionView,
) -> bool {
    match (state, event) {
        (FlowView::Start, EventView::Signup(request)) => signup_begun(request, next, action),
        (FlowView::CreatingUser, EventView::UserCreated(Ok(user))) => opens_session(
            user,
            next,
            action,
        ),
        (FlowView::CreatingUser, EventView::UserCreated(Err(e))) => (next, action) == (
            FlowView::Done,
            ActionView::Reject(registration_failure(e)),
        ),
        (FlowView::StoringSession { user, token }, EventView::SessionStored(outcome)) => (
            next,
            action,
        ) == session_recorded(201, user, token, outcome),
        _ => (next, action) == (FlowView::Done, ActionView::Reject(AuthError::Unknown)),
    }
}

/// The steps of login. The user is looked up by email, the password is
/// checked against the stored hash, a session is opened, and the answer is
/// `200` with the user and the session cookie. An unknown email and a
/// wrong password are rejected alike.
///
/// The token is drawn at random, so a step is a relation.
pub open spec fn login_step(
    state: FlowView,
    event: EventView,
    next: FlowView,
    action: ActionView,
) -> bool {
    match (state, event) {
        (FlowView::Start, EventView::Login(request)) => (next, action) == (
            FlowView::FindingUserByEmail { password: request.password },
            ActionView::Users(UserCommandView::FindByEmail { email: request.email }),
        ),
        (FlowView::FindingUserByEmail { password }, EventView::UserFound(Ok(Some(user)))) => {
            match verification(password, user.password_hash) {
                Ok(true) => opens_session(user, next, action),
                Ok(false) => (next, action) == (
                    FlowView::Done,
                    ActionView::Reject(AuthError::InvalidCredentials),
                ),
                Err(e) => (next, action) == (FlowView::Done, ActionView::Reject(e)),
            }
        },
        (FlowView::FindingUserByEmail { password }, EventView::UserFound(Ok(None))) => (
            next,
            action,
        ) == (FlowView::Done, ActionView::Reject(AuthError::InvalidCredentials)),
        (FlowView::FindingUserByEmail { password }, EventView::UserFound(Err(e))) => (
            next,
            action,
        ) == (FlowView::Done, ActionView::Reject(lookup_failure(e))),
        (FlowView::StoringSession { user, token }, EventView::SessionStored(outcome)) => (
            next,
            action,
        ) == session_recorded(200, user, token, outcome),
        _ => (next, action) == (FlowView::Done, ActionView::Reject(AuthError::Unknown)),
    }
}

/// The answer to a logout: `200`, no body, and the session cookie removed.
pub open spec fn logged_out() -> ActionView {
    ActionView::Respond(
        ResponseView { status: 200, body: None, cookie: cleared_session_cookie() },
    )
}

/// The steps of logout. Where the request has a session cookie, the
/// session under its value is revoked; what the store answers does not
/// matter. The answer is always `200` with the cookie removed.
pub open spec fn logout_step(state: FlowView, event: EventView) -> (FlowView, ActionView) {
    match (state, event) {
        (FlowView::Start, EventView::Cookie(Some(token))) => (
            FlowView::DeletingSession,
            ActionView::Sessions(SessionCommandView::Delete { token }),
        ),
        _ => (FlowView::Done, logged_out()),
    }
}

/// The steps of the identity check. The session cookie's value is looked
/// up in the session store, the user it resolves to is looked up in the
/// user store, and the answer is `200` with the user. No cookie, no
/// session and no user are rejected alike, as unauthenticated.
pub open spec fn me_step(state: FlowView, event: EventView) -> (FlowView, ActionView) {
    match (state, event) {
        (FlowView::Start, EventView::Cookie(None)) => (
            FlowView::Done,
            ActionView::Reject(AuthError::Unauthenticated),
        ),
        (FlowView::Start, EventView::Cookie(Some(token))) => (
            FlowView::FindingSession,
            ActionView::Sessions(SessionCommandView::Find { token }),
        ),
        (FlowView::FindingSession, EventView::SessionFound(found)) => match session_user_id(found) {
            Ok(Some(id)) => (
                FlowView::FindingUserById,
                ActionView::Users(UserCommandView::FindById { id }),
            ),
            Ok(None) => (FlowView::Done, ActionView::Reject(AuthError::Unauthenticated)),
            Err(e) => (FlowView::Done, ActionView::Reject(e)),
        },
        (FlowView::FindingUserById, EventView::UserFound(Ok(Some(user)))) => (
            FlowView::Done,
            ActionView::Respond(
                ResponseView {
                    status: 200,
                    body: Some(AuthResponseView { user: user.principal() }),
                    cookie: CookieChangeView::Keep,
                },
            ),
        ),
        (FlowView::FindingUserById, EventView::UserFound(Ok(None))) => (
            FlowView::Done,
            ActionView::Reject(AuthError::Unauthenticated),
        ),
        (FlowView::FindingUserById, EventView::UserFound(Err(e))) => (
            FlowView::Done,
            ActionView::Reject(lookup_failure(e)),
        ),
        _ => (FlowView::Done, ActionView::Reject(AuthError::Unknown)),
    }
}

/// Classifies a failure of the user store to look a user up.
fn classify_lookup_failure(e: UserStoreError) -> (reason: AuthError)
    ensures
        reason == lookup_failure(e),
{
    match e {
        UserStoreError::Unavailable => AuthError::StoreUnavailable,
        _ => AuthError::Unknown,
    }
}

/// Opens a session for `user` and goes on to wait for the session store.
fn open_session(user: User) -> (step: (Flow, Action))
    ensures
        opens_session(user@, step.0@, step.1@),
{
    let write = create_session(user.id);
    let token = write.token.clone();
    (
        Flow::StoringSession { user: user.principal(), token },
        Action::Sessions(SessionCommand::Store(write)),
    )
}

/// Ends the flow on the session store's answer to the write.
fn record_session(
    status: u16,
    user: Principal,
    token: String,
    outcome: Result<(), SessionStoreError>,
) -> (step: (Flow, Action))
    ensures
        (step.0@, step.1@) == session_recorded(status, user@, token@, outcome),
{
    match outcome {
        Ok(_) => (
            Flow::Done,
            Action::Respond(
                Response {
                    status,
                    body: Some(AuthResponse { user }),
                    cookie: CookieChange::Issue(session_cookie(token)),
                },
            ),
        ),
        Err(_) => (Flow::Done, Action::Reject(AuthError::StoreUnavailable)),
    }
}

/// Takes one step of signup.
///
/// From `Start`, a signup request is answered by hashing the password
/// under a fresh salt and asking the user store to register the user with
/// the hash, which verifies for the password. Only a password of more than
/// 2^32 - 1 bytes is rejected with `HashingFailed`. An email that is taken
/// ends the flow with `EmailTaken`, a user store that cannot be reached
/// with `StoreUnavailable`, any other failure of it with `Unknown`, and
/// in none of these cases is a session opened. Once the user is registered
/// a session is opened for the user's id; where the session store fails,
/// the flow ends with `StoreUnavailable` and the user stays registered.
pub fn signup(state: Flow, event: Event) -> (step: (Flow, Action))
    ensures
        signup_step(state@, event@, step.0@, step.1@),
{
    match (state, event) {
        (Flow::Start, Event::Signup(request)) => {
            let ghost asked = request@;
            let hashed = hash_password(request.password.as_str());
            let ghost salt = choose|salt: Seq<char>| #[trigger]
                hashed_under(asked.password, salt, hashed);
            let step = match hashed {
                Ok(password_hash) => (
                    Flow::CreatingUser,
                    Action::Users(
                        UserCommand::Create {
                            user: CreateUser { email: request.email, name: request.name },
                            password_hash,
                        },
                    ),
                ),
                Err(_) => (Flow::Done, Action::Reject(AuthError::HashingFailed)),
            };
            assert(signup_hashed(asked, salt, step.0@, step.1@));
            step
        },
        (Flow::CreatingUser, Event::UserCreated(Ok(user))) => open_session(user),
        (Flow::CreatingUser, Event::UserCreated(Err(e))) => {
            let reason = match e {
                UserStoreError::EmailTaken => AuthError::EmailTaken,
                UserStoreError::Unavailable => AuthError::StoreUnavailable,
                UserStoreError::Unknown => AuthError::Unknown,
            };
            (Flow::Done, Action::Reject(reason))
        },
        (Flow::StoringSession { user, token }, Event::SessionStored(outcome)) => record_session(
            201,
            user,
            token,
            outcome,
        ),
        _ => (Flow::Done, Action::Reject(AuthError::Unknown)),
    }
}

/// Takes one step of login.
///
/// A user that is not found and a password that does not match both end
/// the flow with `InvalidCredentials`. A stored hash that cannot be parsed
/// ends it with `MalformedHash`, a user store that cannot be reached with
/// `StoreUnavailable`, any other failure of it with `Unknown`. A session
/// is opened only once the password has been
/// verified; where the session store fails, the flow ends with
/// `StoreUnavailable`.
pub fn login(state: Flow, event: Event) -> (step: (Flow, Action))
    ensures
        login_step(state@, event@, step.0@, step.1@),
{
    match (state, event) {
        (Flow::Start, Event::Login(request)) => (
            Flow::FindingUserByEmail { password: request.password },
            Action::Users(UserCommand::FindByEmail { email: request.email }),
        ),
        (Flow::FindingUserByEmail { password }, Event::UserFound(Ok(Some(user)))) => {
            match verify_password(password.as_str(), user.password_hash.as_str()) {
                Ok(true) => open_session(user),
                Ok(false) => (Flow::Done, Action::Reject(AuthError::InvalidCredentials)),
                Err(e) => (Flow::Done, Action::Reject(e)),
            }
        },
        (Flow::FindingUserByEmail { password }, Event::UserFound(Ok(None))) => (
            Flow::Done,
            Action::Reject(AuthError::InvalidCredentials),
        ),
        (Flow::FindingUserByEmail { password }, Event::UserFound(Err(e))) => (
            Flow::Done,
            Action::Reject(classify_lookup_failure(e)),
        ),
        (Flow::StoringSession { user, token }, Event::SessionStored(outcome)) => record_session(
            200,
            user,
            token,
            outcome,
        ),
        _ => (Flow::Done, Action::Reject(AuthError::Unknown)),
    }
}

/// Takes one step of logout.
///
/// With a session cookie, the first step asks the session store to delete
/// the session. Every other step answers `200` and removes the cookie,
/// whether or not the token named a session and whatever the store said.
pub fn logout(state: Flow, event: Event) -> (step: (Flow, Action))
    ensures
        (step.0@, step.1@) == logout_step(state@, event@),
{
    match (state, event) {
        (Flow::Start, Event::Cookie(Some(token))) => (
            Flow::DeletingSession,
            Action::Sessions(delete_session(token)),
        ),
        _ => (
            Flow::Done,
            Action::Respond(Response { status: 200, body: None, cookie: clear_session_cookie() }),
        ),
    }
}

/// Takes one step of the identity check.
///
/// Without a session cookie the request is rejected as unauthenticated
/// before any store is asked. A token that resolves to no user id, and a
/// user id that the user store does not know, are rejected the same way.
/// A store that cannot be reached ends the flow with `StoreUnavailable`,
/// any other failure of the user store with `Unknown`.
pub fn me(state: Flow, event: Event) -> (step: (Flow, Action))
    ensures
        (step.0@, step.1@) == me_step(state@, event@),
{
    match (state, event) {
        (Flow::Start, Event::Cookie(None)) => (
            Flow::Done,
            Action::Reject(AuthError::Unauthenticated),
        ),
        (Flow::Start, Event::Cookie(Some(token))) => (
            Flow::FindingSession,
            Action::Sessions(SessionCommand::Find { token }),
        ),
        (Flow::FindingSession, Event::SessionFound(found)) => match get_session_user_id(found) {
            Ok(Some(id)) => (Flow::FindingUserById, Action::Users(UserCommand::FindById { id })),
            Ok(None) => (Flow::Done, Action::Reject(AuthError::Unauthenticated)),
            Err(e) => (Flow::Done, Action::Reject(e)),
        },
        (Flow::FindingUserById, Event::UserFound(Ok(Some(user)))) => (
            Flow::Done,
            Action::Respond(
                Response {
                    status: 200,
                    body: Some(AuthResponse { user: user.principal() }),
                    cookie: CookieChange::Keep,
                },
            ),
        ),
        (Flow::FindingUserById, Event::UserFound(Ok(None))) => (
            Flow::Done,
            Action::Reject(AuthError::Unauthenticated),
        ),
        (Flow::FindingUserById, Event::UserFound(Err(e))) => (
            Flow::Done,
            Action::Reject(classify_lookup_failure(e)),
        ),
        _ => (Flow::Done, Action::Reject(AuthError::Unknown)),
    }
}

/// Login does not tell an unknown email from a wrong password: whatever
/// the stored user, a password that does not match its hash is rejected
/// exactly as an email that nobody is registered under.
pub proof fn lemma_login_hides_which_credential_failed(
    password: Seq<char>,
    user: UserView,
    next_wrong: FlowView,
    action_wrong: ActionView,
    next_unknown: FlowView,
    action_unknown: ActionView,
)
    requires
        verification(password, user.password_hash) == Ok::<bool, AuthError>(false),
        login_step(
            FlowView::FindingUserByEmail { password },
            EventView::UserFound(Ok(Some(user))),
            next_wrong,
            action_wrong,
        ),
        login_step(
            FlowView::FindingUserByEmail { password },
            EventView::UserFound(Ok(None)),
            next_unknown,
            action_unknown,
        ),
    ensures
        (next_wrong, action_wrong) == (next_unknown, action_unknown),
        action_wrong == ActionView::Reject(AuthError::InvalidCredentials),
        next_wrong == FlowView::Done,
{
}

/// Signup hashes every password that Argon2 takes: for a password of at
/// most 2^32 - 1 bytes the first step asks the user store to register the
/// user under the email and name given, with a hash that verifies for the
/// password. It rejects with `HashingFailed` only a longer one.
pub proof fn lemma_signup_hashes_every_fitting_password(
    request: SignupRequestView,
    next: FlowView,
    action: ActionView,
)
    requires
        signup_step(FlowView::Start, EventView::Signup(request), next, action),
    ensures
        password_fits(request.password) ==> next == FlowView::CreatingUser,
        next == FlowView::CreatingUser || (next, action) == (
            FlowView::Done,
            ActionView::Reject(AuthError::HashingFailed),
        ),
        next == FlowView::CreatingUser ==> (action matches ActionView::Users(
            UserCommandView::Create { user, password_hash },
        ) && user == (CreateUserView { email: request.email, name: request.name })
            && verification(request.password, password_hash) == Ok::<bool, AuthError>(true)),
{
}

/// Where the user store refuses to register the user, signup ends at
/// once: an email that is taken is reported as `EmailTaken`, and no
/// session is opened.
pub proof fn lemma_failed_registration_opens_no_session(
    state: FlowView,
    e: UserStoreError,
    next: FlowView,
    action: ActionView,
)
    requires
        signup_step(state, EventView::UserCreated(Err(e)), next, action),
    ensures
        next == FlowView::Done,
        action is Reject,
        !action.contacts_session_store(),
        state == FlowView::CreatingUser && e == UserStoreError::EmailTaken ==> action
            == ActionView::Reject(AuthError::EmailTaken),
{
}

/// Login opens a session only for a password that was verified against
/// the hash of the user that the user store found.
pub proof fn lemma_login_opens_session_only_when_verified(
    state: FlowView,
    event: EventView,
    next: FlowView,
    action: ActionView,
)
    requires
        login_step(state, event, next, action),
        action is Sessions,
    ensures
        state matches FlowView::FindingUserByEmail { password } && event matches EventView::UserFound(
            Ok(Some(user)),
        ) && verification(password, user.password_hash) == Ok::<bool, AuthError>(true)
            && opens_session(user, next, action),
{
}

/// Signup opens a session only for a user that the user store registered.
pub proof fn lemma_signup_opens_session_only_when_registered(
    state: FlowView,
    event: EventView,
    next: FlowView,
    action: ActionView,
)
    requires
        signup_step(state, event, next, action),
        action is Sessions,
    ensures
        state == FlowView::CreatingUser,
        event matches EventView::UserCreated(Ok(user)) && opens_session(user, next, action),
{
}

/// Signup and login answer the client only once the session store has
/// recorded the session, and then with the cookie of that session's token
/// and the user the session was opened for. Every other way out of these
/// flows is a rejection, which sets no cookie.
pub proof fn lemma_cookie_issued_only_for_recorded_session(
    state: FlowView,
    event: EventView,
    next: FlowView,
    action: ActionView,
)
    requires
        signup_step(state, event, next, action) || login_step(state, event, next, action),
        action is Respond,
    ensures
        event matches EventView::SessionStored(outcome) && outcome is Ok,
        state matches FlowView::StoringSession { user, token } && action matches ActionView::Respond(
            response,
        ) && response.body == Some(AuthResponseView { user }) && response.cookie
            == CookieChangeView::Issue(session_cookie_for(token)),
{
}

/// Every flow of this module comes to an end: a step either ends the
/// flow and leaves it in `Done`, or asks one store and leaves the flow with
/// fewer requests to go. No flow asks the stores more than three times.
pub proof fn lemma_flows_come_to_an_end(
    state: FlowView,
    event: EventView,
    next: FlowView,
    action: ActionView,
)
    requires
        signup_step(state, event, next, action) || login_step(state, event, next, action) || (
            next,
            action,
        ) == logout_step(state, event) || (next, action) == me_step(state, event),
    ensures
        action.is_final() <==> next == FlowView::Done,
        !action.is_final() ==> next.requests_left() < state.requests_left(),
        state.requests_left() <= 3,
{
}

} // verus!
