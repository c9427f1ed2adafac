//! The guard in front of protected routes, and its best-effort variant.
//!
//! Both read the session cookie and resolve its value through the session
//! store. The guard lets a request through only with a resolved user; the
//! best-effort variant lets every request through and merely says whose
//! it is, where that can be told.

use vstd::prelude::*;
use crate::auth::logout_step;
use crate::auth::me_step;
use crate::auth::opens_session;
use crate::error::AuthError;
use crate::flow::Action;
use crate::flow::ActionView;
use crate::flow::Event;
use crate::flow::EventView;
use crate::flow::Flow;
use crate::flow::FlowView;
use crate::models::user::UserCommandView;
use crate::models::user::UserView;
use crate::session::SESSION_EXPIRY_SECONDS;
use crate::session::SessionCommand;
use crate::session::SessionCommandView;
use crate::session::SessionStore;
use crate::session::get_session_user_id;
use crate::session::session_user_id;

verus! {

/// The steps of the guard. A request without a session cookie is rejected
/// as unauthenticated before the store is asked. A token that resolves to
/// no user id is rejected as unauthenticated too. Where the store fails
/// the request is rejected with an internal error: the guard fails closed.
pub open spec fn require_auth_step(state: FlowView, event: EventView) -> (FlowView, ActionView) {
    match (state, event) {
        (FlowView::Start, EventView::Cookie(None)) => (
            FlowView::Done,
            ActionView::Reject(AuthError::Unauthenticated),
        ),
        (FlowView::Start, EventView::Cookie(Some(token))) => (
            FlowView::FindingSession,
            ActionView::Sessions(SessionCommandView::Find { token }),
        ),
        (FlowView::FindingSession, EventView::SessionFound(found)) => match session_user_id(found) {
            Ok(Some(id)) => (FlowView::Done, ActionView::Forward { user_id: Some(id) }),
            Ok(None) => (FlowView::Done, ActionView::Reject(AuthError::Unauthenticated)),
            Err(e) => (FlowView::Done, ActionView::Reject(e)),
        },
        _ => (FlowView::Done, ActionView::Reject(AuthError::Unknown)),
    }
}

/// The steps of the best-effort variant. It resolves the token as the guard
/// does, but forwards the request in every case, with the user id where
/// one was resolved and without one otherwise.
pub open spec fn log_request_step(state: FlowView, event: EventView) -> (FlowView, ActionView) {
    match (state, event) {
        (FlowView::Start, EventView::Cookie(Some(token))) => (
            FlowView::FindingSession,
            ActionView::Sessions(SessionCommandView::Find { token }),
        ),
        (FlowView::FindingSession, EventView::SessionFound(found)) => match session_user_id(found) {
            Ok(Some(id)) => (FlowView::Done, ActionView::Forward { user_id: Some(id) }),
            _ => (FlowView::Done, ActionView::Forward { user_id: None }),
        },
        _ => (FlowView::Done, ActionView::Forward { user_id: None }),
    }
}

/// Takes one step of the guard in front of a protected route.
///
/// The request is forwarded, with the user's id attached, only where the
/// session store answered the lookup of the cookie's value with the text of
/// a user id. Every other outcome rejects the request: `Unauthenticated`
/// without a cookie or without a live session, `StoreUnavailable` where
/// the store failed.
pub fn require_auth(state: Flow, event: Event) -> (step: (Flow, Action))
    ensures
        (step.0@, step.1@) == require_auth_step(state@, event@),
{
    match (state, event) {
        (Flow::Start, Event::Cookie(None)) => (
            Flow::Done,
            Action::Reject(AuthError::Unauthenticated),
        ),
        (Flow::Start, Event::Cookie(Some(token))) => (
            Flow::FindingSession,
            Action::Sessions(SessionCommand::Find { token }),
        ),
        (Flow::FindingSession, Event::SessionFound(found)) => match get_session_user_id(found) {
            Ok(Some(id)) => (Flow::Done, Action::Forward { user_id: Some(id) }),
            Ok(None) => (Flow::Done, Action::Reject(AuthError::Unauthenticated)),
            Err(e) => (Flow::Done, Action::Reject(e)),
        },
        _ => (Flow::Done, Action::Reject(AuthError::Unknown)),
    }
}

/// Takes one step of the best-effort identification of a request.
///
/// The request is forwarded whatever happens; it is never rejected. The
/// user's id is attached where the session resolved, and left out where
/// there is no cookie, no session, or no answer from the store.
pub fn log_request(state: Flow, event: Event) -> (step: (Flow, Action))
    ensures
        (step.0@, step.1@) == log_request_step(state@, event@),
{
    match (state, event) {
        (Flow::Start, Event::Cookie(Some(token))) => (
            Flow::FindingSession,
            Action::Sessions(SessionCommand::Find { token }),
        ),
        (Flow::FindingSession, Event::SessionFound(found)) => match get_session_user_id(found) {
            Ok(Some(id)) => (Flow::Done, Action::Forward { user_id: Some(id) }),
            _ => (Flow::Done, Action::Forward { user_id: None }),
        },
        _ => (Flow::Done, Action::Forward { user_id: None }),
    }
}

/// The guard fails closed: it forwards a request only on the session
/// store's answer to the lookup, and only with the user id that the answer
/// resolves to.
pub proof fn lemma_guard_forwards_only_resolved_sessions(state: FlowView, event: EventView)
    requires
        require_auth_step(state, event).1 is Forward,
    ensures
        state == FlowView::FindingSession,
        event matches EventView::SessionFound(found) && session_user_id(found) matches Ok(Some(id))
            && require_auth_step(state, event).1 == (ActionView::Forward { user_id: Some(id) }),
{
}

/// Without a session cookie the guard rejects the request as
/// unauthenticated at once: the flow is over and no store was asked.
pub proof fn lemma_guard_rejects_missing_cookie()
    ensures
        require_auth_step(FlowView::Start, EventView::Cookie(None)) == (
            FlowView::Done,
            ActionView::Reject(AuthError::Unauthenticated),
        ),
        !require_auth_step(FlowView::Start, EventView::Cookie(None)).1.contacts_session_store(),
{
}

/// The best-effort variant never rejects and never answers by itself: each
/// of its steps either asks the session store or forwards the request.
pub proof fn lemma_log_request_never_rejects(state: FlowView, event: EventView)
    ensures
        log_request_step(state, event).1 is Forward || log_request_step(state, event).1
            is Sessions,
        log_request_step(state, event).1 is Sessions ==> state == FlowView::Start,
{
}

/// Where the guard forwards a request, the best-effort variant attaches the
/// same user to it.
pub proof fn lemma_log_request_agrees_with_guard(state: FlowView, event: EventView)
    requires
        require_auth_step(state, event).1 is Forward,
    ensures
        log_request_step(state, event) == require_auth_step(state, event),
{
}

/// A session that signup or login opened identifies its user while it
/// lives: once the write is carried out, looking the token up leads the
/// guard to forward the request with the user's id, and the identity check
/// to ask the user store for that user.
pub proof fn lemma_opened_session_identifies_user(
    store: SessionStore,
    user: UserView,
    next: FlowView,
    action: ActionView,
    now: int,
    later: int,
)
    requires
        opens_session(user, next, action),
        now <= later < now + SESSION_EXPIRY_SECONDS,
    ensures
        action matches ActionView::Sessions(command) && next matches FlowView::StoringSession {
            token,
            ..
        } && ({
            let found = Ok(store.execute(command, now).lookup(token, later));
            &&& require_auth_step(FlowView::FindingSession, EventView::SessionFound(found)) == (
                FlowView::Done,
                ActionView::Forward { user_id: Some(user.id) },
            )
            &&& me_step(FlowView::FindingSession, EventView::SessionFound(found)) == (
                FlowView::FindingUserById,
                ActionView::Users(UserCommandView::FindById { id: user.id }),
            )
        }),
{
}

/// After logout the old cookie opens nothing: once the deletion that
/// logout asks for is carried out, the guard rejects a request that
/// presents the same token as unauthenticated.
pub proof fn lemma_logged_out_session_is_rejected(
    store: SessionStore,
    token: Seq<char>,
    now: int,
    later: int,
)
    ensures
        logout_step(FlowView::Start, EventView::Cookie(Some(token))).1 matches ActionView::Sessions(
            command,
        ) && require_auth_step(
            FlowView::FindingSession,
            EventView::SessionFound(Ok(store.execute(command, now).lookup(token, later))),
        ) == (FlowView::Done, ActionView::Reject(AuthError::Unauthenticated)),
{
}

/// Both variants come to an end after at most one request to the session
/// store: a step either ends the flow and leaves it in `Done`, or it is the
/// first step and asks for the lookup.
pub proof fn lemma_guards_come_to_an_end(
    state: FlowView,
    event: EventView,
    next: FlowView,
    action: ActionView,
)
    requires
        (next, action) == require_auth_step(state, event) || (next, action) == log_request_step(
            state,
            event,
        ),
    ensures
        action.is_final() <==> next == FlowView::Done,
        !action.is_final() ==> state == FlowView::Start && next == FlowView::FindingSession,
        !action.is_final() ==> next.requests_left() < state.requests_left(),
{
}

} // verus!
