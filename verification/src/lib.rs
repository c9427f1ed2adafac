//! Credential and session authentication in front of a user-management API.
//!
//! A user proves who they are with a password, gets a session that can be
//! revoked, and presents the session's token in a cookie with every later
//! request.
//!
//! - [`password`] derives and checks salted password hashes.
//! - [`ident`] writes and reads user ids, and draws session tokens.
//! - [`session`] says what a session is in the expiring key-value store.
//! - [`cookie`] describes the cookie that carries the token.
//! - [`flow`] is the vocabulary of the request flows: states, events and
//!   actions. The library decides; its caller talks to the stores.
//! - [`auth`] holds the flows of signup, login, logout and the identity
//!   check, [`middleware`] those that guard a route.
//! - [`handlers`] and [`routes`] answer the user routes and the health
//!   check.
//! - [`models`] and [`error`] hold the records and the error taxonomy.

pub mod auth;
pub mod cookie;
pub mod error;
pub mod flow;
pub mod handlers;
pub mod ident;
pub mod middleware;
pub mod models;
pub mod password;
pub mod routes;
pub mod session;
