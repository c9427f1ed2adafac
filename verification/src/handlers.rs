//! What the user-management routes answer.

pub mod user;
