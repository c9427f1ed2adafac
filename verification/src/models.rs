//! The records that the user store keeps.

pub mod user;
