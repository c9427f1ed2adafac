//! Users as the user store holds them, and as clients may see them.
//!
//! A [`User`] is the stored record, credential included. A [`Principal`]
//! is the same user without the credential; it is the only form that
//! responses carry.

use vstd::prelude::*;

verus! {

/// A stored user record.
#[derive(Debug, Clone, PartialEq, Eq)]
pub struct User {
    /// The user's id, a 128-bit UUID value.
    pub id: u128,
    pub email: String,
    pub name: String,
    /// The PHC string of the user's password.
    pub password_hash: String,
    /// Microseconds since the Unix epoch.
    pub created_at: i64,
    /// Microseconds since the Unix epoch.
    pub updated_at: i64,
}

/// The mathematical value of a [`User`].
pub struct UserView {
    pub id: u128,
    pub email: Seq<char>,
    pub name: Seq<char>,
    pub password_hash: Seq<char>,
    pub created_at: i64,
    pub updated_at: i64,
}

impl View for User {
    type V = UserView;

    open spec fn view(&self) -> UserView {
        UserView {
            id: self.id,
            email: self.email@,
            name: self.name@,
            password_hash: self.password_hash@,
            created_at: self.created_at,
            updated_at: self.updated_at,
        }
    }
}

/// A user as shown to clients: the stored record without its credential.
#[derive(Debug, Clone, PartialEq, Eq)]
pub struct Principal {
    pub id: u128,
    pub email: String,
    pub name: String,
    /// Microseconds since the Unix epoch.
    pub created_at: i64,
    /// Microseconds since the Unix epoch.
    pub updated_at: i64,
}

/// The mathematical value of a [`Principal`].
pub struct PrincipalView {
    pub id: u128,
    pub email: Seq<char>,
    pub name: Seq<char>,
    pub created_at: i64,
    pub updated_at: i64,
}

impl View for Principal {
    type V = PrincipalView;

    open spec fn view(&self) -> PrincipalView {
        PrincipalView {
            id: self.id,
            email: self.email@,
            name: self.name@,
            created_at: self.created_at,
            updated_at: self.updated_at,
        }
    }
}

impl UserView {
    /// The record without its credential.
    pub open spec fn principal(self) -> PrincipalView {
        PrincipalView {
            id: self.id,
            email: self.email,
            name: self.name,
            created_at: self.created_at,
            updated_at: self.updated_at,
        }
    }
}

impl User {
    /// The user as clients may see it: every field but the password hash.
    pub fn principal(&self) -> (shown: Principal)
        ensures
            shown@ == self@.principal(),
    {
        Principal {
            id: self.id,
            email: self.email.clone(),
            name: self.name.clone(),
            created_at: self.created_at,
            updated_at: self.updated_at,
        }
    }
}

/// What is needed to register a user, besides the credential.
#[derive(Debug, Clone, PartialEq, Eq)]
pub struct CreateUser {
    pub email: String,
    pub name: String,
}

/// The mathematical value of a [`CreateUser`].
pub struct CreateUserView {
    pub email: Seq<char>,
    pub name: Seq<char>,
}

impl View for CreateUser {
    type V = CreateUserView;

    open spec fn view(&self) -> CreateUserView {
        CreateUserView { email: self.email@, name: self.name@ }
    }
}

/// Why the user store did not do what was asked.
#[derive(Clone, Copy, Debug, PartialEq, Eq, Structural)]
pub enum UserStoreError {
    /// A user with this email exists already.
    EmailTaken,
    /// The store could not be reached, or did not answer in time.
    Unavailable,
    /// Anything else.
    Unknown,
}

/// What can be asked of the user store.
#[derive(Debug, Clone, PartialEq, Eq)]
pub enum UserCommand {
    /// Register a user with this credential. The store refuses an email
    /// that is registered already.
    Create { user: CreateUser, password_hash: String },
    /// Find the user registered under this email.
    FindByEmail { email: String },
    /// Find the user with this id.
    FindById { id: u128 },
}

/// The mathematical value of a [`UserCommand`].
pub enum UserCommandView {
    Create { user: CreateUserView, password_hash: Seq<char> },
    FindByEmail { email: Seq<char> },
    FindById { id: u128 },
}

impl View for UserCommand {
    type V = UserCommandView;

    open spec fn view(&self) -> UserCommandView {
        match self {
            UserCommand::Create { user, password_hash } => UserCommandView::Create {
                user: user@,
                password_hash: password_hash@,
            },
            UserCommand::FindByEmail { email } => UserCommandView::FindByEmail { email: email@ },
            UserCommand::FindById { id } => UserCommandView::FindById { id: *id },
        }
    }
}

} // verus!
