//! The answers of the user routes, given what the user store returned.
//!
//! Users are shown as [`Principal`]s, so no answer carries a credential.
//! A failure of the user store is answered with `500`, whatever it was.

use vstd::prelude::*;
use crate::models::user::Principal;
use crate::models::user::PrincipalView;
use crate::models::user::User;
use crate::models::user::UserStoreError;
use crate::models::user::UserView;

verus! {

/// The users in `users`, each without its credential, in the same order.
pub open spec fn principals_of(users: Seq<UserView>) -> Seq<PrincipalView> {
    users.map_values(|user: UserView| user.principal())
}

/// The views of the users in `users`.
pub open spec fn user_views(users: Seq<User>) -> Seq<UserView> {
    users.map_values(|user: User| user@)
}

/// The views of the principals in `shown`.
pub open spec fn principal_views(shown: Seq<Principal>) -> Seq<PrincipalView> {
    shown.map_values(|principal: Principal| principal@)
}

/// Answers the listing of all users: the users in the order the store
/// gave them, or `500`.
pub fn list_users(found: Result<Vec<User>, UserStoreError>) -> (answer: Result<Vec<Principal>, u16>)
    ensures
        match found {
            Ok(users) => answer matches Ok(shown) && principal_views(shown@) == principals_of(
                user_views(users@),
            ),
            Err(_) => answer matches Err(status) && status == 500,
        },
{
    match found {
        Ok(users) => {
            let mut shown: Vec<Principal> = Vec::new();
            let mut i: usize = 0;
            while i < users.len()
                invariant
                    i <= users.len(),
                    shown.len() == i,
                    forall|k: int| 0 <= k < i ==> shown[k]@ == (#[trigger] users[k])@.principal(),
                decreases users.len() - i,
            {
                shown.push(users[i].principal());
                i += 1;
            }
            assert(principal_views(shown@) =~= principals_of(user_views(users@)));
            Ok(shown)
        },
        Err(_) => Err(500),
    }
}

/// Answers the lookup of one user: the user, `404` where there is none,
/// or `500`.
pub fn get_user(found: Result<Option<User>, UserStoreError>) -> (answer: Result<Principal, u16>)
    ensures
        match found {
            Ok(Some(user)) => answer matches Ok(shown) && shown@ == user@.principal(),
            Ok(None) => answer matches Err(status) && status == 404,
            Err(_) => answer matches Err(status) && status == 500,
        },
{
    match found {
        Ok(Some(user)) => Ok(user.principal()),
        Ok(None) => Err(404),
        Err(_) => Err(500),
    }
}

/// Answers the creation of a user: `201` with the user, or `500`.
pub fn create_user(created: Result<User, UserStoreError>) -> (answer: Result<(u16, Principal), u16>)
    ensures
        match created {
            Ok(user) => answer matches Ok(shown) && shown.0 == 201 && shown.1@
                == user@.principal(),
            Err(_) => answer matches Err(status) && status == 500,
        },
{
    match created {
        Ok(user) => Ok((201, user.principal())),
        Err(_) => Err(500),
    }
}

} // verus!
