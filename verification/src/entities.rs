//! The account that owns links, as the authentication collaborator reports
//! it.

use vstd::prelude::*;

verus! {

/// An account.
#[derive(Debug, Clone)]
pub struct User {
    pub id: i64,
    pub email: String,
}

/// An authenticated session and the account behind it.
#[derive(Clone)]
pub struct UserSession {
    pub session_id: String,
    pub user: User,
}

} // verus!
