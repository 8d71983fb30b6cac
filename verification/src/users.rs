//! User records and their builder.

use vstd::prelude::*;

verus! {

/// An account record.
pub struct User {
    /// Display name.
    pub username: String,
    /// Contact address.
    pub email: String,
    /// How often the user signed in.
    pub sign_in_count: u64,
    /// Whether the account is enabled.
    pub active: bool,
}

/// Build an active, once-signed-in user from its email and username.
pub fn build_user(email: String, username: String) -> (r: User)
    ensures
        r.email == email,
        r.username == username,
        r.active == true,
        r.sign_in_count == 1u64,
{
    User { email, username, active: true, sign_in_count: 1 }
}

} // verus!
