//! Session data for a signed-in user and its team, as the web layer
//! carries them.  The serialized twins with their derives live with the
//! web code; the core holds the bare values.

use vstd::prelude::*;

verus! {

/// A signed-in user.
#[allow(non_snake_case)]
#[derive(Debug, Clone)]
pub struct UserData {
    /// The user's email address.
    pub email: String,
    /// The user's display name.
    pub displayName: String,
}

/// A team and its members.
#[derive(Debug, Clone)]
pub struct TeamData {
    /// The team's name.
    pub name: String,
    /// The team's members.
    pub members: Vec<UserData>,
}

} // verus!
