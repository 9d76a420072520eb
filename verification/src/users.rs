//! Users: the account record behind a credential.

use vstd::prelude::*;

use crate::store::Record;

verus! {

/// Mathematical view of a user.
pub struct UserView {
    pub first_name: Seq<char>,
    pub last_name: Seq<char>,
    pub email: Seq<char>,
    pub hashed_password: Seq<char>,
}

/// User information. The password is stored pre-hashed; this library never
/// sees a plaintext password.
#[derive(Debug, Clone, PartialEq, Eq)]
pub struct User {
    /// Name of the user.
    pub first_name: String,
    /// Last name of the user.
    pub last_name: String,
    /// Email of the user.
    pub email: String,
    /// Pre-hashed password of the user.
    pub hashed_password: String,
}

impl View for User {
    type V = UserView;

    open spec fn view(&self) -> UserView {
        UserView {
            first_name: self.first_name@,
            last_name: self.last_name@,
            email: self.email@,
            hashed_password: self.hashed_password@,
        }
    }
}

impl Record for User {
    fn duplicate(&self) -> (r: Self) {
        User {
            first_name: self.first_name.clone(),
            last_name: self.last_name.clone(),
            email: self.email.clone(),
            hashed_password: self.hashed_password.clone(),
        }
    }
}

} // verus!
