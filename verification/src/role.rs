//! The role a user holds.

use vstd::prelude::*;
use crate::text::text_eq;

verus! {

/// The role a user holds on the platform.
#[derive(Clone, Copy, Debug, PartialEq, Eq, Structural, Hash)]
pub enum UserRole {
    Member,
    Sponsor,
    Admin,
}

impl UserRole {
    /// The name of the role as it is written in credentials and messages.
    pub open spec fn label(self) -> Seq<char> {
        match self {
            UserRole::Member => "Member"@,
            UserRole::Sponsor => "Sponsor"@,
            UserRole::Admin => "Admin"@,
        }
    }

    /// The role that `name` names, if any. Names are case-sensitive.
    pub open spec fn from_label(name: Seq<char>) -> Option<UserRole> {
        if name == "Member"@ {
            Some(UserRole::Member)
        } else if name == "Sponsor"@ {
            Some(UserRole::Sponsor)
        } else if name == "Admin"@ {
            Some(UserRole::Admin)
        } else {
            None
        }
    }

    /// The name of the role.
    pub fn as_str(&self) -> (name: &'static str)
        ensures
            name@ == self.label(),
    {
        match self {
            UserRole::Member => "Member",
            UserRole::Sponsor => "Sponsor",
            UserRole::Admin => "Admin",
        }
    }

    /// Reads a role from its name.
    pub fn parse(name: &str) -> (role: Option<UserRole>)
        ensures
            role == UserRole::from_label(name@),
    {
        if text_eq(name, "Member") {
            Some(UserRole::Member)
        } else if text_eq(name, "Sponsor") {
            Some(UserRole::Sponsor)
        } else if text_eq(name, "Admin") {
            Some(UserRole::Admin)
        } else {
            None
        }
    }

    /// Every role is read back from its own name, so no two roles share one.
    pub proof fn law_label_round_trip(role: UserRole)
        ensures
            UserRole::from_label(role.label()) == Some(role),
    {
        reveal_strlit("Member");
        reveal_strlit("Sponsor");
        reveal_strlit("Admin");
        assert("Member"@.len() == 6);
        assert("Sponsor"@.len() == 7);
        assert("Admin"@.len() == 5);
    }
}

} // verus!
