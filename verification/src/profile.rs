//! The profile a user holds inside the organization, which decides what
//! that user may do — in this core, whether they may issue user invitations.

use crate::foreign::{str_to_uppercase, upper_of};
use vstd::prelude::*;
use vstd::string::*;

verus! {

broadcast use vstd::string::group_string_axioms;

/// Admin can invite and revoke users, on top of what a standard user can
/// do.  Standard users create realms and invite devices for themselves.
/// Outsiders only collaborate on existing realms.
#[derive(Debug, Clone, Copy, PartialEq, Eq, Hash, Structural)]
pub enum UserProfile {
    Admin,
    Standard,
    Outsider,
}

impl UserProfile {
    /// Parses an exact uppercase profile name.
    pub fn new(value: &str) -> (r: Result<UserProfile, &'static str>)
        ensures
            match r {
                Ok(p) => (p is Admin <==> value@ == "ADMIN"@) && (p is Standard <==> value@
                    == "STANDARD"@) && (p is Outsider <==> value@ == "OUTSIDER"@),
                Err(_) => value@ != "ADMIN"@ && value@ != "STANDARD"@ && value@ != "OUTSIDER"@,
            },
    {
        proof {
            reveal_strlit("ADMIN");
            reveal_strlit("STANDARD");
            reveal_strlit("OUTSIDER");
            assert("ADMIN"@.len() == 5);
            assert("STANDARD"@.len() == 8);
            assert("OUTSIDER"@.len() == 8);
            assert("STANDARD"@[0] == 'S' && "OUTSIDER"@[0] == 'O');
        }
        let v = String::from_str(value);
        if v == String::from_str("ADMIN") {
            Ok(UserProfile::Admin)
        } else if v == String::from_str("STANDARD") {
            Ok(UserProfile::Standard)
        } else if v == String::from_str("OUTSIDER") {
            Ok(UserProfile::Outsider)
        } else {
            Err("Invalid UserProfile")
        }
    }

    /// Parses a profile name, ignoring case.
    pub fn parse(s: &str) -> (r: Result<UserProfile, &'static str>)
        ensures
            match r {
                Ok(p) => (p is Admin <==> upper_of(s@) == "ADMIN"@) && (p is Standard <==> upper_of(
                    s@,
                ) == "STANDARD"@) && (p is Outsider <==> upper_of(s@) == "OUTSIDER"@),
                Err(_) => upper_of(s@) != "ADMIN"@ && upper_of(s@) != "STANDARD"@ && upper_of(s@)
                    != "OUTSIDER"@,
            },
    {
        proof {
            reveal_strlit("ADMIN");
            reveal_strlit("STANDARD");
            reveal_strlit("OUTSIDER");
            assert("ADMIN"@.len() == 5);
            assert("STANDARD"@.len() == 8);
            assert("OUTSIDER"@.len() == 8);
            assert("STANDARD"@[0] == 'S' && "OUTSIDER"@[0] == 'O');
        }
        let u = str_to_uppercase(s);
        if u == String::from_str("ADMIN") {
            Ok(UserProfile::Admin)
        } else if u == String::from_str("STANDARD") {
            Ok(UserProfile::Standard)
        } else if u == String::from_str("OUTSIDER") {
            Ok(UserProfile::Outsider)
        } else {
            Err("Invalid UserProfile")
        }
    }

    /// Canonical uppercase rendering.
    pub fn to_string(&self) -> (r: String)
        ensures
            self is Admin ==> r@ == "ADMIN"@,
            self is Standard ==> r@ == "STANDARD"@,
            self is Outsider ==> r@ == "OUTSIDER"@,
    {
        match self {
            UserProfile::Admin => String::from_str("ADMIN"),
            UserProfile::Standard => String::from_str("STANDARD"),
            UserProfile::Outsider => String::from_str("OUTSIDER"),
        }
    }

    /// Canonical uppercase name.
    pub fn value(&self) -> (r: &'static str)
        ensures
            self is Admin ==> r@ == "ADMIN"@,
            self is Standard ==> r@ == "STANDARD"@,
            self is Outsider ==> r@ == "OUTSIDER"@,
    {
        match self {
            UserProfile::Admin => "ADMIN",
            UserProfile::Standard => "STANDARD",
            UserProfile::Outsider => "OUTSIDER",
        }
    }

    /// Every profile, in declaration order.
    pub fn iter() -> (r: [UserProfile; 3])
        ensures
            r@ == seq![UserProfile::Admin, UserProfile::Standard, UserProfile::Outsider],
    {
        let r = [UserProfile::Admin, UserProfile::Standard, UserProfile::Outsider];
        proof {
            assert(r@ =~= seq![UserProfile::Admin, UserProfile::Standard, UserProfile::Outsider]);
        }
        r
    }
}

impl core::str::FromStr for UserProfile {
    type Err = &'static str;

    fn from_str(s: &str) -> Result<Self, Self::Err> {
        UserProfile::parse(s)
    }
}

} // verus!
