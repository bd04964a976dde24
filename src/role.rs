//! The closed set of permission levels an account can hold.
use vstd::prelude::*;

verus! {

#[derive(Clone, Copy, Debug, PartialEq, Eq, Structural)]
pub enum Role {
    User,
    Uploader,
    Admin,
}

/// The role that a text names exactly, if any.
pub open spec fn role_of(s: Seq<char>) -> Option<Role> {
    if s == "user"@ {
        Some(Role::User)
    } else if s == "uploader"@ {
        Some(Role::Uploader)
    } else if s == "admin"@ {
        Some(Role::Admin)
    } else {
        None
    }
}

/// The name under which a role is stored and typed.
pub open spec fn role_name(r: Role) -> Seq<char> {
    match r {
        Role::User => "user"@,
        Role::Uploader => "uploader"@,
        Role::Admin => "admin"@,
    }
}

impl Role {
    /// Every role, in the order offered to the operator.
    pub fn values() -> (r: Vec<Role>)
        ensures
            r@ == seq![Role::User, Role::Uploader, Role::Admin],
    {
        vec![Role::User, Role::Uploader, Role::Admin]
    }

    /// Parses a role name; any text outside the set is refused.
    pub fn parse(s: &str) -> (r: Option<Role>)
        ensures
            r == role_of(s@),
    {
        if crate::text::text_is(s, "user") {
            Some(Role::User)
        } else if crate::text::text_is(s, "uploader") {
            Some(Role::Uploader)
        } else if crate::text::text_is(s, "admin") {
            Some(Role::Admin)
        } else {
            None
        }
    }

    /// The role's name.
    pub fn to_string(&self) -> (r: String)
        ensures
            r@ == role_name(*self),
    {
        match self {
            Role::User => "user".to_owned(),
            Role::Uploader => "uploader".to_owned(),
            Role::Admin => "admin".to_owned(),
        }
    }
}

/// A role's name parses back to that role.
pub proof fn lemma_role_name_round_trip(r: Role)
    ensures
        role_of(role_name(r)) == Some(r),
{
    reveal_strlit("user");
    reveal_strlit("uploader");
    reveal_strlit("admin");
    match r {
        Role::User => {},
        Role::Uploader => {
            assert("uploader"@ != "user"@) by {
                assert("uploader"@.len() != "user"@.len());
            }
        },
        Role::Admin => {
            assert("admin"@ != "user"@) by {
                assert("admin"@[0] != "user"@[0]);
            }
            assert("admin"@ != "uploader"@) by {
                assert("admin"@.len() != "uploader"@.len());
            }
        },
    }
}

} // verus!
