//! The roles that a user can hold, and their names.

use vstd::prelude::*;
use vstd::string::StringExecFns;
use crate::types::ascii_lowercase;

verus! {

/// A role of a user, in the system or in an organization.
#[derive(Clone, Copy, PartialEq, Eq, Debug, Hash, Structural)]
pub enum Roles {
    Admin,
    DoorPerson,
    OrgMember,
    OrgOwner,
    OrgAdmin,
    OrgBoxOffice,
    Promoter,
    PromoterReadOnly,
    User,
}

/// A text that names no value of an enumeration.
#[derive(Debug, PartialEq, Eq)]
pub struct EnumParseError {
    pub message: String,
    pub enum_type: String,
    pub value: String,
}

/// Whether two texts are the same but for the case of their ASCII letters.
pub open spec fn same_ignoring_case(a: Seq<char>, b: Seq<char>) -> bool {
    ascii_lowercase(a) == ascii_lowercase(b)
}

/// `str::eq_ignore_ascii_case` of std: whether the two texts are equal once
/// the letters `A` to `Z` of both are replaced by `a` to `z`.
#[verifier::external_body]
fn eq_ignore_ascii_case(a: &str, b: &str) -> (same: bool)
    ensures
        same == same_ignoring_case(a@, b@),
{
    a.eq_ignore_ascii_case(b)
}

impl Roles {
    /// The name of the role.
    pub open spec fn spec_name(self) -> Seq<char> {
        match self {
            Roles::Admin => "Admin"@,
            Roles::DoorPerson => "DoorPerson"@,
            Roles::OrgMember => "OrgMember"@,
            Roles::OrgOwner => "OrgOwner"@,
            Roles::OrgAdmin => "OrgAdmin"@,
            Roles::OrgBoxOffice => "OrgBoxOffice"@,
            Roles::Promoter => "Promoter"@,
            Roles::PromoterReadOnly => "PromoterReadOnly"@,
            Roles::User => "User"@,
        }
    }

    /// The role with the number `n` in the order in which names are tried.
    pub open spec fn nth(n: int) -> Roles {
        if n == 0 {
            Roles::Admin
        } else if n == 1 {
            Roles::DoorPerson
        } else if n == 2 {
            Roles::OrgMember
        } else if n == 3 {
            Roles::OrgOwner
        } else if n == 4 {
            Roles::OrgAdmin
        } else if n == 5 {
            Roles::OrgBoxOffice
        } else if n == 6 {
            Roles::Promoter
        } else if n == 7 {
            Roles::PromoterReadOnly
        } else {
            Roles::User
        }
    }

    /// The first role from the `n`th on whose name is `text` but for the
    /// case of letters.
    pub open spec fn named_from(text: Seq<char>, n: int) -> Option<Roles>
        decreases 9 - n,
    {
        if n < 0 || n >= 9 {
            None
        } else if same_ignoring_case(text, Roles::nth(n).spec_name()) {
            Some(Roles::nth(n))
        } else {
            Roles::named_from(text, n + 1)
        }
    }

    /// The role that `text` names, whatever the case of its letters.
    pub open spec fn spec_parse(text: Seq<char>) -> Option<Roles> {
        Roles::named_from(text, 0)
    }

    fn name(&self) -> (name: &'static str)
        ensures
            name@ == self.spec_name(),
    {
        match self {
            Roles::Admin => "Admin",
            Roles::DoorPerson => "DoorPerson",
            Roles::OrgMember => "OrgMember",
            Roles::OrgOwner => "OrgOwner",
            Roles::OrgAdmin => "OrgAdmin",
            Roles::OrgBoxOffice => "OrgBoxOffice",
            Roles::Promoter => "Promoter",
            Roles::PromoterReadOnly => "PromoterReadOnly",
            Roles::User => "User",
        }
    }

    fn at(n: usize) -> (role: Roles)
        ensures
            role == Roles::nth(n as int),
    {
        if n == 0 {
            Roles::Admin
        } else if n == 1 {
            Roles::DoorPerson
        } else if n == 2 {
            Roles::OrgMember
        } else if n == 3 {
            Roles::OrgOwner
        } else if n == 4 {
            Roles::OrgAdmin
        } else if n == 5 {
            Roles::OrgBoxOffice
        } else if n == 6 {
            Roles::Promoter
        } else if n == 7 {
            Roles::PromoterReadOnly
        } else {
            Roles::User
        }
    }

    /// The name of the role.
    pub fn to_string(&self) -> (name: String)
        ensures
            name@ == self.spec_name(),
    {
        String::from_str(self.name())
    }

    /// The role that `text` names, whatever the case of its letters; an
    /// error that quotes the text where it names none.
    pub fn parse(text: &str) -> (res: Result<Roles, EnumParseError>)
        ensures
            match Roles::spec_parse(text@) {
                Some(role) => res == Ok::<Roles, EnumParseError>(role),
                None => res is Err && res->Err_0.value@ == text@ && res->Err_0.enum_type@
                    == "Roles"@ && res->Err_0.message@ == "Could not parse value"@,
            },
    {
        let mut n: usize = 0;
        while n < 9
            invariant
                n <= 9,
                Roles::named_from(text@, n as int) == Roles::spec_parse(text@),
            decreases 9 - n,
        {
            let role = Roles::at(n);
            if eq_ignore_ascii_case(text, role.name()) {
                return Ok(role);
            }
            n += 1;
        }
        Err(
            EnumParseError {
                message: String::from_str("Could not parse value"),
                enum_type: String::from_str("Roles"),
                value: String::from_str(text),
            },
        )
    }

    /// The roles that are limited to single events of an organization.
    pub fn get_event_limited_roles() -> (roles: Vec<Roles>)
        ensures
            roles@ == seq![Roles::Promoter, Roles::PromoterReadOnly],
    {
        let mut roles: Vec<Roles> = Vec::new();
        roles.push(Roles::Promoter);
        roles.push(Roles::PromoterReadOnly);
        assert(roles@ =~= seq![Roles::Promoter, Roles::PromoterReadOnly]);
        roles
    }
}

impl std::str::FromStr for Roles {
    type Err = EnumParseError;

    /// The role that `text` names, whatever the case of its letters; an
    /// error that quotes the text where it names none.
    fn from_str(text: &str) -> (res: Result<Roles, EnumParseError>)
        ensures
            match Roles::spec_parse(text@) {
                Some(role) => res == Ok::<Roles, EnumParseError>(role),
                None => res is Err && res->Err_0.value@ == text@ && res->Err_0.enum_type@
                    == "Roles"@ && res->Err_0.message@ == "Could not parse value"@,
            },
    {
        Roles::parse(text)
    }
}

} // verus!
