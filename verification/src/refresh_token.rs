//! The claims of a refresh token: for whom it was issued, by whom, and when.

use vstd::prelude::*;
use crate::identifiers::{hyphenated, id_from_str, id_to_string, uuid_from_text};
use crate::types::Id;

verus! {

/// The claims of a refresh token.
#[derive(Debug, PartialEq, Eq)]
pub struct RefreshToken {
    /// The user, as the text of the identifier.
    pub sub: String,
    /// Who issued the token.
    pub iss: String,
    /// When the token was issued, in seconds since the Unix epoch.
    pub issued: u64,
}

impl RefreshToken {
    /// The claims of a token that `issuer` issues for `user_id` at `issued`.
    pub fn new(user_id: Id, issuer: String, issued: u64) -> (token: RefreshToken)
        ensures
            token.sub@ == hyphenated(user_id),
            token.iss == issuer,
            token.issued == issued,
    {
        RefreshToken { iss: issuer, sub: id_to_string(user_id), issued }
    }

    /// The user for whom the token was issued; `None` where the subject is
    /// no identifier.
    pub fn get_id(&self) -> (id: Option<Id>)
        ensures
            id == uuid_from_text(self.sub@),
            forall|user_id: Id| self.sub@ == hyphenated(user_id) ==> id == Some(user_id),
    {
        id_from_str(self.sub.as_str())
    }
}

} // verus!
