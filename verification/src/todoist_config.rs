//! What the token of the service's user is made into.

use vstd::prelude::*;
use vstd::string::StringExecFns;

verus! {

/// A token that cannot stand in a header, such as one that holds a line break.
#[derive(Debug, Clone)]
pub struct InvalidTokenFormatError {
    token: String,
}

impl InvalidTokenFormatError {
    /// The token that was refused.
    pub closed spec fn refused(self) -> Seq<char> {
        self.token@
    }

    /// The error for `token`.
    pub fn new(token: String) -> (error: Self)
        ensures
            error.refused() == token@,
    {
        InvalidTokenFormatError { token }
    }

    /// The token that was refused.
    pub fn token(&self) -> (token: &str)
        ensures
            token@ == self.refused(),
    {
        self.token.as_str()
    }

    /// The text that describes the error.
    pub open spec fn text(self) -> Seq<char> {
        "Invalid token format: '"@ + self.refused() + "'"@
    }

    /// Describes the error.
    pub fn to_string(&self) -> (s: String)
        ensures
            s@ == self.text(),
    {
        let mut s = String::from_str("Invalid token format: '");
        s.append(self.token.as_str());
        s.append("'");
        s
    }
}

/// The value of the authorization header for `token`.
pub fn bearer_value(token: &str) -> (value: String)
    ensures
        value@ == "Bearer "@ + token@,
{
    let mut value = String::from_str("Bearer ");
    value.append(token);
    value
}

} // verus!
