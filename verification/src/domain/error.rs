//! Why a submitted value was refused.

use vstd::prelude::*;
use vstd::string::StringExecFns;

verus! {

/// A value that failed validation, with the text that was submitted.
#[derive(Debug, PartialEq, Eq)]
pub enum UserError {
    /// The name is blank, too long, or holds a forbidden character.
    ParseUserNameError(String),
    /// The text is not an email address.
    ParseUserEmailError(String),
}

impl UserError {
    /// The text that was refused.
    pub open spec fn refused(self) -> Seq<char> {
        match self {
            UserError::ParseUserNameError(s) => s@,
            UserError::ParseUserEmailError(s) => s@,
        }
    }

    /// The sentence that describes the refusal.
    pub open spec fn message(self) -> Seq<char> {
        match self {
            UserError::ParseUserNameError(s) => s@ + " is not a valid user name."@,
            UserError::ParseUserEmailError(s) => s@ + " is not a valid user email."@,
        }
    }

    /// Writes out the sentence that describes the refusal.
    pub fn to_string(&self) -> (text: String)
        ensures
            text@ == self.message(),
    {
        match self {
            UserError::ParseUserNameError(s) => s.clone().concat(" is not a valid user name."),
            UserError::ParseUserEmailError(s) => s.clone().concat(" is not a valid user email."),
        }
    }
}

} // verus!
