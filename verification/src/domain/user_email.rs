//! Email addresses of subscribers.

use crate::domain::error::UserError;
use validator::ValidateEmail;
use vstd::prelude::*;

verus! {

/// Whether `s` is an email address by the grammar of HTML forms, with a
/// domain name or a bracketed IP address after the `@`.
pub uninterp spec fn is_valid_email(s: Seq<char>) -> bool;

/// Calls `ValidateEmail::validate_email` on a `String`. Trusted: the
/// answer depends on the text alone, and no address is empty, lacks an `@`
/// or starts with one.
#[verifier::external_body]
fn validate_email(s: &String) -> (valid: bool)
    ensures
        valid == is_valid_email(s@),
        valid ==> s@.len() > 0 && s@.contains('@') && s@.first() != '@',
{
    s.validate_email()
}

/// An email address that passed validation.
#[derive(Debug, PartialEq, Eq)]
pub struct UserEmail(String);

impl View for UserEmail {
    type V = Seq<char>;

    closed spec fn view(&self) -> Seq<char> {
        self.0@
    }
}

impl UserEmail {
    #[verifier::type_invariant]
    spec fn well_formed(self) -> bool {
        is_valid_email(self.0@)
    }

    /// Accepts `s` as an email address, unchanged, where it is one; a
    /// refusal carries `s` back. No text that is empty, lacks an `@` or
    /// starts with one is an address.
    pub fn parse(s: String) -> (res: Result<UserEmail, UserError>)
        ensures
            is_valid_email(s@) ==> res is Ok && res->Ok_0@ == s@,
            !is_valid_email(s@) ==> res == Err::<UserEmail, UserError>(
                UserError::ParseUserEmailError(s),
            ),
            s@.len() == 0 || !s@.contains('@') || s@.first() == '@' ==> res == Err::<
                UserEmail,
                UserError,
            >(UserError::ParseUserEmailError(s)),
    {
        if validate_email(&s) {
            Ok(UserEmail(s))
        } else {
            Err(UserError::ParseUserEmailError(s))
        }
    }

    /// The address as it was submitted.
    pub fn as_ref(&self) -> (email: &str)
        ensures
            email@ == self@,
            is_valid_email(email@),
    {
        proof {
            use_type_invariant(self);
        }
        self.0.as_str()
    }

    /// The address as it was submitted, in a string of its own.
    pub fn to_string(&self) -> (email: String)
        ensures
            email@ == self@,
            is_valid_email(email@),
    {
        proof {
            use_type_invariant(self);
        }
        self.0.clone()
    }
}

/// An email address survives parsing unchanged: what `parse` accepts
/// writes out as the text that was parsed.
pub proof fn lemma_email_round_trip(s: String, res: Result<UserEmail, UserError>, written: String)
    requires
        is_valid_email(s@),
        call_ensures(UserEmail::parse, (s,), res),
        res is Ok ==> call_ensures(UserEmail::to_string, (&res->Ok_0,), written),
    ensures
        res is Ok,
        written@ == s@,
{
}

/// Parsing an email address answers by the text alone: two calls on the
/// same text both accept it, as the same address, or both refuse it, with
/// the same refusal.
pub proof fn lemma_email_parse_is_repeatable(
    a: String,
    b: String,
    first: Result<UserEmail, UserError>,
    second: Result<UserEmail, UserError>,
)
    requires
        a@ == b@,
        call_ensures(UserEmail::parse, (a,), first),
        call_ensures(UserEmail::parse, (b,), second),
    ensures
        first is Ok <==> second is Ok,
        first is Ok ==> first->Ok_0@ == second->Ok_0@,
        first is Err ==> first->Err_0 is ParseUserEmailError && second->Err_0 is ParseUserEmailError
            && first->Err_0.refused() == second->Err_0.refused(),
{
}

} // verus!
