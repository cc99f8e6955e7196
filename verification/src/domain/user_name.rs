//! Display names of subscribers.

use crate::domain::error::UserError;
use crate::text::{trimmed, trims_to_nothing};
use unicode_segmentation::UnicodeSegmentation;
use vstd::prelude::*;

verus! {

/// The most grapheme clusters a name may have.
pub const MAX_GRAPHEMES: usize = 256;

/// The number of extended grapheme clusters that `s` divides into.
pub uninterp spec fn grapheme_count(s: Seq<char>) -> nat;

/// Whether `c` may not occur in a name.
pub open spec fn is_forbidden(c: char) -> bool {
    c == '/' || c == '(' || c == ')' || c == '"' || c == '<' || c == '>' || c == '\\' || c == '{'
        || c == '}'
}

/// Whether some character of `s` is forbidden.
pub open spec fn has_forbidden(s: Seq<char>) -> bool {
    exists|i: int| 0 <= i < s.len() && is_forbidden(#[trigger] s[i])
}

/// Whether `s` is acceptable as a name.
pub open spec fn is_valid_name(s: Seq<char>) -> bool {
    &&& trimmed(s).len() > 0
    &&& grapheme_count(s) <= MAX_GRAPHEMES
    &&& !has_forbidden(s)
}

/// Calls `UnicodeSegmentation::graphemes` with extended clusters and counts
/// what it yields. Trusted: the count depends on the text alone, and as
/// every cluster holds at least one character it is no larger than the
/// number of characters.
#[verifier::external_body]
fn count_graphemes(s: &str) -> (n: usize)
    ensures
        n == grapheme_count(s@),
        n <= s@.len(),
{
    s.graphemes(true).count()
}

/// Tests one character against the forbidden set.
fn forbidden(c: char) -> (b: bool)
    ensures
        b == is_forbidden(c),
{
    c == '/' || c == '(' || c == ')' || c == '"' || c == '<' || c == '>' || c == '\\' || c == '{'
        || c == '}'
}

/// Looks for a forbidden character in `s`.
fn contains_forbidden(s: &str) -> (b: bool)
    ensures
        b == has_forbidden(s@),
{
    let mut found = false;
    for c in it: s.chars()
        invariant
            it.seq() == s@,
            found == exists|i: int| 0 <= i < it.index() && is_forbidden(#[trigger] s@[i]),
    {
        if forbidden(c) {
            found = true;
        }
    }
    found
}

/// A name that passed validation.
#[derive(Debug, PartialEq, Eq)]
pub struct UserName(String);

impl View for UserName {
    type V = Seq<char>;

    closed spec fn view(&self) -> Seq<char> {
        self.0@
    }
}

impl UserName {
    #[verifier::type_invariant]
    spec fn well_formed(self) -> bool {
        is_valid_name(self.0@)
    }

    /// Accepts `s` as a name, unchanged, unless it is blank, has more than
    /// 256 grapheme clusters or holds a forbidden character; a refusal
    /// carries `s` back. A text of at most 256 characters cannot have
    /// more clusters than that.
    pub fn parse(s: String) -> (res: Result<UserName, UserError>)
        ensures
            trimmed(s@).len() == 0 ==> res == Err::<UserName, UserError>(
                UserError::ParseUserNameError(s),
            ),
            grapheme_count(s@) > MAX_GRAPHEMES ==> res == Err::<UserName, UserError>(
                UserError::ParseUserNameError(s),
            ),
            has_forbidden(s@) ==> res == Err::<UserName, UserError>(
                UserError::ParseUserNameError(s),
            ),
            is_valid_name(s@) ==> res is Ok && res->Ok_0@ == s@,
            s@.len() <= MAX_GRAPHEMES && trimmed(s@).len() > 0 && !has_forbidden(s@) ==> res is Ok,
    {
        let is_empty = trims_to_nothing(s.as_str());
        let is_too_long = count_graphemes(s.as_str()) > MAX_GRAPHEMES;
        let contains_forbidden_chars = contains_forbidden(s.as_str());
        if is_empty || is_too_long || contains_forbidden_chars {
            Err(UserError::ParseUserNameError(s))
        } else {
            Ok(UserName(s))
        }
    }

    /// The name as it was submitted.
    pub fn as_ref(&self) -> (name: &String)
        ensures
            name@ == self@,
            is_valid_name(name@),
    {
        proof {
            use_type_invariant(self);
        }
        &self.0
    }

    /// The name as it was submitted, in a string of its own.
    pub fn to_string(&self) -> (name: String)
        ensures
            name@ == self@,
            is_valid_name(name@),
    {
        proof {
            use_type_invariant(self);
        }
        self.0.clone()
    }
}

/// A name of exactly 256 grapheme clusters is accepted, unchanged, where it
/// is not blank and holds no forbidden character.
pub proof fn lemma_name_at_limit_is_accepted(s: String, res: Result<UserName, UserError>)
    requires
        call_ensures(UserName::parse, (s,), res),
        grapheme_count(s@) == MAX_GRAPHEMES,
        trimmed(s@).len() > 0,
        !has_forbidden(s@),
    ensures
        res is Ok,
        res->Ok_0@ == s@,
{
}

/// Parsing a name answers by the text alone: two calls on the same text
/// both accept it, as the same name, or both refuse it, with the same
/// refusal.
pub proof fn lemma_name_parse_is_repeatable(
    a: String,
    b: String,
    first: Result<UserName, UserError>,
    second: Result<UserName, UserError>,
)
    requires
        a@ == b@,
        call_ensures(UserName::parse, (a,), first),
        call_ensures(UserName::parse, (b,), second),
    ensures
        first is Ok <==> second is Ok,
        first is Ok ==> first->Ok_0@ == second->Ok_0@,
        first is Err ==> first->Err_0 is ParseUserNameError && second->Err_0 is ParseUserNameError
            && first->Err_0.refused() == second->Err_0.refused(),
{
}

} // verus!
