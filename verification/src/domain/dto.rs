//! What a sign-up request carries and what a stored subscription holds.

use uuid::Uuid;
use vstd::prelude::*;

verus! {

/// `uuid::Uuid`, an identifier of 128 bits. It is carried as it comes:
/// nothing is claimed of what it holds.
#[verifier::external_type_specification]
#[verifier::external_body]
pub struct ExUuid(Uuid);

/// A sign-up as submitted: nothing in it has been checked.
#[derive(Debug, PartialEq, Eq)]
pub struct UserRequest {
    pub name: String,
    pub email: String,
}

/// A subscription as it is stored and returned.
#[derive(Debug, PartialEq, Eq)]
pub struct UserResponse {
    /// The identifier drawn for this subscription.
    pub id: Uuid,
    /// The name, as it was submitted.
    pub name: String,
    /// The email address, as it was submitted.
    pub email: String,
    /// When the subscription was made: microseconds since the start of
    /// 1970, UTC.
    pub subscribed_at: i64,
}

} // verus!
