//! Admission of a sign-up: what is refused, what is written, and what the
//! caller is told.

use crate::domain::error::UserError;
use crate::domain::user_email::is_valid_email;
use crate::domain::user_name::is_valid_name;
use crate::domain::{UserEmail, UserName, UserRequest, UserResponse};
use chrono::Utc;
use uuid::Uuid;
use vstd::prelude::*;

verus! {

/// The status of a reply to an accepted and stored sign-up.
pub const STATUS_OK: u16 = 200;

/// The status of a reply to a sign-up that the caller has to correct.
pub const STATUS_BAD_REQUEST: u16 = 400;

/// The status of a reply to a sign-up that could not be stored.
pub const STATUS_INTERNAL_SERVER_ERROR: u16 = 500;

/// Why a sign-up did not become a subscription.
#[derive(Debug, PartialEq, Eq)]
pub enum SubscriptionError {
    /// The name or the email address was refused.
    Validation(UserError),
    /// The request could not be decoded; the text is the decoder's complaint.
    Malformed(String),
    /// The store did not take the record; the text is its cause, for the log.
    Storage(String),
}

/// What a reply carries besides its status.
#[derive(Debug, PartialEq, Eq)]
pub enum Body {
    /// The stored subscription.
    Record(UserResponse),
    /// A sentence for the caller.
    Text(String),
}

/// The answer to a sign-up.
#[derive(Debug, PartialEq, Eq)]
pub struct Reply {
    pub status: u16,
    pub body: Body,
}

/// What the caller of a sign-up that could not be stored is told.
pub open spec fn storage_failure_text() -> Seq<char> {
    "Failed to create a user"@
}

/// The status that answers `outcome`.
pub open spec fn status_of(outcome: Result<UserResponse, SubscriptionError>) -> u16 {
    match outcome {
        Ok(_) => STATUS_OK,
        Err(SubscriptionError::Validation(_)) => STATUS_BAD_REQUEST,
        Err(SubscriptionError::Malformed(_)) => STATUS_BAD_REQUEST,
        Err(SubscriptionError::Storage(_)) => STATUS_INTERNAL_SERVER_ERROR,
    }
}

/// Calls `Uuid::new_v4`. Nothing is claimed of the identifier it draws.
#[verifier::external_body]
fn new_id() -> Uuid {
    Uuid::new_v4()
}

/// Calls `Utc::now` and hands the instant on as `DateTime::timestamp_micros`
/// counts it. Nothing is claimed of the time it reads. `Utc::now` panics
/// where the system clock stands before 1970.
#[verifier::external_body]
fn now_micros() -> i64 {
    Utc::now().timestamp_micros()
}

/// Checks the name, then the email address, and stops at the first refusal.
pub fn validate(request: UserRequest) -> (res: Result<(UserName, UserEmail), UserError>)
    ensures
        !is_valid_name(request.name@) ==> res == Err::<(UserName, UserEmail), UserError>(
            UserError::ParseUserNameError(request.name),
        ),
        is_valid_name(request.name@) && !is_valid_email(request.email@) ==> res == Err::<
            (UserName, UserEmail),
            UserError,
        >(UserError::ParseUserEmailError(request.email)),
        is_valid_name(request.name@) && is_valid_email(request.email@) ==> res is Ok
            && res->Ok_0.0@ == request.name@ && res->Ok_0.1@ == request.email@,
{
    let name = match UserName::parse(request.name) {
        Ok(name) => name,
        Err(e) => {
            return Err(e);
        },
    };
    let email = match UserEmail::parse(request.email) {
        Ok(email) => email,
        Err(e) => {
            return Err(e);
        },
    };
    Ok((name, email))
}

/// The record of a subscription made by `name` and `email` under `id` at
/// `subscribed_at`.
pub fn new_subscription(
    name: UserName,
    email: UserEmail,
    id: Uuid,
    subscribed_at: i64,
) -> (record: UserResponse)
    ensures
        record.id == id,
        record.name@ == name@,
        record.email@ == email@,
        record.subscribed_at == subscribed_at,
        is_valid_name(record.name@),
        is_valid_email(record.email@),
{
    UserResponse {
        id,
        name: name.to_string(),
        email: email.to_string(),
        subscribed_at,
    }
}

/// Decides whether `request` is accepted. A refusal names the first value
/// that failed and leaves nothing to write; an accepted sign-up gets a new
/// identifier and the current time, and is handed back as the record to
/// write.
pub fn accept(request: UserRequest) -> (res: Result<UserResponse, SubscriptionError>)
    ensures
        !is_valid_name(request.name@) ==> res == Err::<UserResponse, SubscriptionError>(
            SubscriptionError::Validation(UserError::ParseUserNameError(request.name)),
        ),
        is_valid_name(request.name@) && !is_valid_email(request.email@) ==> res == Err::<
            UserResponse,
            SubscriptionError,
        >(SubscriptionError::Validation(UserError::ParseUserEmailError(request.email))),
        is_valid_name(request.name@) && is_valid_email(request.email@) ==> res is Ok
            && res->Ok_0.name@ == request.name@ && res->Ok_0.email@ == request.email@,
{
    match validate(request) {
        Ok((name, email)) => Ok(new_subscription(name, email, new_id(), now_micros())),
        Err(e) => Err(SubscriptionError::Validation(e)),
    }
}

/// Closes an accepted sign-up once the store has answered: the record as
/// it was written, or the store's failure with its cause.
pub fn settle(record: UserResponse, written: Result<(), String>) -> (res: Result<
    UserResponse,
    SubscriptionError,
>)
    ensures
        written is Ok ==> res == Ok::<UserResponse, SubscriptionError>(record),
        written is Err ==> res == Err::<UserResponse, SubscriptionError>(
            SubscriptionError::Storage(written->Err_0),
        ),
{
    match written {
        Ok(_) => Ok(record),
        Err(cause) => Err(SubscriptionError::Storage(cause)),
    }
}

/// The status that answers `outcome`: 200 for a stored subscription, 400
/// for a request to correct, 500 for a failure of the store.
pub fn status_code(outcome: &Result<UserResponse, SubscriptionError>) -> (status: u16)
    ensures
        status == status_of(*outcome),
{
    match outcome {
        Ok(_) => STATUS_OK,
        Err(SubscriptionError::Validation(_)) => STATUS_BAD_REQUEST,
        Err(SubscriptionError::Malformed(_)) => STATUS_BAD_REQUEST,
        Err(SubscriptionError::Storage(_)) => STATUS_INTERNAL_SERVER_ERROR,
    }
}

/// The reply to `outcome`. A stored subscription is returned whole; a
/// refusal is described; a failure of the store is answered with a fixed
/// sentence that tells nothing of its cause.
pub fn respond(outcome: Result<UserResponse, SubscriptionError>) -> (reply: Reply)
    ensures
        reply.status == status_of(outcome),
        outcome matches Ok(record) ==> reply.body == Body::Record(record),
        outcome matches Err(SubscriptionError::Validation(e)) ==> (reply.body matches Body::Text(t)
            && t@ == e.message()),
        outcome matches Err(SubscriptionError::Malformed(m)) ==> reply.body == Body::Text(m),
        outcome matches Err(SubscriptionError::Storage(_)) ==> (reply.body matches Body::Text(t)
            && t@ == storage_failure_text()),
{
    let status = status_code(&outcome);
    let body = match outcome {
        Ok(record) => Body::Record(record),
        Err(SubscriptionError::Validation(e)) => Body::Text(e.to_string()),
        Err(SubscriptionError::Malformed(m)) => Body::Text(m),
        Err(SubscriptionError::Storage(_)) => Body::Text("Failed to create a user".to_string()),
    };
    Reply { status, body }
}

/// The status that a sign-up is answered with, by what was submitted and
/// by what the store said.
pub open spec fn status_for(request: UserRequest, written: Result<(), String>) -> u16 {
    if !is_valid_name(request.name@) || !is_valid_email(request.email@) {
        STATUS_BAD_REQUEST
    } else if written is Ok {
        STATUS_OK
    } else {
        STATUS_INTERNAL_SERVER_ERROR
    }
}

/// A sign-up that is accepted, written and answered gets 200 only where
/// the name and the email address are valid and the store took the record,
/// and the reply then carries both as they were submitted; a value that
/// fails validation gets 400 whatever the store would say, and a failure of
/// the store gets 500.
pub proof fn lemma_reply_follows_outcome(
    request: UserRequest,
    accepted: Result<UserResponse, SubscriptionError>,
    written: Result<(), String>,
    outcome: Result<UserResponse, SubscriptionError>,
    reply: Reply,
)
    requires
        call_ensures(accept, (request,), accepted),
        match accepted {
            Ok(record) => call_ensures(settle, (record, written), outcome),
            Err(_) => outcome == accepted,
        },
        call_ensures(respond, (outcome,), reply),
    ensures
        reply.status == status_for(request, written),
        reply.status == STATUS_OK ==> (reply.body matches Body::Record(record) && record.name@
            == request.name@ && record.email@ == request.email@),
        reply.status != STATUS_OK ==> reply.body is Text,
{
}

} // verus!
