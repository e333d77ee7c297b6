use vstd::prelude::*;
use crate::domain::{NewSubscriber, SubscriberEmail, SubscriberName, name_valid,
    name_rejection_message};
use crate::domain::subscriber_email::{email_valid, email_rejection_message};

verus! {

/// The response status for an accepted subscription.
pub const STATUS_OK: u16 = 200;

/// The response status for a submission that fails validation.
pub const STATUS_BAD_REQUEST: u16 = 400;

/// The response status for a storage failure.
pub const STATUS_INTERNAL_SERVER_ERROR: u16 = 500;

/// The raw form fields of a subscription request, URL-decoded by the
/// transport layer before they reach the handler.
pub struct FormData {
    pub email: String,
    pub name: String,
}

/// Converts form data into `NewSubscriber`.
///
/// Converts data from the wire format (the URL-decoded data obtained from a
/// web form) to the domain model. The email is checked before the name, so
/// when both are invalid the email's rejection is the one reported.
pub fn parse_subscriber(form: FormData) -> (r: Result<NewSubscriber, String>)
    ensures
        r is Ok <==> email_valid(form.email@) && name_valid(form.name@),
        r matches Ok(ns) ==> ns.email@ == form.email@ && ns.name@ == form.name@,
        r matches Err(m) ==> m@ == (if !email_valid(form.email@) {
            email_rejection_message(form.email@)
        } else {
            name_rejection_message(form.name@)
        }),
{
    let email = match SubscriberEmail::parse(form.email) {
        Ok(e) => e,
        Err(m) => {
            return Err(m);
        },
    };
    let name = match SubscriberName::parse(form.name) {
        Ok(n) => n,
        Err(m) => {
            return Err(m);
        },
    };
    Ok(NewSubscriber { email, name })
}

/// A submission is valid when both fields are present and both parse.
pub open spec fn submission_valid(email: Option<String>, name: Option<String>) -> bool {
    match email {
        Some(e) => match name {
            Some(n) => email_valid(e@) && name_valid(n@),
            None => false,
        },
        None => false,
    }
}

/// What the ingestion handler decides to do with a submission: reject it
/// with a client-error response, or persist the validated subscriber.
pub enum SubscribeStep {
    Reject { status: u16 },
    Persist { subscriber: NewSubscriber },
}

/// The validation step of the `POST /subscriptions` handler.
///
/// A submission with a missing field, or whose fields fail domain
/// validation, is rejected with status 400 before any storage or dispatch is
/// attempted; otherwise the validated subscriber is handed on to be
/// persisted, its email and name unchanged.
pub fn subscribe(email: Option<String>, name: Option<String>) -> (step: SubscribeStep)
    ensures
        step matches SubscribeStep::Reject { status } ==> status == STATUS_BAD_REQUEST
            && !submission_valid(email, name),
        step matches SubscribeStep::Persist { subscriber } ==> submission_valid(email, name)
            && subscriber.email@ == email->Some_0@ && subscriber.name@ == name->Some_0@,
{
    let e = match email {
        Some(e) => e,
        None => {
            return SubscribeStep::Reject { status: STATUS_BAD_REQUEST };
        },
    };
    let n = match name {
        Some(n) => n,
        None => {
            return SubscribeStep::Reject { status: STATUS_BAD_REQUEST };
        },
    };
    match parse_subscriber(FormData { email: e, name: n }) {
        Ok(subscriber) => SubscribeStep::Persist { subscriber },
        Err(_) => SubscribeStep::Reject { status: STATUS_BAD_REQUEST },
    }
}

/// The persistence step's outcome, translated into a response status: 200
/// when the subscriber was saved, 500 when storage failed. The storage
/// error itself is logged, never leaked to the caller.
pub fn persistence_response(saved: bool) -> (status: u16)
    ensures
        status == (if saved {
            STATUS_OK
        } else {
            STATUS_INTERNAL_SERVER_ERROR
        }),
{
    if saved {
        STATUS_OK
    } else {
        STATUS_INTERNAL_SERVER_ERROR
    }
}

/// The completion step: dispatch is fire-and-forget, so the response owed
/// after persistence does not change with the dispatch outcome.
pub fn completed_response(status: u16, dispatch_succeeded: bool) -> (r: u16)
    ensures
        r == status,
{
    let _ = dispatch_succeeded;
    status
}

/// A subscription row as persisted: a generated identifier, the validated
/// email and name strings, and the UTC timestamp of acceptance in
/// microseconds since the Unix epoch.
pub struct SubscriptionRecord {
    pub id: u128,
    pub email: String,
    pub name: String,
    pub subscribed_at_micros: i64,
}

/// Relies on uuid's `Uuid::new_v4`, read back with `as_u128`: a fresh
/// random version-4 identifier. The value is random, so nothing is assumed
/// about it.
#[verifier::external_body]
fn fresh_subscription_id() -> u128 {
    uuid::Uuid::new_v4().as_u128()
}

/// Relies on chrono's `Utc::now`, read back with `timestamp_micros`: the
/// current UTC time. The value depends on the clock, so nothing is assumed
/// about it. `Utc::now` panics when the system clock is before the Unix
/// epoch.
#[verifier::external_body]
fn current_timestamp_micros() -> i64 {
    chrono::Utc::now().timestamp_micros()
}

/// Assembles the row that the repository persists for an accepted
/// subscriber: a fresh identifier and the timestamp of the call, beside the
/// subscriber's email and name carried over unchanged.
pub fn build_subscription_record(subscriber: &NewSubscriber) -> (r: SubscriptionRecord)
    ensures
        r.email@ == subscriber.email@,
        r.name@ == subscriber.name@,
{
    SubscriptionRecord {
        id: fresh_subscription_id(),
        email: subscriber.email.as_ref().to_owned(),
        name: subscriber.name.as_ref().to_owned(),
        subscribed_at_micros: current_timestamp_micros(),
    }
}

} // verus!
