//! Binding an origin to a target: reading the requested expiry, then the
//! store writes in order (the record's fields, then its expiry) with the
//! answer that each store reply leads to.
use vstd::prelude::*;
use chrono::TimeZone;
use crate::record::{record_field_list, record_fields};
use crate::resolve::{Status, StoreError};

verus! {

/// The form of an expiry date in a create request, e.g.
/// `2030-01-31T12:00:00.000Z`.
pub const EXPIRE_DATE_FORMAT: &'static str = "%Y-%m-%dT%H:%M:%S%.3fZ";

/// The Unix time, in seconds, of the UTC instant that chrono reads from
/// `text` with the format `fmt`; `None` when the text does not match.
pub uninterp spec fn utc_timestamp_of(text: Seq<char>, fmt: Seq<char>) -> Option<int>;

/// Relies on chrono's `TimeZone::datetime_from_str` on `Utc` to read `text`
/// with the format `fmt`, and on `DateTime::timestamp` for the instant's
/// Unix time in seconds. The outcome depends on the two strings alone.
#[verifier::external_body]
#[allow(deprecated)]
fn utc_timestamp(text: &str, fmt: &str) -> (r: Option<i64>)
    ensures
        r matches Some(t) ==> utc_timestamp_of(text@, fmt@) == Some(t as int),
        r is None ==> utc_timestamp_of(text@, fmt@) is None,
{
    match chrono::Utc.datetime_from_str(text, fmt) {
        Ok(date) => Some(date.timestamp()),
        Err(_) => None,
    }
}

/// A create request that cannot be carried out as given.
#[derive(Debug, Clone, Copy, PartialEq, Eq, Structural)]
pub enum InputError {
    /// The expiry date does not have the form `YYYY-MM-DDTHH:MM:SS.sssZ`.
    InvalidExpireDate,
}

/// Reads the optional expiry date of a create request into a Unix time:
/// no date gives no expiry, a date that does not have the expected form is
/// an error.
pub fn parse_expire_date(raw: Option<&str>) -> (r: Result<Option<i64>, InputError>)
    ensures
        raw is None ==> r == Ok::<Option<i64>, InputError>(None),
        raw matches Some(text) ==> match utc_timestamp_of(text@, EXPIRE_DATE_FORMAT@) {
            Some(t) => (r matches Ok(Some(v)) && v as int == t),
            None => r == Err::<Option<i64>, InputError>(InputError::InvalidExpireDate),
        },
{
    match raw {
        None => Ok(None),
        Some(text) => match utc_timestamp(text, EXPIRE_DATE_FORMAT) {
            Some(t) => Ok(Some(t)),
            None => Err(InputError::InvalidExpireDate),
        },
    }
}

/// A request to bind `origin` to `target`, redirecting with `status_code`,
/// and to let the binding lapse at the Unix time `expire_date` if one is given.
#[derive(Debug)]
pub struct CreateShrinkRequest {
    pub origin: String,
    pub target: String,
    pub status_code: usize,
    pub expire_date: Option<i64>,
}

/// The next thing a create asks of the store, or its answer.
#[derive(Debug)]
pub enum CreateStep {
    /// Set all of `fields` on the hash at `key` in one command.
    Write { key: String, fields: Vec<String> },
    /// Make `key` expire at the Unix time `timestamp`.
    ExpireAt { key: String, timestamp: i64 },
    /// Nothing more to do: answer with this status.
    Done(Status),
}

/// The answer to a create, given the reply to the write of the record, the
/// requested expiry, and the reply to setting that expiry (read only when an
/// expiry was requested). A failed expiry fails the create even though the
/// record was written.
pub open spec fn create_status(
    written: Result<(), StoreError>,
    expire_date: Option<i64>,
    expired: Result<(), StoreError>,
) -> Status {
    if written is Err {
        Status::InternalServerError
    } else if expire_date is None {
        Status::Created
    } else if expired is Err {
        Status::InternalServerError
    } else {
        Status::Created
    }
}

/// The first step of a create: write the record, the target and the status
/// code, under the origin. Nothing about the origin is checked: a bound
/// origin is overwritten.
pub fn create(request: &CreateShrinkRequest) -> (r: CreateStep)
    ensures
        r matches CreateStep::Write { key, fields } && key@ == request.origin@ && fields.deep_view()
            == record_fields(request.target@, request.status_code as nat),
{
    CreateStep::Write {
        key: request.origin.clone(),
        fields: record_field_list(request.target.as_str(), request.status_code),
    }
}

/// The step after the record was written (or not): fail when the write
/// failed, else set the expiry if one was requested, else answer `Created`.
pub fn create_after_write(request: &CreateShrinkRequest, written: &Result<(), StoreError>) -> (r:
    CreateStep)
    ensures
        written is Err ==> (r matches CreateStep::Done(s) && s == Status::InternalServerError),
        written is Ok ==> match request.expire_date {
            None => (r matches CreateStep::Done(s) && s == Status::Created),
            Some(t) => (r matches CreateStep::ExpireAt { key, timestamp } && key@
                == request.origin@ && timestamp == t),
        },
        r matches CreateStep::Done(s) ==> s == create_status(
            *written,
            request.expire_date,
            Ok(()),
        ),
{
    if written.is_err() {
        return CreateStep::Done(Status::InternalServerError);
    }
    match request.expire_date {
        None => CreateStep::Done(Status::Created),
        Some(t) => CreateStep::ExpireAt { key: request.origin.clone(), timestamp: t },
    }
}

/// The answer after the expiry was set (or not), the record having been
/// written: `Created`, or `InternalServerError` when the expiry failed.
pub fn create_after_expire(expired: &Result<(), StoreError>) -> (r: Status)
    ensures
        r == (if expired is Ok {
            Status::Created
        } else {
            Status::InternalServerError
        }),
        forall|t: i64| r == #[trigger] create_status(Ok(()), Some(t), *expired),
{
    match expired {
        Ok(()) => Status::Created,
        Err(_) => Status::InternalServerError,
    }
}

} // verus!
