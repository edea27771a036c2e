//! Deciding what a request about an origin answers, from what the store
//! returned for it.
use vstd::prelude::*;
use crate::record::{record_of, RedisRedirect};

verus! {

/// The HTTP statuses that the service answers with, other than redirects.
#[derive(Debug, Clone, Copy, PartialEq, Eq, Structural)]
pub enum Status {
    Success,
    Created,
    NotFound,
    Conflict,
    InternalServerError,
}

impl Status {
    /// The numeric HTTP status code.
    pub fn code(&self) -> (r: u16)
        ensures
            r == status_code(*self),
    {
        match self {
            Status::Success => 200,
            Status::Created => 201,
            Status::NotFound => 404,
            Status::Conflict => 409,
            Status::InternalServerError => 500,
        }
    }
}

/// The numeric HTTP status code of a status.
pub open spec fn status_code(s: Status) -> u16 {
    match s {
        Status::Success => 200,
        Status::Created => 201,
        Status::NotFound => 404,
        Status::Conflict => 409,
        Status::InternalServerError => 500,
    }
}

/// Why the store could not answer.
#[derive(Debug, Clone, Copy, PartialEq, Eq, Structural)]
pub enum StoreError {
    /// No connection to the store could be made.
    ConnectionFailed,
    /// The store did not carry out the command.
    CommandFailed,
}

/// The kinds of redirect an origin can resolve to.
#[derive(Debug, Clone, Copy, PartialEq, Eq, Structural)]
pub enum RedirectKind {
    /// 301: permanent, the method may change.
    Moved,
    /// 302: found, temporary.
    Found,
    /// 303: see other, the client follows with GET.
    SeeOther,
    /// 307: temporary, the method is kept.
    Temporary,
    /// 308: permanent, the method is kept.
    Permanent,
}

impl RedirectKind {
    /// The numeric HTTP status code of the redirect.
    pub fn code(&self) -> (r: u16)
        ensures
            r == redirect_code(*self),
    {
        match self {
            RedirectKind::Moved => 301,
            RedirectKind::Found => 302,
            RedirectKind::SeeOther => 303,
            RedirectKind::Temporary => 307,
            RedirectKind::Permanent => 308,
        }
    }
}

/// The numeric HTTP status code of a redirect kind.
pub open spec fn redirect_code(k: RedirectKind) -> u16 {
    match k {
        RedirectKind::Moved => 301,
        RedirectKind::Found => 302,
        RedirectKind::SeeOther => 303,
        RedirectKind::Temporary => 307,
        RedirectKind::Permanent => 308,
    }
}

/// The redirect that a stored status code stands for; a code outside
/// 301, 302, 303, 307 and 308 stands for 303.
pub open spec fn redirect_kind_of(status: nat) -> RedirectKind {
    if status == 301 {
        RedirectKind::Moved
    } else if status == 302 {
        RedirectKind::Found
    } else if status == 307 {
        RedirectKind::Temporary
    } else if status == 308 {
        RedirectKind::Permanent
    } else {
        RedirectKind::SeeOther
    }
}

/// What resolving an origin decides: the kind of redirect and its location.
#[derive(Debug)]
pub struct RedirectDecision {
    pub kind: RedirectKind,
    pub target: String,
}

/// The redirect that a fetched field list resolves to, if it holds a usable
/// record.
pub open spec fn resolution(fields: Seq<Seq<char>>) -> Option<(RedirectKind, Seq<char>)> {
    match record_of(fields) {
        Some((target, status)) => Some((redirect_kind_of(status), target)),
        None => None,
    }
}

/// The redirect for a stored status code.
pub fn redirect_kind(status: usize) -> (r: RedirectKind)
    ensures
        r == redirect_kind_of(status as nat),
{
    match status {
        301 => RedirectKind::Moved,
        302 => RedirectKind::Found,
        303 => RedirectKind::SeeOther,
        307 => RedirectKind::Temporary,
        308 => RedirectKind::Permanent,
        _ => RedirectKind::SeeOther,
    }
}

/// Resolves an origin from what the store returned for it: the redirect its
/// record asks for, `NotFound` when there is no usable record, and
/// `InternalServerError` when the store could not be read.
pub fn redirect(fetched: &Result<Vec<String>, StoreError>) -> (r: Result<RedirectDecision, Status>)
    ensures
        fetched is Err ==> (r matches Err(s) && s == Status::InternalServerError),
        fetched matches Ok(v) ==> match resolution(v.deep_view()) {
            Some((kind, target)) => (r matches Ok(d) && d.kind == kind && d.target@ == target),
            None => (r matches Err(s) && s == Status::NotFound),
        },
{
    match fetched {
        Err(_) => Err(Status::InternalServerError),
        Ok(fields) => match RedisRedirect::from_vec(fields) {
            Some(record) => Ok(RedirectDecision { kind: redirect_kind(record.status), target: record.target }),
            None => Err(Status::NotFound),
        },
    }
}

/// Whether a fetched field list shows the origin as bound: any field at all.
pub fn check_if_path_exists(fields: &Vec<String>) -> (r: bool)
    ensures
        r == (fields@.len() != 0),
{
    fields.len() != 0
}

/// Answers whether a custom origin is free: `Success` when the store holds nothing
/// for it, `Conflict` when it is bound, `InternalServerError` when the store
/// could not be read.
pub fn validate_origin(fetched: &Result<Vec<String>, StoreError>) -> (r: Status)
    ensures
        r == validation(*fetched),
{
    match fetched {
        Err(_) => Status::InternalServerError,
        Ok(fields) => if check_if_path_exists(fields) {
            Status::Conflict
        } else {
            Status::Success
        },
    }
}

/// What validating an origin answers for a store reply.
pub open spec fn validation(fetched: Result<Vec<String>, StoreError>) -> Status {
    match fetched {
        Err(_) => Status::InternalServerError,
        Ok(fields) => if fields@.len() != 0 {
            Status::Conflict
        } else {
            Status::Success
        },
    }
}

} // verus!
