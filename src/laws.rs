//! Laws that relate the operations of the service to each other.
use vstd::prelude::*;
use crate::codegen::{origin_step, OriginStep};
use crate::create::create_status;
use crate::decimal::{decimal, lemma_parse_decimal};
use crate::record::{
    field_position, field_position_from, field_value, record_fields, status_field, target_field,
};
use crate::resolve::{redirect_kind_of, resolution, validation, RedirectKind, Status, StoreError};

verus! {

/// The record that a create writes resolves to the redirect its status code
/// stands for, with the create's target as the location.
pub proof fn lemma_create_then_resolve(target: Seq<char>, status: usize)
    ensures
        resolution(record_fields(target, status as nat)) == Some(
            (redirect_kind_of(status as nat), target),
        ),
{
    let fields = record_fields(target, status as nat);
    assert(target_field()[0] != status_field()[0]);
    assert(fields[0] != status_field());
    assert(fields[2] == status_field());
    assert(field_position_from(fields, status_field(), 2) == Some(2int));
    assert(field_position(fields, status_field()) == Some(2int));
    assert(field_position(fields, target_field()) == Some(0int));
    assert(field_value(fields, target_field()) == Some(target));
    assert(field_value(fields, status_field()) == Some(decimal(status as nat)));
    lemma_parse_decimal(status as nat);
}

/// A record written with status 301 resolves to a permanent redirect to its
/// target; one written with a code outside the redirect table resolves to
/// 303, see other.
pub proof fn lemma_status_table(target: Seq<char>, status: usize)
    ensures
        status == 301 ==> resolution(record_fields(target, status as nat)) == Some(
            (RedirectKind::Moved, target),
        ),
        status != 301 && status != 302 && status != 303 && status != 307 && status != 308
            ==> resolution(record_fields(target, status as nat)) == Some(
            (RedirectKind::SeeOther, target),
        ),
{
    lemma_create_then_resolve(target, status);
}

/// An origin for which the store holds no fields (never bound, or purged once
/// its expiry passed) resolves to nothing.
pub proof fn lemma_unbound_not_found()
    ensures
        resolution(Seq::<Seq<char>>::empty()) is None,
{
}

/// Validation answers `Success` for an origin the store holds nothing for,
/// and `Conflict`, every time it is asked, once a create has written its
/// record there.
pub proof fn lemma_validate_before_and_after_create(
    unbound: Vec<String>,
    bound: Vec<String>,
    target: Seq<char>,
    status: usize,
)
    requires
        unbound@.len() == 0,
        bound.deep_view() == record_fields(target, status as nat),
    ensures
        validation(Ok(unbound)) == Status::Success,
        validation(Ok(bound)) == Status::Conflict,
{
    assert(bound.deep_view().len() == bound@.len());
}

/// A search for a free origin never accepts a candidate that the store
/// reports as bound, and one collision followed by a free candidate costs
/// exactly one retry.
pub proof fn lemma_unique_origin_search(
    attempts: nat,
    fetched: Result<Vec<String>, StoreError>,
    taken: Vec<String>,
    free: Vec<String>,
)
    requires
        taken@.len() > 0,
        free@.len() == 0,
    ensures
        origin_step(attempts, fetched) == OriginStep::Accept ==> (fetched matches Ok(f) && f@.len()
            == 0),
        origin_step(1, Ok(taken)) == OriginStep::Retry,
        origin_step(2, Ok(free)) == OriginStep::Accept,
{
}

/// When the record is written but setting its expiry fails, the create fails
/// as a whole, while the record it wrote still resolves.
pub proof fn lemma_partial_write(target: Seq<char>, status: usize, expire_at: i64, e: StoreError)
    ensures
        create_status(Ok(()), Some(expire_at), Err(e)) == Status::InternalServerError,
        resolution(record_fields(target, status as nat)) == Some(
            (redirect_kind_of(status as nat), target),
        ),
{
    lemma_create_then_resolve(target, status);
}

} // verus!
