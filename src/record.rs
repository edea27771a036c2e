//! The redirect record bound to an origin, as the store holds it: a flat list
//! of alternating field names and values, with a `target` field (the URL to
//! redirect to) and a `status` field (the redirect's status code, in decimal).
use vstd::prelude::*;
use crate::decimal::{decimal, format_decimal, parse_decimal, parse_usize};

verus! {

/// The name of the field that holds a record's target URL.
pub open spec fn target_field() -> Seq<char> {
    seq!['t', 'a', 'r', 'g', 'e', 't']
}

/// The name of the field that holds a record's status code.
pub open spec fn status_field() -> Seq<char> {
    seq!['s', 't', 'a', 't', 'u', 's']
}

/// The first field-name slot at or after `i` (slots `i`, `i + 2`, ...) that
/// holds `name`.
pub open spec fn field_position_from(fields: Seq<Seq<char>>, name: Seq<char>, i: int) -> Option<
    int,
>
    decreases fields.len() + 1 - i,
{
    if i < 0 || i >= fields.len() {
        None
    } else if fields[i] == name {
        Some(i)
    } else {
        field_position_from(fields, name, i + 2)
    }
}

/// The position of the first field name equal to `name` in a flat list of
/// alternating names and values.
pub open spec fn field_position(fields: Seq<Seq<char>>, name: Seq<char>) -> Option<int> {
    field_position_from(fields, name, 0)
}

/// The value of the field `name`: the entry that follows its first name slot.
pub open spec fn field_value(fields: Seq<Seq<char>>, name: Seq<char>) -> Option<Seq<char>> {
    match field_position(fields, name) {
        Some(i) => if i + 1 < fields.len() {
            Some(fields[i + 1])
        } else {
            None
        },
        None => None,
    }
}

/// The record that a fetched field list holds: its target and its status,
/// when both fields are there and the status reads as a `usize`.
pub open spec fn record_of(fields: Seq<Seq<char>>) -> Option<(Seq<char>, nat)> {
    match (field_value(fields, target_field()), field_value(fields, status_field())) {
        (Some(t), Some(s)) => match parse_usize(s) {
            Some(n) => Some((t, n)),
            None => None,
        },
        _ => None,
    }
}

/// The field list that binding `target` with `status` writes.
pub open spec fn record_fields(target: Seq<char>, status: nat) -> Seq<Seq<char>> {
    seq![target_field(), target, status_field(), decimal(status)]
}

/// A slot found from the name slot `i` is a name slot at or after `i`, within
/// the list, that holds `name`.
proof fn lemma_field_position_from(fields: Seq<Seq<char>>, name: Seq<char>, i: int)
    requires
        0 <= i,
        i % 2 == 0,
    ensures
        field_position_from(fields, name, i) matches Some(p) ==> {
            &&& i <= p < fields.len()
            &&& p % 2 == 0
            &&& fields[p] == name
        },
    decreases fields.len() + 1 - i,
{
    if i < fields.len() && fields[i] != name {
        lemma_field_position_from(fields, name, i + 2);
    }
}

/// Finds the first field name in `vec` equal to `element`.
///
/// Only name slots (even positions) are searched, so a field value that
/// happens to read like a field name is never taken for one.
pub fn get_position(vec: &Vec<String>, element: &str) -> (r: Option<usize>)
    ensures
        r matches Some(p) ==> field_position(vec.deep_view(), element@) == Some(p as int),
        r is None ==> field_position(vec.deep_view(), element@) is None,
{
    let ghost fields = vec.deep_view();
    let name = String::from_str(element);
    let mut i: usize = 0;
    while i < vec.len()
        invariant
            fields == vec.deep_view(),
            name@ == element@,
            i % 2 == 0,
            field_position(fields, element@) == field_position_from(fields, element@, i as int),
        decreases vec.len() - i,
    {
        if vec[i] == name {
            return Some(i);
        }
        if vec.len() - i < 2 {
            assert(field_position_from(fields, element@, i as int + 2) is None);
            return None;
        }
        i = i + 2;
    }
    None
}

/// A redirect record read from the store.
#[derive(Debug)]
pub struct RedisRedirect {
    pub target: String,
    pub status: usize,
}

impl RedisRedirect {
    /// Reads a record from the field list that the store returned for an
    /// origin: `None` when the target or the status is missing, or the
    /// status does not read as a number.
    pub fn from_vec(vec: &Vec<String>) -> (r: Option<Self>)
        ensures
            r matches Some(rec) ==> record_of(vec.deep_view()) == Some(
                (rec.target@, rec.status as nat),
            ),
            r is None ==> record_of(vec.deep_view()) is None,
    {
        proof {
            reveal_strlit("target");
            reveal_strlit("status");
            assert("target"@ =~= target_field());
            assert("status"@ =~= status_field());
            lemma_field_position_from(vec.deep_view(), target_field(), 0);
            lemma_field_position_from(vec.deep_view(), status_field(), 0);
        }
        let target_index = match get_position(vec, "target") {
            Some(i) => i,
            None => return None,
        };
        let status_index = match get_position(vec, "status") {
            Some(i) => i,
            None => return None,
        };
        if target_index + 1 >= vec.len() || status_index + 1 >= vec.len() {
            return None;
        }
        let target = &vec[target_index + 1];
        let status = &vec[status_index + 1];
        let status = match parse_decimal(status.as_str()) {
            Some(n) => n,
            None => return None,
        };
        Some(RedisRedirect { target: target.clone(), status })
    }
}

/// The field list that binds `target` with the status code `status_code`:
/// `target`, the URL, `status`, and the code in decimal.
pub fn record_field_list(target: &str, status_code: usize) -> (r: Vec<String>)
    ensures
        r.deep_view() == record_fields(target@, status_code as nat),
{
    proof {
        reveal_strlit("target");
        reveal_strlit("status");
        assert("target"@ =~= target_field());
        assert("status"@ =~= status_field());
    }
    let r = vec![
        String::from_str("target"),
        String::from_str(target),
        String::from_str("status"),
        format_decimal(status_code),
    ];
    assert(r.deep_view() =~= record_fields(target@, status_code as nat));
    r
}

} // verus!
