//! Minting origins: random codes over `[A-Za-z0-9]`, and the decision after
//! each probe of the store while looking for one that is free.
use vstd::prelude::*;
use rand::Rng;
use crate::resolve::StoreError;

verus! {

/// The number of characters in a generated origin when no length is asked for.
pub const DEFAULT_PATH_LENGTH: usize = 8;

/// How many candidates a search for a free origin probes before it gives up.
pub const MAX_ORIGIN_ATTEMPTS: usize = 100;

/// Whether `c` may stand in a generated origin: an ASCII letter or digit.
pub open spec fn is_code_char(c: char) -> bool {
    ('A' <= c && c <= 'Z') || ('a' <= c && c <= 'z') || ('0' <= c && c <= '9')
}

/// The length that a request for `path_length` characters gets.
pub open spec fn requested_length(path_length: Option<usize>) -> nat {
    match path_length {
        Some(n) => n as nat,
        None => DEFAULT_PATH_LENGTH as nat,
    }
}

/// Relies on rand's `thread_rng` and `Rng::gen_range`: a number drawn from
/// `0..n`. `gen_range` panics on an empty range, hence `n > 0`.
#[verifier::external_body]
fn random_below(n: usize) -> (r: usize)
    requires
        n > 0,
    ensures
        r < n,
{
    rand::thread_rng().gen_range(0..n)
}

/// Draws a code of `path_length` characters (8 when none is given), each
/// picked uniformly from the 62 ASCII letters and digits.
pub fn generate_random_path(path_length: Option<usize>) -> (r: String)
    ensures
        r@.len() == requested_length(path_length),
        forall|i: int| 0 <= i < r@.len() ==> is_code_char(#[trigger] r@[i]),
{
    let charset = "ABCDEFGHIJKLMNOPQRSTUVWXYZabcdefghijklmnopqrstuvwxyz0123456789";
    proof {
        reveal_strlit("ABCDEFGHIJKLMNOPQRSTUVWXYZabcdefghijklmnopqrstuvwxyz0123456789");
    }
    assert(charset@.len() == 62);
    assert(forall|k: int| 0 <= k < 62 ==> is_code_char(#[trigger] charset@[k]));
    let n = match path_length {
        Some(n) => n,
        None => DEFAULT_PATH_LENGTH,
    };
    let mut path = String::new();
    let mut i: usize = 0;
    while i < n
        invariant
            i <= n,
            n == requested_length(path_length),
            charset@.len() == 62,
            forall|k: int| 0 <= k < 62 ==> is_code_char(#[trigger] charset@[k]),
            path@.len() == i,
            forall|k: int| 0 <= k < path@.len() ==> is_code_char(#[trigger] path@[k]),
        decreases n - i,
    {
        let idx = random_below(62);
        let c = charset.substring_char(idx, idx + 1);
        let ghost before = path@;
        path.append(c);
        assert forall|k: int| 0 <= k < path@.len() implies is_code_char(#[trigger] path@[k]) by {
            if k < before.len() {
                assert(path@[k] == before[k]);
            } else {
                assert(path@[k] == c@[0]);
                assert(c@[0] == charset@[idx as int]);
            }
        }
        i = i + 1;
    }
    path
}

/// What a search for a free origin does after probing a candidate.
#[derive(Debug, Clone, Copy, PartialEq, Eq, Structural)]
pub enum OriginStep {
    /// The candidate is free: hand it out.
    Accept,
    /// The candidate is bound: draw another and probe it.
    Retry,
    /// Every allowed candidate was bound: give up.
    Exhausted,
    /// The store could not be read: give up.
    StoreFailed,
}

/// The step after probing the `attempts`-th candidate, given what the store
/// returned for it.
pub open spec fn origin_step(attempts: nat, fetched: Result<Vec<String>, StoreError>) -> OriginStep {
    match fetched {
        Err(_) => OriginStep::StoreFailed,
        Ok(fields) => if fields@.len() == 0 {
            OriginStep::Accept
        } else if attempts < MAX_ORIGIN_ATTEMPTS {
            OriginStep::Retry
        } else {
            OriginStep::Exhausted
        },
    }
}

/// Decides what follows the probe of the `attempts`-th candidate (counting
/// from 1): accept it when the store holds nothing for it, draw another while
/// fewer than `MAX_ORIGIN_ATTEMPTS` were probed, else give up.
pub fn next_origin_step(attempts: usize, fetched: &Result<Vec<String>, StoreError>) -> (r: OriginStep)
    ensures
        r == origin_step(attempts as nat, *fetched),
{
    match fetched {
        Err(_) => OriginStep::StoreFailed,
        Ok(fields) => if fields.len() == 0 {
            OriginStep::Accept
        } else if attempts < MAX_ORIGIN_ATTEMPTS {
            OriginStep::Retry
        } else {
            OriginStep::Exhausted
        },
    }
}

} // verus!
