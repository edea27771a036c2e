//! The cross-origin policy attached to every response.
use vstd::prelude::*;

verus! {

/// The blanket CORS policy: any origin, `POST`, `GET` and `OPTIONS`, any
/// headers, credentials allowed.
pub struct CORS;

/// The response headers of the CORS policy, as (name, value) pairs.
pub open spec fn cors_headers() -> Seq<(Seq<char>, Seq<char>)> {
    seq![
        ("Access-Control-Allow-Origin"@, "*"@),
        ("Access-Control-Allow-Methods"@, "POST, GET, OPTIONS"@),
        ("Access-Control-Allow-Headers"@, "*"@),
        ("Access-Control-Allow-Credentials"@, "true"@),
    ]
}

impl CORS {
    /// The headers to set on each response.
    pub fn headers(&self) -> (r: Vec<(String, String)>)
        ensures
            r.deep_view() == cors_headers(),
    {
        let r = vec![
            (String::from_str("Access-Control-Allow-Origin"), String::from_str("*")),
            (String::from_str("Access-Control-Allow-Methods"), String::from_str("POST, GET, OPTIONS")),
            (String::from_str("Access-Control-Allow-Headers"), String::from_str("*")),
            (String::from_str("Access-Control-Allow-Credentials"), String::from_str("true")),
        ];
        assert(r.deep_view() =~= cors_headers());
        r
    }
}

} // verus!
