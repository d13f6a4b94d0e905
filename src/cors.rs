//! The cross-origin headers added to every response.
use vstd::prelude::*;

verus! {

/// Adds permissive cross-origin headers to responses.
pub struct CORS;

impl CORS {
    /// A short description of what this response hook does.
    pub fn name(&self) -> (r: &'static str)
        ensures
            r@ == "Add CORS headers to responses"@,
    {
        "Add CORS headers to responses"
    }

    /// The headers to set on each response, as name and value.
    pub fn headers(&self) -> (r: Vec<(&'static str, &'static str)>)
        ensures
            r@.len() == 4,
            r@[0].0@ == "Access-Control-Allow-Origin"@ && r@[0].1@ == "*"@,
            r@[1].0@ == "Access-Control-Allow-Methods"@ && r@[1].1@ == "POST, GET, PATCH, OPTIONS"@,
            r@[2].0@ == "Access-Control-Allow-Headers"@ && r@[2].1@ == "*"@,
            r@[3].0@ == "Access-Control-Allow-Credentials"@ && r@[3].1@ == "true"@,
    {
        let mut r: Vec<(&'static str, &'static str)> = Vec::new();
        r.push(("Access-Control-Allow-Origin", "*"));
        r.push(("Access-Control-Allow-Methods", "POST, GET, PATCH, OPTIONS"));
        r.push(("Access-Control-Allow-Headers", "*"));
        r.push(("Access-Control-Allow-Credentials", "true"));
        r
    }
}

} // verus!
