//! Admission tokens. Whether a token is valid is decided by an outside
//! authority (a key in a registry); the library says which key to look up
//! and what the answer means.
use vstd::prelude::*;

verus! {

/// An admission token, as presented by an uploader.
#[derive(Clone, Debug)]
pub struct Token(pub String);

/// The prefix of the registry key under which a token is recorded.
pub open spec fn registry_prefix() -> Seq<char> {
    "bot:tokens:"@
}

impl Token {
    /// The registry key whose presence makes this token valid.
    pub fn registry_key(&self) -> (k: String)
        ensures
            k@ == registry_prefix() + self.0@,
    {
        let mut k = "bot:tokens:".to_owned();
        k.append(self.0.as_str());
        k
    }
}

/// Whether a token is accepted: always when tokens are not checked,
/// otherwise exactly when the registry holds its key.
pub fn is_token_valid(check_token: bool, registered: bool) -> (r: bool)
    ensures
        r == (!check_token || registered),
{
    if check_token {
        registered
    } else {
        true
    }
}

} // verus!
