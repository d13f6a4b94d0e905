//! Content classification: the MIME type is read from the bytes themselves,
//! never taken from what the uploader declared.
use vstd::prelude::*;

verus! {

/// The MIME type that `infer` recognises in `bytes`, if any.
pub uninterp spec fn sniffed_mime(bytes: Seq<u8>) -> Option<Seq<char>>;

/// The stored content type for a sniffing result: the MIME type found, or
/// `unknown`.
pub open spec fn content_type_of(found: Option<Seq<char>>) -> Seq<char> {
    match found {
        Some(t) => t,
        None => "unknown"@,
    }
}

/// Relies on `infer::get` and `Type::mime_type`: the MIME type whose
/// signature matches the leading bytes, if one does; it depends on the bytes
/// alone.
#[verifier::external_body]
fn sniff(bytes: &[u8]) -> (r: Option<String>)
    ensures
        match r {
            Some(t) => sniffed_mime(bytes@) == Some(t@),
            None => sniffed_mime(bytes@) is None,
        },
{
    infer::get(bytes).map(|t| t.mime_type().to_string())
}

/// The content type to store for a sniffing result `found`.
pub fn content_type_from(found: Option<String>) -> (r: String)
    ensures
        r@ == content_type_of(
            match found {
                Some(t) => Some(t@),
                None => None,
            },
        ),
{
    match found {
        Some(t) => t,
        None => "unknown".to_owned(),
    }
}

/// The content type of `bytes`, found by looking at them.
pub fn classify(bytes: &[u8]) -> (r: String)
    ensures
        r@ == content_type_of(sniffed_mime(bytes@)),
{
    content_type_from(sniff(bytes))
}

} // verus!
