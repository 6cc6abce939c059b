use vstd::prelude::*;
use vstd::string::StringExecFns;

verus! {

/// The single media type the adapter accepts on requests and attaches to
/// successful responses.
pub open spec fn octet_stream_media_type() -> Seq<char> {
    "application/octet-stream"@
}

/// The `Content-Type` value for successful responses, as an owned string.
pub fn octet_stream_content_type() -> (r: String)
    ensures
        r@ == octet_stream_media_type(),
{
    String::from_str("application/octet-stream")
}

/// Whether a request's `Content-Type` value is present and names exactly the
/// octet-stream media type: no wildcard, no parameter suffix, no case folding.
pub open spec fn is_octet_stream(content_type: Option<Seq<char>>) -> bool {
    content_type == Some(octet_stream_media_type())
}

/// View of an optional `Content-Type` header value.
pub open spec fn content_type_view(content_type: &Option<String>) -> Option<Seq<char>> {
    match content_type {
        Some(s) => Some(s@),
        None => None,
    }
}

/// Exact-match check of the `Content-Type` value against the octet-stream
/// media type.
pub fn octet_content_type(content_type: &Option<String>) -> (r: bool)
    ensures
        r == is_octet_stream(content_type_view(content_type)),
{
    match content_type {
        Some(s) => {
            let expected = octet_stream_content_type();
            *s == expected
        },
        None => false,
    }
}

} // verus!
