//! The outbound request of one form POST.
use vstd::prelude::*;

verus! {

/// Name of the one header that a form POST sets.
pub open spec fn content_type_header_spec() -> Seq<char> {
    "Content-Type"@
}

/// Media type of a pre-encoded form body.
pub open spec fn form_media_type_spec() -> Seq<char> {
    "application/x-www-form-urlencoded"@
}

/// Everything that goes on the wire for one call: the target, the single
/// header and the payload, which is the caller's string as it was handed in.
pub struct FormRequest {
    pub url: String,
    pub header_name: String,
    pub header_value: String,
    pub body: String,
}

/// `req` is the form POST of `body` to `url`.
pub open spec fn is_form_request(req: FormRequest, url: String, body: String) -> bool {
    &&& req.url == url
    &&& req.body == body
    &&& req.header_name@ == content_type_header_spec()
    &&& req.header_value@ == form_media_type_spec()
}

impl FormRequest {
    /// The request for `url` carrying `body`: a fixed form content type, and
    /// the body untouched (no encoding, no trimming).
    pub fn new(url: String, body: String) -> (r: FormRequest)
        ensures
            is_form_request(r, url, body),
    {
        FormRequest {
            url,
            header_name: "Content-Type".to_owned(),
            header_value: "application/x-www-form-urlencoded".to_owned(),
            body,
        }
    }
}

} // verus!
