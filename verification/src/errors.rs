//! The uniform failure shape that every upstream interaction is normalized
//! into: a transport problem, a non-success status from the registry, a body
//! that did not decode, or an expected piece of metadata that was absent.

use vstd::prelude::*;

use crate::decimal::{spec_decimal, u32_to_decimal};

verus! {

/// A failure of one upstream interaction.
///
/// `Network` carries a description of the transport-level cause, `Upstream`
/// carries the registry's own status code verbatim, `Decode` carries a
/// diagnostic message built from the request and the offending body,
/// `MetadataMissing` marks an expected optional field that was absent, and
/// `MissingDigestHeader` marks a manifest HEAD response without the
/// content-digest header.
#[derive(Debug, Clone, PartialEq, Eq)]
pub enum FetchError {
    Network(String),
    Upstream(u16),
    Decode(String),
    MetadataMissing,
    MissingDigestHeader,
}

/// The HTTP status code that a failure is reported under: transport problems
/// are server-side, upstream statuses are forwarded verbatim, and decode or
/// missing-metadata problems are client-ish diagnostics.
pub open spec fn spec_status(e: FetchError) -> u16 {
    match e {
        FetchError::Network(_) => 500,
        FetchError::Upstream(s) => s,
        FetchError::Decode(_) => 400,
        FetchError::MetadataMissing => 400,
        FetchError::MissingDigestHeader => 500,
    }
}

/// The human-readable message the HTTP layer renders this failure under.
pub open spec fn spec_message(e: FetchError) -> Seq<char> {
    match e {
        FetchError::Network(detail) => "network error: "@ + detail@,
        FetchError::Upstream(s) => "upstream registry returned status "@ + spec_decimal(s as int),
        FetchError::Decode(detail) => detail@,
        FetchError::MetadataMissing => "creation date not found in the config blob"@,
        FetchError::MissingDigestHeader => "Docker-Content-Digest header absent"@,
    }
}

/// The diagnostic message for a body that failed to decode: it names the
/// request and embeds the parser's complaint and the raw body.
pub open spec fn spec_decode_message(url: Seq<char>, detail: Seq<char>, body: Seq<char>) -> Seq<
    char,
> {
    "decode error at "@ + url + ": "@ + detail + "; body: "@ + body
}

impl FetchError {
    /// The status code the HTTP layer renders this failure under.
    pub fn status(&self) -> (s: u16)
        ensures
            s == spec_status(*self),
    {
        match self {
            FetchError::Network(_) => 500,
            FetchError::Upstream(s) => *s,
            FetchError::Decode(_) => 400,
            FetchError::MetadataMissing => 400,
            FetchError::MissingDigestHeader => 500,
        }
    }

    /// The message the HTTP layer renders this failure under.
    pub fn message(&self) -> (m: String)
        ensures
            m@ == spec_message(*self),
    {
        match self {
            FetchError::Network(detail) => String::from_str("network error: ").concat(
                detail.as_str(),
            ),
            FetchError::Upstream(s) => {
                let digits = u32_to_decimal(*s as u32);
                String::from_str("upstream registry returned status ").concat(digits.as_str())
            },
            FetchError::Decode(detail) => detail.clone(),
            FetchError::MetadataMissing => String::from_str(
                "creation date not found in the config blob",
            ),
            FetchError::MissingDigestHeader => String::from_str(
                "Docker-Content-Digest header absent",
            ),
        }
    }
}

/// The decode failure for one request: carries a message that names the
/// request and embeds the parser's complaint and the raw body, a deliberate
/// debuggability decision given how varied manifest formats are.
pub fn decode_failure(url: &str, detail: &str, body: &str) -> (e: FetchError)
    ensures
        e matches FetchError::Decode(m) && m@ == spec_decode_message(url@, detail@, body@),
{
    let m = String::from_str("decode error at ").concat(url).concat(": ").concat(detail).concat(
        "; body: ",
    ).concat(body);
    FetchError::Decode(m)
}

} // verus!
