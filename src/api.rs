use vstd::prelude::*;
use crate::query::{
    build_query, now_in_range, query_document, spec_pattern, utc_format, window_since,
    window_until, QueryProfile, QueryTarget,
};

verus! {

/// Where queries are sent.
pub const ENDPOINT: &'static str = "https://api.trafikinfo.trafikverket.se/v2/data.json";

/// The content type that marks a body as a query document.
pub const CONTENT_TYPE: &'static str = "application/xml";

/// Said of a reply that could not be read, when the reader gave no reason.
pub const MALFORMED_BODY: &'static str = "malformed response body";

/// One request to send: a POST of `body` to `url`.
#[derive(Clone, Debug)]
pub struct ApiRequest {
    pub url: String,
    pub content_type: String,
    pub body: String,
}

/// Why a lookup produced no announcements.
#[derive(Clone, Debug)]
pub enum ApiError {
    /// No credential was available; nothing was sent.
    CredentialMissing,
    /// The request could not be completed; the cause as reported.
    Transport(String),
    /// The reply did not have the expected shape.
    Parse { message: String, body: String },
}

/// A credential is available when it is present and not empty.
pub open spec fn has_credential(credential: Option<String>) -> bool {
    credential matches Some(key) && key@.len() > 0
}

/// The request for a target, or `CredentialMissing` when there is no
/// credential to send; the clock is read only when there is one.
pub fn plan_request(
    credential: Option<String>,
    target: &QueryTarget,
    now_millis: i64,
    profile: &QueryProfile,
) -> (r: Result<ApiRequest, ApiError>)
    requires
        profile.wf(),
        has_credential(credential) ==> now_in_range(now_millis as int),
    ensures
        r is Err <==> !has_credential(credential),
        !has_credential(credential) ==> r matches Err(ApiError::CredentialMissing),
        r matches Ok(request) ==> {
            &&& request.url@ == ENDPOINT@
            &&& request.content_type@ == CONTENT_TYPE@
            &&& request.body@ == query_document(
                credential.unwrap()@,
                target.spec_field(),
                target.spec_value(),
                utc_format(
                    window_since(now_millis as int, *profile),
                    spec_pattern(profile.precision),
                ),
                utc_format(
                    window_until(now_millis as int, *profile),
                    spec_pattern(profile.precision),
                ),
            )
        },
{
    match credential {
        None => Err(ApiError::CredentialMissing),
        Some(key) => {
            if key.as_str().is_empty() {
                Err(ApiError::CredentialMissing)
            } else {
                let body = build_query(key.as_str(), target, now_millis, profile);
                Ok(
                    ApiRequest {
                        url: String::from_str(ENDPOINT),
                        content_type: String::from_str(CONTENT_TYPE),
                        body,
                    },
                )
            }
        },
    }
}

/// The error for a reply that could not be read: the reader's diagnostic,
/// or a fixed text when it gave none, and the reply itself.
pub fn parse_failure(diagnostic: String, body: String) -> (r: ApiError)
    ensures
        r matches ApiError::Parse { message, body: kept } && {
            &&& message@.len() > 0
            &&& diagnostic@.len() > 0 ==> message@ == diagnostic@
            &&& diagnostic@.len() == 0 ==> message@ == MALFORMED_BODY@
            &&& kept@ == body@
        },
{
    proof {
        reveal_strlit("malformed response body");
    }
    if diagnostic.as_str().is_empty() {
        ApiError::Parse { message: String::from_str(MALFORMED_BODY), body }
    } else {
        ApiError::Parse { message: diagnostic, body }
    }
}

impl ApiError {
    /// The text shown to a user for this error.
    pub open spec fn spec_describe(&self) -> Seq<char> {
        match self {
            ApiError::CredentialMissing => "No API key found"@,
            ApiError::Transport(cause) => "Error fetching data: "@ + cause@,
            ApiError::Parse { message, .. } => "Error fetching data: "@ + message@,
        }
    }

    /// The text shown to a user for this error.
    pub fn describe(&self) -> (r: String)
        ensures
            r@ == self.spec_describe(),
    {
        match self {
            ApiError::CredentialMissing => String::from_str("No API key found"),
            ApiError::Transport(cause) => {
                let mut r = String::from_str("Error fetching data: ");
                r.append(cause.as_str());
                r
            },
            ApiError::Parse { message, .. } => {
                let mut r = String::from_str("Error fetching data: ");
                r.append(message.as_str());
                r
            },
        }
    }
}

} // verus!
