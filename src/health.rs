use vstd::prelude::*;
use vstd::string::StringExecFns;

verus! {

/// What the existence probe of the bucket came back with.
pub enum ProbeResponse {
    /// The bucket exists and is reachable.
    Found,
    /// The store answered with an HTTP status it gave no further meaning.
    Status(u16),
    /// Any other failure, by its message.
    Failure(String),
}

/// Whether the destination is usable.
pub enum Healthcheck {
    Ready,
    InvalidCredentials,
    DestinationNotFound,
    Unknown(String),
}

/// The HTTP status "forbidden".
pub const FORBIDDEN: u16 = 403;

/// The HTTP status "not found".
pub const NOT_FOUND: u16 = 404;

/// How an HTTP status code is displayed.
pub uninterp spec fn status_text(code: u16) -> Seq<char>;

/// Relies on http's `StatusCode::from_u16` and the `Display` of its result: the code
/// with its canonical reason, or the message of the error for a code out of range.
#[verifier::external_body]
fn status_display(code: u16) -> (r: String)
    ensures
        r@ == status_text(code),
{
    match http::StatusCode::from_u16(code) {
        Ok(status) => status.to_string(),
        Err(e) => e.to_string(),
    }
}

/// The text that describes an unexpected status.
pub open spec fn unknown_status_message(code: u16) -> Seq<char> {
    "Unknown error: Status code: "@ + status_text(code)
}

/// Classifies the probe's answer: forbidden means bad credentials, not found means
/// no such bucket; anything else is reported as it came.
pub fn healthcheck(response: ProbeResponse) -> (r: Healthcheck)
    ensures
        match response {
            ProbeResponse::Found => r == Healthcheck::Ready,
            ProbeResponse::Status(code) => if code == FORBIDDEN {
                r == Healthcheck::InvalidCredentials
            } else if code == NOT_FOUND {
                r == Healthcheck::DestinationNotFound
            } else {
                r matches Healthcheck::Unknown(d) && d@ == unknown_status_message(code)
            },
            ProbeResponse::Failure(m) => r matches Healthcheck::Unknown(d) && d@ == m@,
        },
{
    match response {
        ProbeResponse::Found => Healthcheck::Ready,
        ProbeResponse::Status(code) => {
            if code == FORBIDDEN {
                Healthcheck::InvalidCredentials
            } else if code == NOT_FOUND {
                Healthcheck::DestinationNotFound
            } else {
                let mut detail = "Unknown error: Status code: ".to_owned();
                let text = status_display(code);
                detail.append(text.as_str());
                Healthcheck::Unknown(detail)
            }
        },
        ProbeResponse::Failure(m) => Healthcheck::Unknown(m),
    }
}

} // verus!
