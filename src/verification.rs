//! The unified outcome of a registry check, and the request/response values exchanged
//! with the transport.
use vstd::prelude::*;
use crate::json::{Json, JsonView};

verus! {

/// What the transport brought back: the HTTP status and the body text.
#[derive(Debug, PartialEq)]
pub struct VerificationResponse {
    status: u16,
    body: String,
}

impl VerificationResponse {
    pub closed spec fn spec_status(&self) -> u16 {
        self.status
    }

    pub closed spec fn spec_body(&self) -> Seq<char> {
        self.body@
    }

    pub fn new(status: u16, body: String) -> (r: VerificationResponse)
        ensures
            r.spec_status() == status,
            r.spec_body() == body@,
    {
        VerificationResponse { status, body }
    }

    pub fn status(&self) -> (r: u16)
        ensures
            r == self.spec_status(),
    {
        self.status
    }

    pub fn body(&self) -> (r: &str)
        ensures
            r@ == self.spec_body(),
    {
        self.body.as_str()
    }
}

/// The HTTP method of a request.
#[derive(Debug, Clone, Copy, PartialEq, Eq, Structural)]
pub enum HttpMethod {
    Get,
    Post,
}

/// A request for the transport to send, fully built: method, address, headers and body.
#[derive(Debug)]
pub struct VerificationRequest {
    pub method: HttpMethod,
    pub url: String,
    pub headers: Vec<(String, String)>,
    pub body: Option<String>,
}

/// Why a registry gave no authoritative answer.
#[derive(Debug, Clone, Copy, PartialEq, Eq, Structural)]
pub enum UnavailableReason {
    ServiceUnavailable,
    Timeout,
    Block,
    RateLimit,
}

/// The outcome of a registry check.
#[derive(Debug, Clone, Copy, PartialEq, Eq, Structural)]
pub enum VerificationStatus {
    /// The registry confirmed the id as legitimate.
    Verified,
    /// The registry authoritatively rejected the id.
    Unverified,
    /// No authoritative answer was obtained; treat as provisionally allowed and check again later.
    Unavailable(UnavailableReason),
}

/// A completed registry check: when it ended, its status and the registry's data.
#[derive(Debug, PartialEq)]
pub struct Verification {
    performed_at: i64,
    status: VerificationStatus,
    data: Json,
}

/// The mathematical content of a `Verification` (the time excepted).
pub struct VerificationView {
    pub status: VerificationStatus,
    pub data: JsonView,
}

impl View for Verification {
    type V = VerificationView;

    closed spec fn view(&self) -> VerificationView {
        VerificationView { status: self.status, data: self.data@ }
    }
}

/// Relies on chrono's `Local::now` and `timestamp_millis`: the current time, in
/// milliseconds since the Unix epoch.
#[verifier::external_body]
fn now_millis() -> i64 {
    chrono::Local::now().timestamp_millis()
}

impl Verification {
    /// A verification with the given status and data, performed now.
    pub fn new(status: VerificationStatus, data: Json) -> (r: Verification)
        ensures
            r@ == (VerificationView { status, data: data@ }),
    {
        Verification { performed_at: now_millis(), status, data }
    }

    pub closed spec fn spec_performed_at(&self) -> i64 {
        self.performed_at
    }

    /// When the verification completed, in milliseconds since the Unix epoch.
    pub fn performed_at(&self) -> (r: i64)
        ensures
            r == self.spec_performed_at(),
    {
        self.performed_at
    }

    /// The status on which a caller decides: proceed on `Verified`, stop on
    /// `Unverified`, proceed and check again later on `Unavailable`.
    pub fn status(&self) -> (r: &VerificationStatus)
        ensures
            *r == self@.status,
    {
        &self.status
    }

    /// The registry's data on the id, or the details of its failure.
    pub fn data(&self) -> (r: &Json)
        ensures
            r@ == self@.data,
    {
        &self.data
    }
}

} // verus!
