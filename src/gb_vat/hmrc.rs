//! HM Revenue & Customs' VAT number check, over REST with JSON answers.
use vstd::prelude::*;
use crate::errors::VerificationError;
use crate::json::{json_of, member, Json, JsonView};
use crate::tax_id::{TaxId, TaxIdView};
use crate::text::str_eq;
use crate::verification::{
    HttpMethod, UnavailableReason, Verification, VerificationRequest, VerificationResponse,
    VerificationStatus,
};

verus! {

pub const BASE_URI: &'static str = "https://api.service.hmrc.gov.uk/organisations/vat/check-vat-number/lookup";

/// The status and data that an answer calls for; none where the answer is not an object.
/// Without a string `code` the number is verified and the data is the `target` member;
/// `NOT_FOUND` means unverified, any other code unavailable, both with the whole answer.
pub open spec fn hmrc_outcome(j: JsonView) -> Option<(VerificationStatus, JsonView)> {
    if !(j is Object) {
        None
    } else {
        match member(j, "code"@) {
            Some(JsonView::Str(code)) => if code == "NOT_FOUND"@ {
                Some((VerificationStatus::Unverified, j))
            } else {
                Some((VerificationStatus::Unavailable(UnavailableReason::ServiceUnavailable), j))
            },
            _ => Some(
                (
                    VerificationStatus::Verified,
                    match member(j, "target"@) {
                        Some(t) => t,
                        None => JsonView::Null,
                    },
                ),
            ),
        }
    }
}

/// `r` is the request that asks HMRC about the tax id `t`.
pub open spec fn hmrc_request(t: TaxIdView, r: VerificationRequest) -> bool {
    &&& r.method == HttpMethod::Get
    &&& r.url@ == BASE_URI@ + "/"@ + t.local_value
    &&& r.headers.deep_view() == seq![("Accept"@, "application/vnd.hmrc.1.0+json"@)]
    &&& r.body is None
}

/// `r` is what decoding the HMRC answer `response` gives.
pub open spec fn hmrc_decoded(response: VerificationResponse, r: Result<Verification, VerificationError>) -> bool {
    match json_of(response.spec_body()) {
        None => r matches Err(e) && e is JsonParsingError,
        Some(j) => {
            &&& r is Ok <==> hmrc_outcome(j) is Some
            &&& r matches Ok(v) ==> hmrc_outcome(j) == Some((v@.status, v@.data))
            &&& r matches Err(e) ==> e is UnexpectedResponse
        },
    }
}

/// The HMRC verifier.
#[derive(Debug, Clone, Copy)]
pub struct Hmrc;

impl Hmrc {
    /// The request that asks HMRC about `tax_id`: its local part ends the address.
    pub fn make_request(&self, tax_id: &TaxId) -> (r: VerificationRequest)
        ensures
            hmrc_request(tax_id@, r),
    {
        let mut url = String::from_str(BASE_URI);
        url.append("/");
        url.append(tax_id.local_value());
        let headers = vec![(String::from_str("Accept"), String::from_str("application/vnd.hmrc.1.0+json"))];
        assert(headers.deep_view() =~= seq![("Accept"@, "application/vnd.hmrc.1.0+json"@)]);
        VerificationRequest { method: HttpMethod::Get, url, headers, body: None }
    }

    /// The verification that a decoded answer calls for.
    pub fn assess(&self, j: Json) -> (r: Result<Verification, VerificationError>)
        ensures
            r is Ok <==> hmrc_outcome(j@) is Some,
            r matches Ok(v) ==> hmrc_outcome(j@) == Some((v@.status, v@.data)),
            r matches Err(e) ==> e is UnexpectedResponse,
    {
        match &j {
            Json::Object(_) => {},
            _ => {
                return Err(VerificationError::UnexpectedResponse(String::from_str("HMRC response is not a JSON object")));
            },
        }
        let not_found = match j.get("code") {
            Some(c) => match c.as_str() {
                Some(code) => Some(str_eq(code, "NOT_FOUND")),
                None => None,
            },
            None => None,
        };
        match not_found {
            Some(true) => Ok(Verification::new(VerificationStatus::Unverified, j)),
            Some(false) => Ok(
                Verification::new(VerificationStatus::Unavailable(UnavailableReason::ServiceUnavailable), j),
            ),
            None => {
                let data = match j.get("target") {
                    Some(t) => t.deep_clone(),
                    None => Json::Null,
                };
                Ok(Verification::new(VerificationStatus::Verified, data))
            },
        }
    }

    /// Decodes an answer of HMRC.
    pub fn parse_response(&self, response: VerificationResponse) -> (r: Result<Verification, VerificationError>)
        ensures
            hmrc_decoded(response, r),
    {
        let j = Json::parse(response.body())?;
        self.assess(j)
    }
}

/// How HMRC answers map to outcomes: an object without `code` is verified, with its
/// `target` member (not the whole answer) as data; the code `NOT_FOUND` means
/// unverified and any other code unavailable, both with the whole answer as data.
pub proof fn lemma_hmrc_outcomes(j: JsonView)
    requires
        j is Object,
    ensures
        member(j, "code"@) is None ==> hmrc_outcome(j) == Some(
            (
                VerificationStatus::Verified,
                match member(j, "target"@) {
                    Some(t) => t,
                    None => JsonView::Null,
                },
            ),
        ),
        member(j, "code"@) == Some(JsonView::Str("NOT_FOUND"@)) ==> hmrc_outcome(j) == Some(
            (VerificationStatus::Unverified, j),
        ),
        member(j, "code"@) matches Some(JsonView::Str(c)) && c != "NOT_FOUND"@ ==> hmrc_outcome(j)
            == Some((VerificationStatus::Unavailable(UnavailableReason::ServiceUnavailable), j)),
{
}

} // verus!
