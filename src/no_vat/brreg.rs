//! The Brønnøysund Register Centre's entity register (BRREG), over REST with JSON answers.
use vstd::prelude::*;
use crate::errors::VerificationError;
use crate::json::{json_of, member, Json, JsonView};
use crate::no_vat::translator::{translate_keys, translated};
use crate::no_vat::NoVat;
use crate::tax_id::{TaxId, TaxIdView};
use crate::verification::{
    HttpMethod, UnavailableReason, Verification, VerificationRequest, VerificationResponse,
    VerificationStatus,
};

verus! {

pub const BASE_URI: &'static str = "https://data.brreg.no/enhetsregisteret/api/enheter";

pub const ACCEPT: &'static str = "application/vnd.brreg.enhetsregisteret.enhet.v2+json";

/// An entity qualifies when it is in the VAT register and neither bankrupt nor under
/// (forced) liquidation; a member that is missing or not a boolean disqualifies it.
pub open spec fn qualified(j: JsonView) -> bool {
    &&& member(j, "registeredInVatRegister"@) == Some(JsonView::Bool(true))
    &&& member(j, "bankruptcy"@) == Some(JsonView::Bool(false))
    &&& member(j, "underLiquidation"@) == Some(JsonView::Bool(false))
    &&& member(j, "underForcedLiquidation"@) == Some(JsonView::Bool(false))
}

/// The status and data that a decoded answer calls for (the answer to a server error,
/// or to a successful lookup); none where the answer is not an object. The data is the
/// answer with its member names in English.
pub open spec fn brreg_outcome(server_error: bool, j: JsonView) -> Option<(VerificationStatus, JsonView)> {
    if !(j is Object) {
        None
    } else if server_error {
        Some((VerificationStatus::Unavailable(UnavailableReason::ServiceUnavailable), translated(j)))
    } else if qualified(translated(j)) {
        Some((VerificationStatus::Verified, translated(j)))
    } else {
        Some((VerificationStatus::Unverified, translated(j)))
    }
}

/// `r` is the request that asks BRREG about the tax id `t`.
pub open spec fn brreg_request(t: TaxIdView, r: VerificationRequest) -> bool {
    &&& r.method == HttpMethod::Get
    &&& r.url@ == BASE_URI@ + "/"@ + NoVat::spec_org_number(t.local_value)
    &&& r.headers.deep_view() == seq![("Accept"@, ACCEPT@)]
    &&& r.body is None
}

/// `r` is what decoding the BRREG answer `response` gives.
pub open spec fn brreg_decoded(response: VerificationResponse, r: Result<Verification, VerificationError>) -> bool {
    let status = response.spec_status();
    &&& (status == 404 || status == 410 ==> (r matches Ok(v) && v@.status == VerificationStatus::Unverified
        && v@.data == JsonView::Object(Seq::empty())))
    &&& (status == 200 || status == 500 ==> match json_of(response.spec_body()) {
        None => r matches Err(e) && e is JsonParsingError,
        Some(j) => {
            &&& r is Ok <==> brreg_outcome(status == 500, j) is Some
            &&& r matches Ok(v) ==> brreg_outcome(status == 500, j) == Some((v@.status, v@.data))
            &&& r matches Err(e) ==> e is UnexpectedResponse
        },
    })
    &&& (!(status == 404 || status == 410 || status == 200 || status == 500) ==> (r matches Err(
        VerificationError::UnexpectedStatusCode(c),
    ) && c == status))
}

/// The BRREG verifier.
#[derive(Debug, Clone, Copy)]
pub struct BrReg;

impl BrReg {
    /// The request that asks BRREG about `tax_id`: its organisation number ends the address.
    pub fn make_request(&self, tax_id: &TaxId) -> (r: VerificationRequest)
        ensures
            brreg_request(tax_id@, r),
    {
        let mut url = String::from_str(BASE_URI);
        url.append("/");
        let org = NoVat.extract_org_number(tax_id);
        url.append(org.as_str());
        let headers = vec![(String::from_str("Accept"), String::from_str(ACCEPT))];
        assert(headers.deep_view() =~= seq![("Accept"@, ACCEPT@)]);
        VerificationRequest { method: HttpMethod::Get, url, headers, body: None }
    }

    /// Whether the entity described by `j` qualifies.
    pub fn qualify(&self, j: &Json) -> (r: VerificationStatus)
        ensures
            r == (if qualified(j@) {
                VerificationStatus::Verified
            } else {
                VerificationStatus::Unverified
            }),
    {
        let registered = match j.get("registeredInVatRegister") {
            Some(v) => v.as_bool(),
            None => None,
        };
        let bankrupt = match j.get("bankruptcy") {
            Some(v) => v.as_bool(),
            None => None,
        };
        let liquidating = match j.get("underLiquidation") {
            Some(v) => v.as_bool(),
            None => None,
        };
        let forced = match j.get("underForcedLiquidation") {
            Some(v) => v.as_bool(),
            None => None,
        };
        if registered == Some(true) && bankrupt == Some(false) && liquidating == Some(false) && forced
            == Some(false) {
            VerificationStatus::Verified
        } else {
            VerificationStatus::Unverified
        }
    }

    /// The verification that a decoded answer calls for.
    pub fn assess(&self, server_error: bool, j: Json) -> (r: Result<Verification, VerificationError>)
        ensures
            r is Ok <==> brreg_outcome(server_error, j@) is Some,
            r matches Ok(v) ==> brreg_outcome(server_error, j@) == Some((v@.status, v@.data)),
            r matches Err(e) ==> e is UnexpectedResponse,
    {
        match &j {
            Json::Object(_) => {},
            _ => {
                return Err(VerificationError::UnexpectedResponse(String::from_str("BRREG response is not a JSON object")));
            },
        }
        let mut t = j;
        translate_keys(&mut t);
        assert(t@ is Object);
        if server_error {
            Ok(Verification::new(VerificationStatus::Unavailable(UnavailableReason::ServiceUnavailable), t))
        } else {
            let status = self.qualify(&t);
            Ok(Verification::new(status, t))
        }
    }

    /// Decodes an answer of BRREG, first by its HTTP status.
    pub fn parse_response(&self, response: VerificationResponse) -> (r: Result<Verification, VerificationError>)
        ensures
            brreg_decoded(response, r),
    {
        let status = response.status();
        if status == 404 || status == 410 {
            Ok(Verification::new(VerificationStatus::Unverified, Json::empty_object()))
        } else if status == 200 || status == 500 {
            let j = Json::parse(response.body())?;
            self.assess(status == 500, j)
        } else {
            Err(VerificationError::UnexpectedStatusCode(status))
        }
    }
}

/// How BRREG entity data maps to outcomes: an entity that is not in the VAT register
/// is unverified whatever the other members say; one in the register, not bankrupt and
/// under no liquidation is verified; a server error means the service is unavailable.
pub proof fn lemma_brreg_outcomes(j: JsonView)
    requires
        j is Object,
    ensures
        member(translated(j), "registeredInVatRegister"@) == Some(JsonView::Bool(false))
            ==> brreg_outcome(false, j) == Some((VerificationStatus::Unverified, translated(j))),
        qualified(translated(j)) ==> brreg_outcome(false, j) == Some(
            (VerificationStatus::Verified, translated(j)),
        ),
        brreg_outcome(true, j) == Some(
            (VerificationStatus::Unavailable(UnavailableReason::ServiceUnavailable), translated(j)),
        ),
{
}

} // verus!
