//! The European Commission's VAT Information Exchange System (VIES), over SOAP.
use vstd::prelude::*;
use crate::errors::VerificationError;
use crate::tax_id::{TaxId, TaxIdView};
use crate::text::str_eq;
use crate::verification::{
    HttpMethod, UnavailableReason, Verification, VerificationRequest, VerificationResponse,
    VerificationStatus,
};
use crate::json::{member, JsonView};
use crate::text::is_blank;
use crate::xml::{get, lemma_get_put, lemma_json_member, listed, fields, fields_json, fields_of, text_of, text_under, to_json, xml_nodes, xml_nodes_of, Fields, XmlNode};

verus! {

pub const URI: &'static str = "http://ec.europa.eu/taxation_customs/vies/services/checkVatService";

/// The SOAP envelope of a `checkVat` call, up to the country code.
pub const ENVELOPE_HEAD: &'static str = "
<soapenv:Envelope xmlns:soapenv=\"http://schemas.xmlsoap.org/soap/envelope/\" xmlns:v1=\"http://schemas.conversesolutions.com/xsd/dmticta/v1\">
    <soapenv:Header/>
    <soapenv:Body>
        <checkVat xmlns=\"urn:ec.europa.eu:taxud:vies:services:checkVat:types\">
            <countryCode>";

/// The SOAP envelope between the country code and the number.
pub const ENVELOPE_MID: &'static str = "</countryCode>
            <vatNumber>";

/// The SOAP envelope after the number.
pub const ENVELOPE_TAIL: &'static str = "</vatNumber>
        </checkVat>
    </soapenv:Body>
</soapenv:Envelope>
";

pub const MISSING_VALID: &'static str = "Missing valid field in VIES response";

pub const INVALID_VALID: &'static str = "Invalid value for valid field in VIES response";

/// The reason that a VIES fault code stands for; none for a code this decoder does not model.
pub open spec fn fault_reason(code: Seq<char>) -> Option<UnavailableReason> {
    if code == "SERVICE_UNAVAILABLE"@ || code == "MS_UNAVAILABLE"@ {
        Some(UnavailableReason::ServiceUnavailable)
    } else if code == "TIMEOUT"@ {
        Some(UnavailableReason::Timeout)
    } else if code == "VAT_BLOCKED"@ || code == "IP_BLOCKED"@ {
        Some(UnavailableReason::Block)
    } else if code == "GLOBAL_MAX_CONCURRENT_REQ"@ || code == "GLOBAL_MAX_CONCURRENT_REQ_TIME"@
        || code == "MS_MAX_CONCURRENT_REQ"@ || code == "MS_MAX_CONCURRENT_REQ_TIME"@ {
        Some(UnavailableReason::RateLimit)
    } else {
        None
    }
}

/// `fault_reason` as executable code.
pub fn reason_for_fault(code: &str) -> (r: Option<UnavailableReason>)
    ensures
        r == fault_reason(code@),
{
    if str_eq(code, "SERVICE_UNAVAILABLE") || str_eq(code, "MS_UNAVAILABLE") {
        Some(UnavailableReason::ServiceUnavailable)
    } else if str_eq(code, "TIMEOUT") {
        Some(UnavailableReason::Timeout)
    } else if str_eq(code, "VAT_BLOCKED") || str_eq(code, "IP_BLOCKED") {
        Some(UnavailableReason::Block)
    } else if str_eq(code, "GLOBAL_MAX_CONCURRENT_REQ") || str_eq(code, "GLOBAL_MAX_CONCURRENT_REQ_TIME")
        || str_eq(code, "MS_MAX_CONCURRENT_REQ") || str_eq(code, "MS_MAX_CONCURRENT_REQ_TIME") {
        Some(UnavailableReason::RateLimit)
    } else {
        None
    }
}

/// The names that are structure, not data.
pub open spec fn vies_excluded() -> Seq<&'static str> {
    seq!["Body", "Envelope", "Fault"]
}

/// The table of an answer: structural wrappers are left out, `---` marks an absent value.
pub open spec fn vies_fields(nodes: Seq<(Seq<char>, Option<Seq<char>>)>) -> Fields {
    fields_of(nodes, vies_excluded(), true)
}

/// The status that a table calls for; none where the answer is not one this decoder
/// models (an unknown fault code; a `valid` that is missing or neither `true` nor `false`).
pub open spec fn vies_status(f: Fields) -> Option<VerificationStatus> {
    match text_of(f, "faultstring"@) {
        Some(fault) => match fault_reason(fault) {
            Some(reason) => Some(VerificationStatus::Unavailable(reason)),
            None => None,
        },
        None => match text_of(f, "valid"@) {
            Some(v) => if v == "true"@ {
                Some(VerificationStatus::Verified)
            } else if v == "false"@ {
                Some(VerificationStatus::Unverified)
            } else {
                None
            },
            None => None,
        },
    }
}

/// `r` is the request that asks VIES about the tax id `t`.
pub open spec fn vies_request(t: TaxIdView, r: VerificationRequest) -> bool {
    &&& r.method == HttpMethod::Post
    &&& r.url@ == URI@
    &&& r.headers.deep_view() == seq![("Content-Type"@, "text/xml"@)]
    &&& r.body matches Some(b) && b@ == ENVELOPE_HEAD@ + t.tax_country_code
            + ENVELOPE_MID@ + t.local_value + ENVELOPE_TAIL@
}

/// `r` is what decoding the VIES answer `response` gives.
pub open spec fn vies_decoded(response: VerificationResponse, r: Result<Verification, VerificationError>) -> bool {
    match xml_nodes_of(response.spec_body()) {
        None => r matches Err(e) && e is XmlParsingError,
        Some(n) => {
            &&& r is Ok <==> vies_status(vies_fields(n)) is Some
            &&& r matches Ok(v) ==> v@.status == vies_status(vies_fields(n))->0 && v@.data
                == fields_json(vies_fields(n))
            &&& r matches Err(e) ==> e is UnexpectedResponse
        },
    }
}

/// The VIES verifier.
#[derive(Debug, Clone, Copy)]
pub struct Vies;

impl Vies {
    /// The request that asks VIES about `tax_id`: its prefix and its local part go into
    /// the envelope.
    pub fn make_request(&self, tax_id: &TaxId) -> (r: VerificationRequest)
        ensures
            vies_request(tax_id@, r),
    {
        let mut body = String::from_str(ENVELOPE_HEAD);
        body.append(tax_id.tax_country_code());
        body.append(ENVELOPE_MID);
        body.append(tax_id.local_value());
        body.append(ENVELOPE_TAIL);
        let headers = vec![(String::from_str("Content-Type"), String::from_str("text/xml"))];
        assert(headers.deep_view() =~= seq![("Content-Type"@, "text/xml"@)]);
        VerificationRequest { method: HttpMethod::Post, url: String::from_str(URI), headers, body: Some(body) }
    }

    /// The table of the elements of an XML answer.
    pub fn xml_to_hash(xml: &str) -> (r: Result<Vec<XmlNode>, VerificationError>)
        ensures
            r is Ok <==> xml_nodes_of(xml@) is Some,
            r matches Ok(f) ==> f.deep_view() == vies_fields(xml_nodes_of(xml@)->0),
            r matches Err(e) ==> e is XmlParsingError,
    {
        let nodes = xml_nodes(xml)?;
        let excluded = vec!["Body", "Envelope", "Fault"];
        assert(excluded@ =~= vies_excluded());
        Ok(fields(&nodes, &excluded, true))
    }

    /// The verification that a table calls for, carrying the table as its data.
    pub fn assess(&self, f: &Vec<XmlNode>) -> (r: Result<Verification, VerificationError>)
        ensures
            r is Ok <==> vies_status(f.deep_view()) is Some,
            r matches Ok(v) ==> v@.status == vies_status(f.deep_view())->0 && v@.data == fields_json(f.deep_view()),
            r matches Err(e) ==> e is UnexpectedResponse,
            text_of(f.deep_view(), "faultstring"@) is None && text_of(f.deep_view(), "valid"@) is None
                ==> (r matches Err(VerificationError::UnexpectedResponse(m)) && m@ == MISSING_VALID@),
            text_of(f.deep_view(), "faultstring"@) is None && text_of(f.deep_view(), "valid"@) is Some
                && vies_status(f.deep_view()) is None
                ==> (r matches Err(VerificationError::UnexpectedResponse(m)) && m@ == INVALID_VALID@),
    {
        let status = match text_under(f, "faultstring") {
            Some(fault) => match reason_for_fault(fault) {
                Some(reason) => VerificationStatus::Unavailable(reason),
                None => {
                    let mut msg = String::from_str("Unknown fault code: ");
                    msg.append(fault);
                    return Err(VerificationError::UnexpectedResponse(msg));
                },
            },
            None => match text_under(f, "valid") {
                Some(v) => {
                    if str_eq(v, "true") {
                        VerificationStatus::Verified
                    } else if str_eq(v, "false") {
                        VerificationStatus::Unverified
                    } else {
                        return Err(VerificationError::UnexpectedResponse(String::from_str(INVALID_VALID)));
                    }
                },
                None => {
                    return Err(VerificationError::UnexpectedResponse(String::from_str(MISSING_VALID)));
                },
            },
        };
        Ok(Verification::new(status, to_json(f)))
    }

    /// Decodes an answer of VIES.
    pub fn parse_response(&self, response: VerificationResponse) -> (r: Result<Verification, VerificationError>)
        ensures
            vies_decoded(response, r),
    {
        let f = Vies::xml_to_hash(response.body())?;
        self.assess(&f)
    }
}

/// The text `---` is VIES's mark for an absent value: an element that carries it is
/// recorded as absent, and appears in the data as null rather than as the text `---`.
pub proof fn lemma_dashes_mean_absent(nodes: Seq<(Seq<char>, Option<Seq<char>>)>, tag: Seq<char>)
    requires
        nodes.len() > 0,
        nodes.last() == (tag, Some("---"@)),
        !is_blank(tag),
        !listed(vies_excluded(), tag),
    ensures
        get(vies_fields(nodes), tag) == Some(None::<Seq<char>>),
        member(fields_json(vies_fields(nodes)), tag) == Some(JsonView::Null),
{
    let prev = fields_of(nodes.drop_last(), vies_excluded(), true);
    lemma_get_put(prev, tag, None);
    lemma_json_member(vies_fields(nodes), tag);
}

/// A fault string that is not a known VIES fault code is no outcome at all: the
/// decoder reports it as an unexpected response rather than as unavailability.
pub proof fn lemma_unknown_fault_is_error(f: Fields)
    requires
        text_of(f, "faultstring"@) matches Some(code) && fault_reason(code) is None,
    ensures
        vies_status(f) is None,
{
}

} // verus!
