//! The Swiss Federal Statistical Office's UID register (BFS), over SOAP.
use vstd::prelude::*;
use crate::errors::VerificationError;
use crate::tax_id::{TaxId, TaxIdView};
use crate::text::str_eq;
use crate::verification::{
    HttpMethod, UnavailableReason, Verification, VerificationRequest, VerificationResponse,
    VerificationStatus,
};
use crate::xml::{fields, fields_json, fields_of, text_of, text_under, to_json, xml_nodes, xml_nodes_of, Fields, XmlNode};

verus! {

pub const URI: &'static str = "https://www.uid-wse-a.admin.ch/V5.0/PublicServices.svc";

/// The SOAP envelope of a `ValidateVatNumber` call, up to the number.
pub const ENVELOPE_HEAD: &'static str = "
    <soapenv:Envelope xmlns:soapenv=\"http://schemas.xmlsoap.org/soap/envelope/\" xmlns:uid=\"http://www.uid.admin.ch/xmlns/uid-wse\">
        <soapenv:Header/>
        <soapenv:Body>
            <uid:ValidateVatNumber>
                <uid:vatNumber>";

/// The SOAP envelope of a `ValidateVatNumber` call, after the number.
pub const ENVELOPE_TAIL: &'static str = "</uid:vatNumber>
            </uid:ValidateVatNumber>
        </soapenv:Body>
    </soapenv:Envelope>
";

pub const SOAP_ACTION: &'static str = "http://www.uid.admin.ch/xmlns/uid-wse/IPublicServices/ValidateVatNumber";

/// The headers of every request.
pub open spec fn bfs_headers() -> Seq<(Seq<char>, Seq<char>)> {
    seq![
        ("Accept"@, "text/xml;charset=UTF-8"@),
        ("Content-Type"@, "text/xml;charset=UTF-8"@),
        ("SOAPAction"@, SOAP_ACTION@),
    ]
}

/// The table of an answer: structural wrappers are left out.
pub open spec fn bfs_fields(nodes: Seq<(Seq<char>, Option<Seq<char>>)>) -> Fields {
    fields_of(
        nodes,
        seq!["Body", "Envelope", "Fault", "businessFault", "detail", "ValidateVatNumberResponse"],
        false,
    )
}

/// The status that a table calls for; none where the answer is not one this decoder
/// models (an unknown fault, or a result other than `true` or `false`).
pub open spec fn bfs_status(f: Fields) -> Option<VerificationStatus> {
    match text_of(f, "faultstring"@) {
        Some(fault) => if fault == "Data_validation_failed"@ {
            Some(VerificationStatus::Unverified)
        } else if fault == "Request_limit_exceeded"@ {
            Some(VerificationStatus::Unavailable(UnavailableReason::RateLimit))
        } else {
            None
        },
        None => match text_of(f, "ValidateVatNumberResult"@) {
            Some(v) => if v == "true"@ {
                Some(VerificationStatus::Verified)
            } else if v == "false"@ {
                Some(VerificationStatus::Unverified)
            } else {
                None
            },
            None => None,
        },
    }
}

/// `r` is the request that asks BFS about the tax id `t`.
pub open spec fn bfs_request(t: TaxIdView, r: VerificationRequest) -> bool {
    &&& r.method == HttpMethod::Post
    &&& r.url@ == URI@
    &&& r.headers.deep_view() == bfs_headers()
    &&& r.body matches Some(b) && b@ == ENVELOPE_HEAD@ + t.value + ENVELOPE_TAIL@
}

/// `r` is what decoding the BFS answer `response` gives.
pub open spec fn bfs_decoded(response: VerificationResponse, r: Result<Verification, VerificationError>) -> bool {
    match xml_nodes_of(response.spec_body()) {
        None => r matches Err(e) && e is XmlParsingError,
        Some(n) => {
            &&& r is Ok <==> bfs_status(bfs_fields(n)) is Some
            &&& r matches Ok(v) ==> v@.status == bfs_status(bfs_fields(n))->0 && v@.data
                == fields_json(bfs_fields(n))
            &&& r matches Err(e) ==> e is UnexpectedResponse
        },
    }
}

/// The BFS verifier.
#[derive(Debug, Clone, Copy)]
pub struct BFS;

impl BFS {
    /// The request that asks BFS about `tax_id`: the full id goes into the envelope.
    pub fn make_request(&self, tax_id: &TaxId) -> (r: VerificationRequest)
        ensures
            bfs_request(tax_id@, r),
    {
        let mut body = String::from_str(ENVELOPE_HEAD);
        body.append(tax_id.value());
        body.append(ENVELOPE_TAIL);
        let headers = vec![
            (String::from_str("Accept"), String::from_str("text/xml;charset=UTF-8")),
            (String::from_str("Content-Type"), String::from_str("text/xml;charset=UTF-8")),
            (String::from_str("SOAPAction"), String::from_str(SOAP_ACTION)),
        ];
        assert(headers.deep_view() =~= bfs_headers());
        VerificationRequest { method: HttpMethod::Post, url: String::from_str(URI), headers, body: Some(body) }
    }

    /// The table of the elements of an XML answer.
    pub fn xml_to_hash(xml: &str) -> (r: Result<Vec<XmlNode>, VerificationError>)
        ensures
            r is Ok <==> xml_nodes_of(xml@) is Some,
            r matches Ok(f) ==> f.deep_view() == bfs_fields(xml_nodes_of(xml@)->0),
            r matches Err(e) ==> e is XmlParsingError,
    {
        let nodes = xml_nodes(xml)?;
        let excluded = vec!["Body", "Envelope", "Fault", "businessFault", "detail", "ValidateVatNumberResponse"];
        assert(excluded@ =~= seq!["Body", "Envelope", "Fault", "businessFault", "detail", "ValidateVatNumberResponse"]);
        Ok(fields(&nodes, &excluded, false))
    }

    /// The verification that a table calls for, carrying the table as its data.
    pub fn assess(&self, f: &Vec<XmlNode>) -> (r: Result<Verification, VerificationError>)
        ensures
            r is Ok <==> bfs_status(f.deep_view()) is Some,
            r matches Ok(v) ==> v@.status == bfs_status(f.deep_view())->0 && v@.data == fields_json(f.deep_view()),
            r matches Err(e) ==> e is UnexpectedResponse,
    {
        let status = match text_under(f, "faultstring") {
            Some(fault) => {
                if str_eq(fault, "Data_validation_failed") {
                    VerificationStatus::Unverified
                } else if str_eq(fault, "Request_limit_exceeded") {
                    VerificationStatus::Unavailable(UnavailableReason::RateLimit)
                } else {
                    let mut msg = String::from_str("Unexpected faultstring: ");
                    msg.append(fault);
                    return Err(VerificationError::UnexpectedResponse(msg));
                }
            },
            None => match text_under(f, "ValidateVatNumberResult") {
                Some(v) if str_eq(v, "true") => VerificationStatus::Verified,
                Some(v) if str_eq(v, "false") => VerificationStatus::Unverified,
                _ => {
                    return Err(
                        VerificationError::UnexpectedResponse(
                            String::from_str("ValidateVatNumberResult should be 'true' or 'false'"),
                        ),
                    );
                },
            },
        };
        Ok(Verification::new(status, to_json(f)))
    }

    /// Decodes an answer of BFS.
    pub fn parse_response(&self, response: VerificationResponse) -> (r: Result<Verification, VerificationError>)
        ensures
            bfs_decoded(response, r),
    {
        let f = BFS::xml_to_hash(response.body())?;
        self.assess(&f)
    }
}

/// How BFS answers map to outcomes: the fault `Data_validation_failed` means
/// unverified and `Request_limit_exceeded` unavailable, any other fault is an error;
/// without a fault, a result of `true` or `false` means verified or unverified, and
/// any other result, or none, is an error.
pub proof fn lemma_bfs_outcomes(f: Fields)
    ensures
        text_of(f, "faultstring"@) == Some("Data_validation_failed"@) ==> bfs_status(f) == Some(
            VerificationStatus::Unverified,
        ),
        text_of(f, "faultstring"@) == Some("Request_limit_exceeded"@) ==> bfs_status(f) matches Some(
            VerificationStatus::Unavailable(_),
        ),
        text_of(f, "faultstring"@) matches Some(x) && x != "Data_validation_failed"@ && x
            != "Request_limit_exceeded"@ ==> bfs_status(f) is None,
        text_of(f, "faultstring"@) is None && text_of(f, "ValidateVatNumberResult"@) == Some("true"@)
            ==> bfs_status(f) == Some(VerificationStatus::Verified),
        text_of(f, "faultstring"@) is None && text_of(f, "ValidateVatNumberResult"@) == Some("false"@)
            ==> bfs_status(f) == Some(VerificationStatus::Unverified),
        text_of(f, "faultstring"@) is None && !(text_of(f, "ValidateVatNumberResult"@) == Some("true"@))
            && !(text_of(f, "ValidateVatNumberResult"@) == Some("false"@)) ==> bfs_status(f) is None,
{
    reveal_strlit("true");
    reveal_strlit("false");
    reveal_strlit("Data_validation_failed");
    reveal_strlit("Request_limit_exceeded");
    assert("true"@[0] != "false"@[0]);
    assert("Data_validation_failed"@[0] != "Request_limit_exceeded"@[0]);
}

} // verus!
