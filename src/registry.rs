//! The registries, as one closed set: each builds its request and decodes its answer.
use vstd::prelude::*;
use crate::ch_vat::bfs::{bfs_decoded, bfs_request, BFS};
use crate::errors::VerificationError;
use crate::eu_vat::vies::{vies_decoded, vies_request, Vies};
use crate::gb_vat::hmrc::{hmrc_decoded, hmrc_request, Hmrc};
use crate::no_vat::brreg::{brreg_decoded, brreg_request, BrReg};
use crate::tax_id::{TaxId, TaxIdType, TaxIdView};
use crate::verification::{Verification, VerificationRequest, VerificationResponse};

verus! {

/// A registry that confirms tax ids.
#[derive(Debug, Clone, Copy, PartialEq, Eq, Structural)]
pub enum Verifier {
    Bfs,
    Vies,
    Hmrc,
    BrReg,
}

impl Verifier {
    /// `r` is the request that this registry is sent about the tax id `t`.
    pub open spec fn request_for(self, t: TaxIdView, r: VerificationRequest) -> bool {
        match self {
            Verifier::Bfs => bfs_request(t, r),
            Verifier::Vies => vies_request(t, r),
            Verifier::Hmrc => hmrc_request(t, r),
            Verifier::BrReg => brreg_request(t, r),
        }
    }

    /// `r` is what this registry's decoder makes of `response`.
    pub open spec fn decodes(self, response: VerificationResponse, r: Result<Verification, VerificationError>) -> bool {
        match self {
            Verifier::Bfs => bfs_decoded(response, r),
            Verifier::Vies => vies_decoded(response, r),
            Verifier::Hmrc => hmrc_decoded(response, r),
            Verifier::BrReg => brreg_decoded(response, r),
        }
    }

    /// The request to send about `tax_id`.
    pub fn make_request(&self, tax_id: &TaxId) -> (r: VerificationRequest)
        ensures
            self.request_for(tax_id@, r),
    {
        match self {
            Verifier::Bfs => BFS.make_request(tax_id),
            Verifier::Vies => Vies.make_request(tax_id),
            Verifier::Hmrc => Hmrc.make_request(tax_id),
            Verifier::BrReg => BrReg.make_request(tax_id),
        }
    }

    /// Decodes the answer to a request of this registry.
    pub fn parse_response(&self, response: VerificationResponse) -> (r: Result<Verification, VerificationError>)
        ensures
            self.decodes(response, r),
    {
        match self {
            Verifier::Bfs => BFS.parse_response(response),
            Verifier::Vies => Vies.parse_response(response),
            Verifier::Hmrc => Hmrc.parse_response(response),
            Verifier::BrReg => BrReg.parse_response(response),
        }
    }
}

impl TaxIdType {
    /// The registry of this regime.
    pub open spec fn spec_registry(self) -> Verifier {
        match self {
            TaxIdType::Ch => Verifier::Bfs,
            TaxIdType::Eu => Verifier::Vies,
            TaxIdType::Gb => Verifier::Hmrc,
            TaxIdType::No => Verifier::BrReg,
        }
    }

    /// The registry of this regime.
    pub fn registry(&self) -> (r: Verifier)
        ensures
            r == self.spec_registry(),
    {
        match self {
            TaxIdType::Ch => Verifier::Bfs,
            TaxIdType::Eu => Verifier::Vies,
            TaxIdType::Gb => Verifier::Hmrc,
            TaxIdType::No => Verifier::BrReg,
        }
    }
}

impl TaxId {
    /// The request that checks this tax id with its regime's registry; the transport
    /// sends it and hands the answer to `parse_response`.
    pub fn make_request(&self) -> (r: VerificationRequest)
        ensures
            self@.id_type.spec_registry().request_for(self@, r),
    {
        self.id_type().registry().make_request(self)
    }

    /// Decodes the registry's answer to `make_request`.
    pub fn parse_response(&self, response: VerificationResponse) -> (r: Result<Verification, VerificationError>)
        ensures
            self@.id_type.spec_registry().decodes(response, r),
    {
        self.id_type().registry().parse_response(response)
    }
}

} // verus!
