//! Swiss VAT numbers, checked against BFS.
pub mod bfs;
pub mod syntax;

use vstd::prelude::*;
use crate::errors::ValidationError;
use crate::registry::Verifier;
use crate::tax_id::TaxIdType;

verus! {

/// The Swiss VAT regime.
#[derive(Debug, Clone, Copy)]
pub struct ChVat;

impl ChVat {
    /// The regime's name.
    pub fn name(&self) -> (r: &'static str)
        ensures
            r@ == "ch_vat"@,
    {
        "ch_vat"
    }

    /// Checks `value` against this regime's syntax map.
    pub fn validate_syntax(&self, value: &str) -> (r: Result<(), ValidationError>)
        ensures
            r is Ok <==> TaxIdType::Ch.verdict(value@) is Valid,
            r matches Err(e) ==> e.reports(TaxIdType::Ch.verdict(value@), value@),
    {
        TaxIdType::Ch.validate_syntax(value)
    }

    /// The country code of a tax id with the prefix `tax_country_code`.
    pub fn country_code_from_tax_country(&self, tax_country_code: &str) -> (r: String)
        ensures
            r@ == TaxIdType::Ch.country_of(tax_country_code@),
    {
        TaxIdType::Ch.country_code_from_tax_country(tax_country_code)
    }

    /// The registry that checks this regime's tax ids.
    pub fn registry(&self) -> (r: Verifier)
        ensures
            r == TaxIdType::Ch.spec_registry(),
    {
        TaxIdType::Ch.registry()
    }
}

} // verus!
