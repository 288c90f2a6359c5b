//! United Kingdom VAT numbers, checked against HMRC.
pub mod hmrc;
pub mod syntax;

use vstd::prelude::*;
use crate::errors::ValidationError;
use crate::registry::Verifier;
use crate::tax_id::TaxIdType;

verus! {

/// The United Kingdom VAT regime.
#[derive(Debug, Clone, Copy)]
pub struct GbVat;

impl GbVat {
    /// The regime's name.
    pub fn name(&self) -> (r: &'static str)
        ensures
            r@ == "gb_vat"@,
    {
        "gb_vat"
    }

    /// Checks `value` against this regime's syntax map.
    pub fn validate_syntax(&self, value: &str) -> (r: Result<(), ValidationError>)
        ensures
            r is Ok <==> TaxIdType::Gb.verdict(value@) is Valid,
            r matches Err(e) ==> e.reports(TaxIdType::Gb.verdict(value@), value@),
    {
        TaxIdType::Gb.validate_syntax(value)
    }

    /// The country code of a tax id with the prefix `tax_country_code`.
    pub fn country_code_from_tax_country(&self, tax_country_code: &str) -> (r: String)
        ensures
            r@ == TaxIdType::Gb.country_of(tax_country_code@),
    {
        TaxIdType::Gb.country_code_from_tax_country(tax_country_code)
    }

    /// The registry that checks this regime's tax ids.
    pub fn registry(&self) -> (r: Verifier)
        ensures
            r == TaxIdType::Gb.spec_registry(),
    {
        TaxIdType::Gb.registry()
    }
}

/// The United Kingdom VAT regime, with a syntax check that answers yes or no.
#[derive(Debug, Clone, Copy)]
pub struct GBVat;

impl GBVat {
    /// The regime's name.
    pub fn name(&self) -> (r: &'static str)
        ensures
            r@ == "gb_vat"@,
    {
        "gb_vat"
    }

    /// Whether `value` is a syntactically valid UK VAT number.
    pub fn ensure_valid_syntax(&self, value: &str) -> (r: bool)
        ensures
            r == (TaxIdType::Gb.verdict(value@) is Valid),
    {
        TaxIdType::Gb.validate_syntax(value).is_ok()
    }

    /// The country code of a tax id with the prefix `tax_country_code`.
    pub fn country_code_from(&self, tax_country_code: &str) -> (r: String)
        ensures
            r@ == tax_country_code@,
    {
        tax_country_code.to_owned()
    }
}

} // verus!
