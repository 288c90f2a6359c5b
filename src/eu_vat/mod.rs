//! VAT numbers of the EU member states, checked against VIES.
pub mod syntax;
pub mod vies;

use vstd::prelude::*;
use crate::errors::ValidationError;
use crate::registry::Verifier;
use crate::tax_id::TaxIdType;
use crate::eu_vat::syntax::eu_country;

verus! {

/// The prefixes of the member states (and of Northern Ireland), in alphabetical order.
pub fn countries() -> (r: Vec<&'static str>)
    ensures
        r@.len() == 28,
        forall|i: int| 0 <= i < r@.len() ==> (#[trigger] r@[i])@.len() == 2 && eu_country(r@[i]@[0], r@[i]@[1]),
        forall|a: char, b: char| eu_country(a, b) ==> exists|i: int| 0 <= i < r@.len() && (#[trigger] r@[i])@ == seq![a, b],
{
    let r = vec!["AT", "BE", "BG", "CY", "CZ", "DE", "DK", "EE", "EL", "ES", "FI", "FR", "HR", "HU", "IE", "IT", "LT", "LU", "LV", "MT", "NL", "PL", "PT", "RO", "SE", "SI", "SK", "XI"];
    proof {
        reveal_strlit("AT");
        reveal_strlit("BE");
        reveal_strlit("BG");
        reveal_strlit("CY");
        reveal_strlit("CZ");
        reveal_strlit("DE");
        reveal_strlit("DK");
        reveal_strlit("EE");
        reveal_strlit("EL");
        reveal_strlit("ES");
        reveal_strlit("FI");
        reveal_strlit("FR");
        reveal_strlit("HR");
        reveal_strlit("HU");
        reveal_strlit("IE");
        reveal_strlit("IT");
        reveal_strlit("LT");
        reveal_strlit("LU");
        reveal_strlit("LV");
        reveal_strlit("MT");
        reveal_strlit("NL");
        reveal_strlit("PL");
        reveal_strlit("PT");
        reveal_strlit("RO");
        reveal_strlit("SE");
        reveal_strlit("SI");
        reveal_strlit("SK");
        reveal_strlit("XI");
    }
    assert forall|a: char, b: char| eu_country(a, b) implies exists|i: int| 0 <= i < r@.len() && (#[trigger] r@[i])@ == seq![a, b] by {
        if a == 'A' && b == 'T' {
            assert(r@[0]@ =~= seq![a, b]);
        } else if a == 'B' && b == 'E' {
            assert(r@[1]@ =~= seq![a, b]);
        } else if a == 'B' && b == 'G' {
            assert(r@[2]@ =~= seq![a, b]);
        } else if a == 'C' && b == 'Y' {
            assert(r@[3]@ =~= seq![a, b]);
        } else if a == 'C' && b == 'Z' {
            assert(r@[4]@ =~= seq![a, b]);
        } else if a == 'D' && b == 'E' {
            assert(r@[5]@ =~= seq![a, b]);
        } else if a == 'D' && b == 'K' {
            assert(r@[6]@ =~= seq![a, b]);
        } else if a == 'E' && b == 'E' {
            assert(r@[7]@ =~= seq![a, b]);
        } else if a == 'E' && b == 'L' {
            assert(r@[8]@ =~= seq![a, b]);
        } else if a == 'E' && b == 'S' {
            assert(r@[9]@ =~= seq![a, b]);
        } else if a == 'F' && b == 'I' {
            assert(r@[10]@ =~= seq![a, b]);
        } else if a == 'F' && b == 'R' {
            assert(r@[11]@ =~= seq![a, b]);
        } else if a == 'H' && b == 'R' {
            assert(r@[12]@ =~= seq![a, b]);
        } else if a == 'H' && b == 'U' {
            assert(r@[13]@ =~= seq![a, b]);
        } else if a == 'I' && b == 'E' {
            assert(r@[14]@ =~= seq![a, b]);
        } else if a == 'I' && b == 'T' {
            assert(r@[15]@ =~= seq![a, b]);
        } else if a == 'L' && b == 'T' {
            assert(r@[16]@ =~= seq![a, b]);
        } else if a == 'L' && b == 'U' {
            assert(r@[17]@ =~= seq![a, b]);
        } else if a == 'L' && b == 'V' {
            assert(r@[18]@ =~= seq![a, b]);
        } else if a == 'M' && b == 'T' {
            assert(r@[19]@ =~= seq![a, b]);
        } else if a == 'N' && b == 'L' {
            assert(r@[20]@ =~= seq![a, b]);
        } else if a == 'P' && b == 'L' {
            assert(r@[21]@ =~= seq![a, b]);
        } else if a == 'P' && b == 'T' {
            assert(r@[22]@ =~= seq![a, b]);
        } else if a == 'R' && b == 'O' {
            assert(r@[23]@ =~= seq![a, b]);
        } else if a == 'S' && b == 'E' {
            assert(r@[24]@ =~= seq![a, b]);
        } else if a == 'S' && b == 'I' {
            assert(r@[25]@ =~= seq![a, b]);
        } else if a == 'S' && b == 'K' {
            assert(r@[26]@ =~= seq![a, b]);
        } else if a == 'X' && b == 'I' {
            assert(r@[27]@ =~= seq![a, b]);
        }
    }
    r
}

/// The VAT regime of the EU member states.
#[derive(Debug, Clone, Copy)]
pub struct EuVat;

impl EuVat {
    /// The regime's name.
    pub fn name(&self) -> (r: &'static str)
        ensures
            r@ == "eu_vat"@,
    {
        "eu_vat"
    }

    /// Checks `value` against this regime's syntax map.
    pub fn validate_syntax(&self, value: &str) -> (r: Result<(), ValidationError>)
        ensures
            r is Ok <==> TaxIdType::Eu.verdict(value@) is Valid,
            r matches Err(e) ==> e.reports(TaxIdType::Eu.verdict(value@), value@),
    {
        TaxIdType::Eu.validate_syntax(value)
    }

    /// The country code of a tax id with the prefix `tax_country_code`.
    pub fn country_code_from_tax_country(&self, tax_country_code: &str) -> (r: String)
        ensures
            r@ == TaxIdType::Eu.country_of(tax_country_code@),
    {
        TaxIdType::Eu.country_code_from_tax_country(tax_country_code)
    }

    /// The registry that checks this regime's tax ids.
    pub fn registry(&self) -> (r: Verifier)
        ensures
            r == TaxIdType::Eu.spec_registry(),
    {
        TaxIdType::Eu.registry()
    }

    /// The prefixes that this regime holds a syntax for.
    pub fn syntax_codes(&self) -> (r: Vec<&'static str>)
        ensures
            r@.len() == 28,
            forall|i: int| 0 <= i < r@.len() ==> (#[trigger] r@[i])@.len() == 2 && TaxIdType::Eu.governs(r@[i]@[0], r@[i]@[1]),
            forall|a: char, b: char| TaxIdType::Eu.governs(a, b) ==> exists|i: int| 0 <= i < r@.len() && (#[trigger] r@[i])@ == seq![a, b],
    {
        countries()
    }
}

} // verus!
