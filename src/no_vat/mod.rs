//! Norwegian VAT numbers, checked against BRREG.
pub mod brreg;
pub mod syntax;
pub mod translator;

use vstd::prelude::*;
use vstd::prelude::*;
use crate::errors::ValidationError;
use crate::registry::Verifier;
use crate::tax_id::TaxIdType;
use crate::tax_id::TaxId;

verus! {


/// The Norwegian VAT regime.
#[derive(Debug, Clone, Copy)]
pub struct NoVat;

impl NoVat {
    /// The regime's name.
    pub fn name(&self) -> (r: &'static str)
        ensures
            r@ == "no_vat"@,
    {
        "no_vat"
    }

    /// Checks `value` against this regime's syntax map.
    pub fn validate_syntax(&self, value: &str) -> (r: Result<(), ValidationError>)
        ensures
            r is Ok <==> TaxIdType::No.verdict(value@) is Valid,
            r matches Err(e) ==> e.reports(TaxIdType::No.verdict(value@), value@),
    {
        TaxIdType::No.validate_syntax(value)
    }

    /// The country code of a tax id with the prefix `tax_country_code`.
    pub fn country_code_from_tax_country(&self, tax_country_code: &str) -> (r: String)
        ensures
            r@ == TaxIdType::No.country_of(tax_country_code@),
    {
        TaxIdType::No.country_code_from_tax_country(tax_country_code)
    }

    /// The registry that checks this regime's tax ids.
    pub fn registry(&self) -> (r: Verifier)
        ensures
            r == TaxIdType::No.spec_registry(),
    {
        TaxIdType::No.registry()
    }
}

impl NoVat {
    /// `s` with every occurrence of `MVA` removed, scanning from the left.
    pub open spec fn spec_org_number(s: Seq<char>) -> Seq<char>
        decreases s.len(),
    {
        if s.len() < 3 {
            s
        } else if s[0] == 'M' && s[1] == 'V' && s[2] == 'A' {
            Self::spec_org_number(s.subrange(3, s.len() as int))
        } else {
            seq![s[0]] + Self::spec_org_number(s.subrange(1, s.len() as int))
        }
    }

    /// The organisation number of `tax_id`: its local part without the `MVA` suffix.
    pub fn extract_org_number(&self, tax_id: &TaxId) -> (r: String)
        ensures
            r@ == Self::spec_org_number(tax_id@.local_value),
    {
        let local = tax_id.local_value();
        let n = local.unicode_len();
        let mut out = String::new();
        let mut i: usize = 0;
        assert(local@.subrange(0, n as int) =~= local@);
        while i < n
            invariant
                i <= n,
                n == local@.len(),
                out@ + Self::spec_org_number(local@.subrange(i as int, n as int)) == Self::spec_org_number(local@),
            decreases n - i,
        {
            let ghost rest = local@.subrange(i as int, n as int);
            if n - i >= 3 && local.get_char(i) == 'M' && local.get_char(i + 1) == 'V' && local.get_char(i + 2) == 'A' {
                assert(rest.subrange(3, rest.len() as int) =~= local@.subrange(i + 3, n as int));
                i = i + 3;
            } else {
                let ghost old_out = out@;
                let ghost tail = local@.subrange(i + 1, n as int);
                assert(rest.subrange(1, rest.len() as int) =~= tail);
                assert(rest =~= seq![local@[i as int]] + tail);
                proof {
                    if rest.len() < 3 {
                        assert(Self::spec_org_number(tail) == tail);
                    }
                }
                out.append(local.substring_char(i, i + 1));
                assert(local@.subrange(i as int, i + 1) =~= seq![local@[i as int]]);
                assert(out@ + Self::spec_org_number(tail) =~= old_out + Self::spec_org_number(rest));
                i = i + 1;
            }
        }
        assert(local@.subrange(n as int, n as int) =~= Seq::<char>::empty());
        assert(out@ + Seq::<char>::empty() =~= out@);
        out
    }
}

} // verus!
