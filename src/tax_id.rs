//! Dispatch from a two-letter prefix to a tax regime, and the validated `TaxId` value.
use vstd::prelude::*;
use crate::errors::ValidationError;
use crate::text::{chars_from, is_digit, is_upper};
use crate::ch_vat::syntax::{ch_rest_syntax, ch_rest_ok};
use crate::eu_vat::syntax::{eu_country, eu_rest_syntax, is_eu_country, eu_rest_ok};
use crate::gb_vat::syntax::{gb_rest_syntax, gb_rest_ok};
use crate::no_vat::syntax::{no_rest_syntax, no_rest_ok};

verus! {

/// The supported tax regimes, each checked against one registry.
#[derive(Debug, Clone, Copy, PartialEq, Eq, Structural)]
pub enum TaxIdType {
    /// Swiss VAT, checked against the BFS UID register.
    Ch,
    /// VAT of the EU member states, checked against VIES.
    Eu,
    /// United Kingdom VAT, checked against HMRC.
    Gb,
    /// Norwegian VAT, checked against the BRREG entity register.
    No,
}

/// The regime that governs the prefix `ab`, if any.
pub open spec fn regime_of(a: char, b: char) -> Option<TaxIdType> {
    if a == 'G' && b == 'B' {
        Some(TaxIdType::Gb)
    } else if a == 'C' && b == 'H' {
        Some(TaxIdType::Ch)
    } else if a == 'N' && b == 'O' {
        Some(TaxIdType::No)
    } else if eu_country(a, b) {
        Some(TaxIdType::Eu)
    } else {
        None
    }
}

/// The legal country of a tax-country prefix: `XI` (Northern Ireland) is `GB`, `EL`
/// (Greece) is `GR`, every other prefix is its own country.
pub open spec fn normalized_country(cc: Seq<char>) -> Seq<char> {
    if cc == seq!['X', 'I'] {
        seq!['G', 'B']
    } else if cc == seq!['E', 'L'] {
        seq!['G', 'R']
    } else {
        cc
    }
}

/// What syntax validation concludes about a string.
pub enum SyntaxVerdict {
    TooShort,
    Unsupported,
    Invalid,
    Valid(TaxIdType),
}

impl TaxIdType {
    /// Whether this regime owns the prefix `ab`.
    pub open spec fn governs(self, a: char, b: char) -> bool {
        match self {
            TaxIdType::Ch => a == 'C' && b == 'H',
            TaxIdType::Eu => eu_country(a, b),
            TaxIdType::Gb => a == 'G' && b == 'B',
            TaxIdType::No => a == 'N' && b == 'O',
        }
    }

    /// The syntax that this regime requires after the prefix `ab`.
    pub open spec fn rest_syntax(self, a: char, b: char, r: Seq<char>) -> bool {
        match self {
            TaxIdType::Ch => ch_rest_syntax(r),
            TaxIdType::Eu => eu_rest_syntax(a, b, r),
            TaxIdType::Gb => gb_rest_syntax(r),
            TaxIdType::No => no_rest_syntax(r),
        }
    }

    /// The verdict of this regime's syntax map on `s`.
    pub open spec fn verdict(self, s: Seq<char>) -> SyntaxVerdict {
        if s.len() < 2 {
            SyntaxVerdict::TooShort
        } else if !self.governs(s[0], s[1]) {
            SyntaxVerdict::Unsupported
        } else if self.rest_syntax(s[0], s[1], s.subrange(2, s.len() as int)) {
            SyntaxVerdict::Valid(self)
        } else {
            SyntaxVerdict::Invalid
        }
    }

    /// The country code that a tax id of this regime with prefix `cc` belongs to.
    pub open spec fn country_of(self, cc: Seq<char>) -> Seq<char> {
        match self {
            TaxIdType::Eu => normalized_country(cc),
            _ => cc,
        }
    }

    pub open spec fn spec_name(self) -> Seq<char> {
        match self {
            TaxIdType::Ch => "ch_vat"@,
            TaxIdType::Eu => "eu_vat"@,
            TaxIdType::Gb => "gb_vat"@,
            TaxIdType::No => "no_vat"@,
        }
    }

    /// The regime's name.
    pub fn name(&self) -> (r: &'static str)
        ensures
            r@ == self.spec_name(),
    {
        match self {
            TaxIdType::Ch => "ch_vat",
            TaxIdType::Eu => "eu_vat",
            TaxIdType::Gb => "gb_vat",
            TaxIdType::No => "no_vat",
        }
    }

    pub fn owns(&self, a: char, b: char) -> (r: bool)
        ensures
            r == self.governs(a, b),
    {
        match self {
            TaxIdType::Ch => a == 'C' && b == 'H',
            TaxIdType::Eu => is_eu_country(a, b),
            TaxIdType::Gb => a == 'G' && b == 'B',
            TaxIdType::No => a == 'N' && b == 'O',
        }
    }

    fn rest_ok(&self, a: char, b: char, r: &Vec<char>) -> (ok: bool)
        ensures
            ok == self.rest_syntax(a, b, r@),
    {
        match self {
            TaxIdType::Ch => ch_rest_ok(r),
            TaxIdType::Eu => eu_rest_ok(a, b, r),
            TaxIdType::Gb => gb_rest_ok(r),
            TaxIdType::No => no_rest_ok(r),
        }
    }

    /// Checks `value` against this regime's syntax map: the prefix must be one that
    /// the regime owns, and the whole string must follow that prefix's syntax.
    pub fn validate_syntax(&self, value: &str) -> (r: Result<(), ValidationError>)
        ensures
            r is Ok <==> self.verdict(value@) is Valid,
            r matches Err(e) ==> e.reports(self.verdict(value@), value@),
    {
        let n = value.unicode_len();
        if n < 2 {
            return Err(ValidationError::TooShort);
        }
        let a = value.get_char(0);
        let b = value.get_char(1);
        if !self.owns(a, b) {
            return Err(ValidationError::UnsupportedCountryCode(value.substring_char(0, 2).to_owned()));
        }
        let rest = chars_from(value, 2);
        if self.rest_ok(a, b, &rest) {
            Ok(())
        } else {
            Err(ValidationError::InvalidSyntax)
        }
    }

    /// Maps a tax-country prefix to the country code of the tax id.
    pub fn country_code_from_tax_country(&self, tax_country_code: &str) -> (r: String)
        ensures
            r@ == self.country_of(tax_country_code@),
    {
        match self {
            TaxIdType::Eu => normalize_country(tax_country_code),
            _ => tax_country_code.to_owned(),
        }
    }
}

/// `normalized_country` as executable code.
pub fn normalize_country(cc: &str) -> (r: String)
    ensures
        r@ == normalized_country(cc@),
{
    let n = cc.unicode_len();
    if n == 2 {
        let a = cc.get_char(0);
        let b = cc.get_char(1);
        if a == 'X' && b == 'I' {
            proof {
                reveal_strlit("GB");
                assert(cc@ =~= seq!['X', 'I']);
            }
            return String::from_str("GB");
        }
        if a == 'E' && b == 'L' {
            proof {
                reveal_strlit("GR");
                assert(cc@ =~= seq!['E', 'L']);
            }
            return String::from_str("GR");
        }
    }
    cc.to_owned()
}

impl ValidationError {
    /// This error is the one that `verdict` calls for on the string `s`.
    pub open spec fn reports(self, verdict: SyntaxVerdict, s: Seq<char>) -> bool {
        match self {
            ValidationError::TooShort => verdict is TooShort,
            ValidationError::UnsupportedCountryCode(c) => verdict is Unsupported && c@ == s.subrange(0, 2),
            ValidationError::InvalidSyntax => verdict is Invalid,
        }
    }
}


/// The verdict of the registry of all regimes on `s`: the prefix selects the regime,
/// whose syntax the string must then follow.
pub open spec fn verdict(s: Seq<char>) -> SyntaxVerdict {
    if s.len() < 2 {
        SyntaxVerdict::TooShort
    } else {
        match regime_of(s[0], s[1]) {
            None => SyntaxVerdict::Unsupported,
            Some(t) => t.verdict(s),
        }
    }
}

/// The regime that governs the prefix `ab`, if any.
pub fn regime_for(a: char, b: char) -> (r: Option<TaxIdType>)
    ensures
        r == regime_of(a, b),
{
    if a == 'G' && b == 'B' {
        Some(TaxIdType::Gb)
    } else if a == 'C' && b == 'H' {
        Some(TaxIdType::Ch)
    } else if a == 'N' && b == 'O' {
        Some(TaxIdType::No)
    } else if is_eu_country(a, b) {
        Some(TaxIdType::Eu)
    } else {
        None
    }
}

/// A tax id whose syntax has been validated, with its prefix, country and regime.
#[derive(Debug)]
pub struct TaxId {
    value: String,
    country_code: String,
    tax_country_code: String,
    local_value: String,
    id_type: TaxIdType,
}

/// The mathematical content of a `TaxId`.
pub struct TaxIdView {
    pub value: Seq<char>,
    pub country_code: Seq<char>,
    pub tax_country_code: Seq<char>,
    pub local_value: Seq<char>,
    pub id_type: TaxIdType,
}

/// The tax id that `TaxId::new` makes of the valid string `s` of regime `t`.
pub open spec fn tax_id_of(s: Seq<char>, t: TaxIdType) -> TaxIdView {
    TaxIdView {
        value: s,
        country_code: t.country_of(s.subrange(0, 2)),
        tax_country_code: s.subrange(0, 2),
        local_value: s.subrange(2, s.len() as int),
        id_type: t,
    }
}

impl View for TaxId {
    type V = TaxIdView;

    closed spec fn view(&self) -> TaxIdView {
        TaxIdView {
            value: self.value@,
            country_code: self.country_code@,
            tax_country_code: self.tax_country_code@,
            local_value: self.local_value@,
            id_type: self.id_type,
        }
    }
}

impl TaxId {
    /// Every `TaxId` is one that `new` accepted.
    pub closed spec fn wf(&self) -> bool {
        self.value@.len() >= 2 && verdict(self.value@) == SyntaxVerdict::Valid(self.id_type)
            && self@ == tax_id_of(self.value@, self.id_type)
    }

    /// Checks `value` against the syntax of the regime that its prefix selects.
    pub fn validate_syntax(value: &str) -> (r: Result<(), ValidationError>)
        ensures
            r is Ok <==> verdict(value@) is Valid,
            r matches Err(e) ==> e.reports(verdict(value@), value@),
    {
        let n = value.unicode_len();
        if n < 2 {
            return Err(ValidationError::TooShort);
        }
        match regime_for(value.get_char(0), value.get_char(1)) {
            None => Err(
                ValidationError::UnsupportedCountryCode(value.substring_char(0, 2).to_owned()),
            ),
            Some(t) => t.validate_syntax(value),
        }
    }

    /// Validates `value` and splits it into prefix and local part.
    pub fn new(value: &str) -> (r: Result<TaxId, ValidationError>)
        ensures
            r is Ok <==> verdict(value@) is Valid,
            r matches Ok(id) ==> id.wf() && verdict(value@) == SyntaxVerdict::Valid(id@.id_type)
                && id@ == tax_id_of(value@, id@.id_type),
            r matches Err(e) ==> e.reports(verdict(value@), value@),
    {
        let n = value.unicode_len();
        if n < 2 {
            return Err(ValidationError::TooShort);
        }
        let tax_country_code = value.substring_char(0, 2);
        let id_type = match regime_for(value.get_char(0), value.get_char(1)) {
            None => {
                return Err(ValidationError::UnsupportedCountryCode(tax_country_code.to_owned()));
            },
            Some(t) => t,
        };
        match id_type.validate_syntax(value) {
            Err(e) => Err(e),
            Ok(()) => {
                let id = TaxId {
                    country_code: id_type.country_code_from_tax_country(tax_country_code),
                    value: value.to_owned(),
                    tax_country_code: tax_country_code.to_owned(),
                    local_value: value.substring_char(2, n).to_owned(),
                    id_type,
                };
                Ok(id)
            },
        }
    }

    /// The full tax id, as given.
    pub fn value(&self) -> (r: &str)
        ensures
            r@ == self@.value,
    {
        self.value.as_str()
    }

    /// The legal country (`XI` gives `GB`, `EL` gives `GR`).
    pub fn country_code(&self) -> (r: &str)
        ensures
            r@ == self@.country_code,
    {
        self.country_code.as_str()
    }

    /// The two-letter prefix, which selected the regime.
    pub fn tax_country_code(&self) -> (r: &str)
        ensures
            r@ == self@.tax_country_code,
    {
        self.tax_country_code.as_str()
    }

    /// What follows the prefix.
    pub fn local_value(&self) -> (r: &str)
        ensures
            r@ == self@.local_value,
    {
        self.local_value.as_str()
    }

    /// The name of the regime.
    pub fn tax_id_type(&self) -> (r: &'static str)
        ensures
            r@ == self@.id_type.spec_name(),
    {
        self.id_type.name()
    }

    /// The regime.
    pub fn id_type(&self) -> (r: TaxIdType)
        ensures
            r == self@.id_type,
    {
        self.id_type
    }
}

} // verus!

verus! {

/// `n` ones.
pub open spec fn ones(n: nat) -> Seq<char> {
    Seq::new(n, |i: int| '1')
}

/// A short valid tax id for each supported prefix `ab`.
pub open spec fn sample(a: char, b: char) -> Seq<char> {
    seq![a, b] + sample_rest(a, b)
}

/// What follows the prefix in `sample`.
pub open spec fn sample_rest(a: char, b: char) -> Seq<char> {
    if a == 'A' && b == 'T' {
        seq!['U'] + ones(8)
    } else if a == 'C' && b == 'Y' {
        ones(8) + seq!['A']
    } else if a == 'I' && b == 'E' {
        ones(7) + seq!['A']
    } else if a == 'E' && b == 'E' {
        seq!['1', '0'] + ones(7)
    } else if a == 'E' && b == 'S' {
        seq!['A'] + ones(8)
    } else if a == 'N' && b == 'L' {
        ones(9) + seq!['B'] + ones(2)
    } else if a == 'S' && b == 'E' {
        ones(10) + seq!['0', '1']
    } else if a == 'C' && b == 'H' {
        seq!['E'] + ones(9)
    } else if a == 'R' && b == 'O' {
        ones(2)
    } else if (a == 'B' && b == 'E') || (a == 'P' && b == 'L') || (a == 'S' && b == 'K') {
        ones(10)
    } else if (a == 'C' && b == 'Z') || (a == 'D' && b == 'K') || (a == 'F' && b == 'I') || (a
        == 'H' && b == 'U') || (a == 'L' && b == 'U') || (a == 'M' && b == 'T') || (a == 'S' && b
        == 'I') {
        ones(8)
    } else if (a == 'F' && b == 'R') || (a == 'H' && b == 'R') || (a == 'I' && b == 'T') || (a
        == 'L' && b == 'V') {
        ones(11)
    } else {
        ones(9)
    }
}

/// Every supported prefix has a valid tax id: the sample for that prefix passes
/// syntax validation, under the regime that the prefix selects.
pub proof fn lemma_supported_prefixes_have_valid_samples(a: char, b: char)
    requires
        regime_of(a, b) is Some,
    ensures
        sample(a, b).len() >= 2,
        sample(a, b)[0] == a && sample(a, b)[1] == b,
        verdict(sample(a, b)) == SyntaxVerdict::Valid(regime_of(a, b)->0),
{
    let s = sample(a, b);
    let r = sample_rest(a, b);
    assert(s.subrange(2, s.len() as int) =~= r);
    let t = regime_of(a, b)->0;
    if a == 'A' && b == 'T' {
        assert(forall|i: int| 1 <= i < 9 ==> r[i] == '1');
    } else if a == 'C' && b == 'Y' {
        assert(forall|i: int| 0 <= i < 8 ==> r[i] == '1');
        assert(r[8] == 'A');
    } else if a == 'I' && b == 'E' {
        assert(forall|i: int| 0 <= i < 7 ==> r[i] == '1');
        assert(r[7] == 'A');
    } else if a == 'E' && b == 'E' {
        assert(r[0] == '1' && r[1] == '0');
        assert(forall|i: int| 2 <= i < 9 ==> r[i] == '1');
    } else if a == 'E' && b == 'S' {
        assert(r[0] == 'A');
        assert(forall|i: int| 1 <= i < 9 ==> r[i] == '1');
    } else if a == 'N' && b == 'L' {
        assert(forall|i: int| 0 <= i < 9 ==> r[i] == '1');
        assert(r[9] == 'B' && r[10] == '1' && r[11] == '1');
    } else if a == 'S' && b == 'E' {
        assert(forall|i: int| 0 <= i < 10 ==> r[i] == '1');
        assert(r[10] == '0' && r[11] == '1');
    } else if a == 'C' && b == 'H' {
        assert(r[0] == 'E');
        assert(forall|i: int| 1 <= i < 10 ==> r[i] == '1');
    } else {
        assert(forall|i: int| 0 <= i < r.len() ==> r[i] == '1');
    }
    assert(t.rest_syntax(a, b, r));
}

/// A string whose prefix is supported but which breaks that prefix's syntax is
/// rejected as invalid syntax, never as an unsupported prefix.
pub proof fn lemma_broken_pattern_is_invalid(s: Seq<char>)
    requires
        s.len() >= 2,
        regime_of(s[0], s[1]) is Some,
        !regime_of(s[0], s[1])->0.rest_syntax(s[0], s[1], s.subrange(2, s.len() as int)),
    ensures
        verdict(s) == SyntaxVerdict::Invalid,
        forall|e: ValidationError| #[trigger] e.reports(verdict(s), s) ==> e is InvalidSyntax,
{
}

/// A string whose two-letter prefix no regime governs is rejected as unsupported,
/// never as invalid syntax, whatever follows the prefix.
pub proof fn lemma_unknown_prefix_is_unsupported(s: Seq<char>)
    requires
        s.len() >= 2,
        regime_of(s[0], s[1]) is None,
    ensures
        verdict(s) == SyntaxVerdict::Unsupported,
        forall|e: ValidationError| #[trigger] e.reports(verdict(s), s) ==> (e matches ValidationError::UnsupportedCountryCode(c)
            && c@ == s.subrange(0, 2)),
{
}

/// Each prefix belongs to at most one regime, and `regime_of` picks exactly that one.
pub proof fn lemma_regimes_disjoint(a: char, b: char, t: TaxIdType)
    ensures
        t.governs(a, b) <==> regime_of(a, b) == Some(t),
{
}

/// Country-code normalization maps `XI` to `GB` and `EL` to `GR`, leaves every other
/// code as it is, and is idempotent; the regime of a prefix normalizes it the same way.
pub proof fn lemma_normalization(cc: Seq<char>)
    ensures
        cc == seq!['X', 'I'] ==> normalized_country(cc) == seq!['G', 'B'],
        cc == seq!['E', 'L'] ==> normalized_country(cc) == seq!['G', 'R'],
        cc != seq!['X', 'I'] && cc != seq!['E', 'L'] ==> normalized_country(cc) == cc,
        normalized_country(normalized_country(cc)) == normalized_country(cc),
        cc.len() == 2 && regime_of(cc[0], cc[1]) is Some ==> regime_of(cc[0], cc[1])->0.country_of(cc)
            == normalized_country(cc),
{
    assert(seq!['G', 'B'] != seq!['X', 'I']);
    assert(seq!['G', 'B'][0] != seq!['E', 'L'][0]);
    assert(seq!['G', 'R'][0] != seq!['X', 'I'][0]);
    assert(seq!['G', 'R'][0] != seq!['E', 'L'][0]);
    if cc.len() == 2 && regime_of(cc[0], cc[1]) is Some {
        if cc == seq!['X', 'I'] || cc == seq!['E', 'L'] {
            assert(cc[0] == 'X' || cc[0] == 'E');
        }
    }
}

} // verus!
