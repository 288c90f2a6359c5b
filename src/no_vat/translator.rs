//! Renaming of the Norwegian member names of BRREG answers to English ones.
use vstd::prelude::*;
use crate::json::{Json, JsonView, view_of};
use crate::text::str_eq;

verus! {

/// The English name of a Norwegian member name of the entity register, if it has one.
pub open spec fn english_key(k: Seq<char>) -> Option<Seq<char>> {
    if k == "organisasjonsnummer"@ {
        Some("organizationNumber"@)
    } else if k == "navn"@ {
        Some("name"@)
    } else if k == "organisasjonsform"@ {
        Some("organizationForm"@)
    } else if k == "kode"@ {
        Some("code"@)
    } else if k == "beskrivelse"@ {
        Some("description"@)
    } else if k == "hjemmeside"@ {
        Some("website"@)
    } else if k == "epostadresse"@ {
        Some("email"@)
    } else if k == "telefon"@ {
        Some("phone"@)
    } else if k == "mobil"@ {
        Some("mobile"@)
    } else if k == "postadresse"@ {
        Some("postalAddress"@)
    } else if k == "forretningsadresse"@ {
        Some("businessAddress"@)
    } else if k == "beliggenhetsadresse"@ {
        Some("locationAddress"@)
    } else if k == "land"@ {
        Some("country"@)
    } else if k == "landkode"@ {
        Some("countryCode"@)
    } else if k == "postnummer"@ {
        Some("postalCode"@)
    } else if k == "poststed"@ {
        Some("city"@)
    } else if k == "adresse"@ {
        Some("street"@)
    } else if k == "kommune"@ {
        Some("municipality"@)
    } else if k == "kommunenummer"@ {
        Some("municipalityCode"@)
    } else if k == "stiftelsesdato"@ {
        Some("foundationDate"@)
    } else if k == "registreringsdatoEnhetsregisteret"@ {
        Some("registrationDate"@)
    } else if k == "registrertIMvaregisteret"@ {
        Some("registeredInVatRegister"@)
    } else if k == "registrertIForetaksregisteret"@ {
        Some("registeredInBusinessRegister"@)
    } else if k == "registrertIStiftelsesregisteret"@ {
        Some("registeredInFoundationRegister"@)
    } else if k == "registrertIFrivillighetsregisteret"@ {
        Some("registeredInVoluntaryRegister"@)
    } else if k == "naeringskode1"@ {
        Some("industryCode1"@)
    } else if k == "naeringskode2"@ {
        Some("industryCode2"@)
    } else if k == "naeringskode3"@ {
        Some("industryCode3"@)
    } else if k == "antallAnsatte"@ {
        Some("numberOfEmployees"@)
    } else if k == "harRegistrertAntallAnsatte"@ {
        Some("hasRegisteredNumberOfEmployees"@)
    } else if k == "overordnetEnhet"@ {
        Some("parentEntity"@)
    } else if k == "institusjonellSektorkode"@ {
        Some("institutionalSectorCode"@)
    } else if k == "konkurs"@ {
        Some("bankruptcy"@)
    } else if k == "konkursdato"@ {
        Some("bankruptcyDate"@)
    } else if k == "underAvvikling"@ {
        Some("underLiquidation"@)
    } else if k == "underAvviklingDato"@ {
        Some("liquidationDate"@)
    } else if k == "underTvangsavviklingEllerTvangsopplosning"@ {
        Some("underForcedLiquidation"@)
    } else if k == "sisteInnsendteAarsregnskap"@ {
        Some("lastSubmittedAnnualAccounts"@)
    } else if k == "vedtektsdato"@ {
        Some("articlesOfAssociationDate"@)
    } else if k == "vedtektsfestetFormaal"@ {
        Some("statutoryPurpose"@)
    } else if k == "aktivitet"@ {
        Some("activity"@)
    } else if k == "slettedato"@ {
        Some("deletionDate"@)
    } else {
        None
    }
}

/// A member name after renaming: its English name, or itself where it has none.
pub open spec fn renamed(k: Seq<char>) -> Seq<char> {
    match english_key(k) {
        Some(e) => e,
        None => k,
    }
}

/// `j` with every member name renamed, at any depth, inside objects and arrays alike;
/// order, values and everything else stay as they are.
pub open spec fn translated(j: JsonView) -> JsonView
    decreases j,
{
    match j {
        JsonView::Array(items) => JsonView::Array(
            Seq::new(
                items.len(),
                |i: int|
                    if 0 <= i < items.len() {
                        translated(items[i])
                    } else {
                        JsonView::Null
                    },
            ),
        ),
        JsonView::Object(es) => JsonView::Object(
            Seq::new(
                es.len(),
                |i: int|
                    if 0 <= i < es.len() {
                        (renamed(es[i].0), translated(es[i].1))
                    } else {
                        (Seq::empty(), JsonView::Null)
                    },
            ),
        ),
        _ => j,
    }
}

/// The English name of `k`, if the table has one.
pub fn english_key_of(k: &str) -> (r: Option<&'static str>)
    ensures
        match r {
            Some(e) => english_key(k@) == Some(e@),
            None => english_key(k@) is None,
        },
{
    if str_eq(k, "organisasjonsnummer") {
        Some("organizationNumber")
    } else if str_eq(k, "navn") {
        Some("name")
    } else if str_eq(k, "organisasjonsform") {
        Some("organizationForm")
    } else if str_eq(k, "kode") {
        Some("code")
    } else if str_eq(k, "beskrivelse") {
        Some("description")
    } else if str_eq(k, "hjemmeside") {
        Some("website")
    } else if str_eq(k, "epostadresse") {
        Some("email")
    } else if str_eq(k, "telefon") {
        Some("phone")
    } else if str_eq(k, "mobil") {
        Some("mobile")
    } else if str_eq(k, "postadresse") {
        Some("postalAddress")
    } else if str_eq(k, "forretningsadresse") {
        Some("businessAddress")
    } else if str_eq(k, "beliggenhetsadresse") {
        Some("locationAddress")
    } else if str_eq(k, "land") {
        Some("country")
    } else if str_eq(k, "landkode") {
        Some("countryCode")
    } else if str_eq(k, "postnummer") {
        Some("postalCode")
    } else if str_eq(k, "poststed") {
        Some("city")
    } else if str_eq(k, "adresse") {
        Some("street")
    } else if str_eq(k, "kommune") {
        Some("municipality")
    } else if str_eq(k, "kommunenummer") {
        Some("municipalityCode")
    } else if str_eq(k, "stiftelsesdato") {
        Some("foundationDate")
    } else if str_eq(k, "registreringsdatoEnhetsregisteret") {
        Some("registrationDate")
    } else if str_eq(k, "registrertIMvaregisteret") {
        Some("registeredInVatRegister")
    } else if str_eq(k, "registrertIForetaksregisteret") {
        Some("registeredInBusinessRegister")
    } else if str_eq(k, "registrertIStiftelsesregisteret") {
        Some("registeredInFoundationRegister")
    } else if str_eq(k, "registrertIFrivillighetsregisteret") {
        Some("registeredInVoluntaryRegister")
    } else if str_eq(k, "naeringskode1") {
        Some("industryCode1")
    } else if str_eq(k, "naeringskode2") {
        Some("industryCode2")
    } else if str_eq(k, "naeringskode3") {
        Some("industryCode3")
    } else if str_eq(k, "antallAnsatte") {
        Some("numberOfEmployees")
    } else if str_eq(k, "harRegistrertAntallAnsatte") {
        Some("hasRegisteredNumberOfEmployees")
    } else if str_eq(k, "overordnetEnhet") {
        Some("parentEntity")
    } else if str_eq(k, "institusjonellSektorkode") {
        Some("institutionalSectorCode")
    } else if str_eq(k, "konkurs") {
        Some("bankruptcy")
    } else if str_eq(k, "konkursdato") {
        Some("bankruptcyDate")
    } else if str_eq(k, "underAvvikling") {
        Some("underLiquidation")
    } else if str_eq(k, "underAvviklingDato") {
        Some("liquidationDate")
    } else if str_eq(k, "underTvangsavviklingEllerTvangsopplosning") {
        Some("underForcedLiquidation")
    } else if str_eq(k, "sisteInnsendteAarsregnskap") {
        Some("lastSubmittedAnnualAccounts")
    } else if str_eq(k, "vedtektsdato") {
        Some("articlesOfAssociationDate")
    } else if str_eq(k, "vedtektsfestetFormaal") {
        Some("statutoryPurpose")
    } else if str_eq(k, "aktivitet") {
        Some("activity")
    } else if str_eq(k, "slettedato") {
        Some("deletionDate")
    } else {
        None
    }
}

fn rename(k: &String) -> (r: String)
    ensures
        r@ == renamed(k@),
{
    match english_key_of(k.as_str()) {
        Some(e) => e.to_owned(),
        None => k.clone(),
    }
}

/// A renamed copy of `j`.
pub fn translate(j: &Json) -> (r: Json)
    ensures
        r@ == translated(j@),
    decreases j,
{
    match j {
        Json::Array(v) => {
            let mut out: Vec<Json> = Vec::new();
            let mut i: usize = 0;
            while i < v.len()
                invariant
                    i <= v@.len(),
                    out@.len() == i,
                    *j == Json::Array(*v),
                    forall|m: int|
                        0 <= m < i ==> view_of(#[trigger] out@[m]) == translated(view_of(v@[m])),
                decreases v@.len() - i,
            {
                assert(decreases_to!(*j => (*j)->Array_0));
                assert(decreases_to!(*v => v@));
                assert(decreases_to!(v@ => v@[i as int]));
                out.push(translate(&v[i]));
                i = i + 1;
            }
            let r = Json::Array(out);
            assert(r@->Array_0 =~= translated(j@)->Array_0);
            r
        },
        Json::Object(v) => {
            let mut out: Vec<(String, Json)> = Vec::new();
            let mut i: usize = 0;
            while i < v.len()
                invariant
                    i <= v@.len(),
                    out@.len() == i,
                    *j == Json::Object(*v),
                    forall|m: int|
                        0 <= m < i ==> (#[trigger] out@[m]).0@ == renamed(v@[m].0@) && view_of(
                            out@[m].1,
                        ) == translated(view_of(v@[m].1)),
                decreases v@.len() - i,
            {
                assert(decreases_to!(*j => (*j)->Object_0));
                assert(decreases_to!(*v => v@));
                assert(decreases_to!(v@ => v@[i as int]));
                assert(decreases_to!(v@[i as int] => v@[i as int].1));
                let k = rename(&v[i].0);
                let x = translate(&v[i].1);
                out.push((k, x));
                i = i + 1;
            }
            let r = Json::Object(out);
            assert(r@->Object_0 =~= translated(j@)->Object_0);
            r
        },
        _ => j.deep_clone(),
    }
}

/// Renames, in place, the member names of `obj` at any depth.
pub fn translate_keys(obj: &mut Json)
    ensures
        final(obj)@ == translated(old(obj)@),
{
    let t = translate(obj);
    *obj = t;
}

} // verus!
