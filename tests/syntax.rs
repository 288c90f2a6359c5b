use tax_ids::ch_vat::ChVat;
use tax_ids::eu_vat::{countries, EuVat};
use tax_ids::gb_vat::{GBVat, GbVat};
use tax_ids::no_vat::NoVat;
use tax_ids::ValidationError;

fn assert_validations(valid_vat_numbers: Vec<&str>, invalid_vat_numbers: Vec<&str>) {
    for vat_number in valid_vat_numbers {
        let valid_syntax = EuVat::validate_syntax(&EuVat, vat_number);
        assert_eq!(valid_syntax, Ok(()), "Expected valid VAT number, got invalid: {}", vat_number);
    }

    for vat_number in invalid_vat_numbers {
        let valid_syntax = EuVat::validate_syntax(&EuVat, vat_number);
        assert_eq!(valid_syntax, Err(ValidationError::InvalidSyntax));
    }
}

#[test]
fn test_at_vat() {
    let valid_vat_numbers = vec!["ATU12345678", "ATU87654321"];
    let invalid_vat_numbers = vec!["AT12345678", "ATU1234567", "ATU123456789", "ATU1234567A"];

    assert_validations(valid_vat_numbers, invalid_vat_numbers);
}

#[test]
fn test_be_vat() {
    let valid_vat_numbers = vec!["BE0123456789", "BE0987654321"];
    let invalid_vat_numbers = vec!["BE123456789", "BE012345678", "BE01234567890", "BE012345678A"];

    assert_validations(valid_vat_numbers, invalid_vat_numbers);
}

#[test]
fn test_bg_vat() {
    let valid_vat_numbers = vec!["BG123456789", "BG1234567890"];
    let invalid_vat_numbers = vec!["BG12345678", "BG12345678901", "BG12345678A"];

    assert_validations(valid_vat_numbers, invalid_vat_numbers);
}

#[test]
fn test_cy_vat() {
    let valid_vat_numbers = vec!["CY12345678A", "CY98765432Z"];
    let invalid_vat_numbers = vec!["CY12345678", "CY1234567A", "CY123456789A", "CY12345678AA"];

    assert_validations(valid_vat_numbers, invalid_vat_numbers);
}

#[test]
fn test_cz_vat() {
    let valid_vat_numbers = vec!["CZ12345678", "CZ123456789", "CZ1234567890"];
    let invalid_vat_numbers = vec!["CZ1234567", "CZ12345678901", "CZ12345678A"];

    assert_validations(valid_vat_numbers, invalid_vat_numbers);
}

#[test]
fn test_de_vat() {
    let valid_vat_numbers = vec!["DE123456789", "DE987654321"];
    let invalid_vat_numbers = vec!["DE12345678", "DE1234567890", "DE12345678A"];

    assert_validations(valid_vat_numbers, invalid_vat_numbers);
}

#[test]
fn test_dk_vat() {
    let valid_vat_numbers = vec!["DK12345678"];
    let invalid_vat_numbers = vec!["DK1234567", "DK123456789", "DK1234567A"];

    assert_validations(valid_vat_numbers, invalid_vat_numbers);
}

#[test]
fn test_ee_vat() {
    let valid_vat_numbers = vec!["EE101234567"];
    let invalid_vat_numbers = vec!["EE10123456", "EE1012345678", "EE10123456A"];

    assert_validations(valid_vat_numbers, invalid_vat_numbers);
}

#[test]
fn test_el_vat() {
    let valid_vat_numbers = vec!["EL123456789"];
    let invalid_vat_numbers = vec!["EL12345678", "EL1234567890", "EL12345678A"];

    assert_validations(valid_vat_numbers, invalid_vat_numbers);
}

#[test]
fn test_es_vat() {
    let valid_vat_numbers = vec!["ESX12345678", "ES12345678Z", "ESX1234567Z"];
    let invalid_vat_numbers = vec!["ES12345678", "ESX123456789", "ES12345678ZZ"];

    assert_validations(valid_vat_numbers, invalid_vat_numbers);
}

#[test]
fn test_fi_vat() {
    let valid_vat_numbers = vec!["FI12345678"];
    let invalid_vat_numbers = vec!["FI1234567", "FI123456789", "FI1234567A"];

    assert_validations(valid_vat_numbers, invalid_vat_numbers);
}

#[test]
fn test_fr_vat() {
    let valid_vat_numbers = vec!["FR12345678901", "FRX1234567890"];
    let invalid_vat_numbers = vec!["FR1234567890", "FR123456789012", "FR1234567890A"];

    assert_validations(valid_vat_numbers, invalid_vat_numbers);
}

#[test]
fn test_hr_vat() {
    let valid_vat_numbers = vec!["HR12345678901"];
    let invalid_vat_numbers = vec!["HR1234567890", "HR123456789012", "HR1234567890A"];

    assert_validations(valid_vat_numbers, invalid_vat_numbers);
}

#[test]
fn test_hu_vat() {
    let valid_vat_numbers = vec!["HU12345678"];
    let invalid_vat_numbers = vec!["HU1234567", "HU123456789", "HU1234567A"];

    assert_validations(valid_vat_numbers, invalid_vat_numbers);
}

#[test]
fn test_ie_vat() {
    let valid_vat_numbers = vec!["IE1234567A", "IE1A23456A", "IE1234567AA"];
    let invalid_vat_numbers = vec!["IE1234567", "IE12345678A", "IE1234567AAA"];

    assert_validations(valid_vat_numbers, invalid_vat_numbers);
}

#[test]
fn test_it_vat() {
    let valid_vat_numbers = vec!["IT12345678901"];
    let invalid_vat_numbers = vec!["IT1234567890", "IT123456789012", "IT1234567890A"];

    assert_validations(valid_vat_numbers, invalid_vat_numbers);
}

#[test]
fn test_lt_vat() {
    let valid_vat_numbers = vec!["LT999999919", "LT999999919"];
    let invalid_vat_numbers = vec!["LT12345678", "LT12345678901", "LT12345678A"];

    assert_validations(valid_vat_numbers, invalid_vat_numbers);
}

#[test]
fn test_lu_vat() {
    let valid_vat_numbers = vec!["LU12345678"];
    let invalid_vat_numbers = vec!["LU1234567", "LU123456789", "LU1234567A"];

    assert_validations(valid_vat_numbers, invalid_vat_numbers);
}

#[test]
fn test_lv_vat() {
    let valid_vat_numbers = vec!["LV12345678901"];
    let invalid_vat_numbers = vec!["LV1234567890", "LV123456789012", "LV1234567890A"];

    assert_validations(valid_vat_numbers, invalid_vat_numbers);
}

#[test]
fn test_mt_vat() {
    let valid_vat_numbers = vec!["MT12345678"];
    let invalid_vat_numbers = vec!["MT1234567", "MT123456789", "MT1234567A"];

    assert_validations(valid_vat_numbers, invalid_vat_numbers);
}

#[test]
fn test_nl_vat() {
    let valid_vat_numbers = vec!["NL123456789B01"];
    let invalid_vat_numbers = vec!["NL123456789B0", "NL123456789B012", "NL123456789B0A"];

    assert_validations(valid_vat_numbers, invalid_vat_numbers);
}

#[test]
fn test_pl_vat() {
    let valid_vat_numbers = vec!["PL1234567890"];
    let invalid_vat_numbers = vec!["PL123456789", "PL12345678901", "PL123456789A"];

    assert_validations(valid_vat_numbers, invalid_vat_numbers);
}

#[test]
fn test_pt_vat() {
    let valid_vat_numbers = vec!["PT123456789"];
    let invalid_vat_numbers = vec!["PT12345678", "PT1234567890", "PT12345678A"];

    assert_validations(valid_vat_numbers, invalid_vat_numbers);
}

#[test]
fn test_ro_vat() {
    let valid_vat_numbers = vec!["RO99999999", "RO999999999"];
    let invalid_vat_numbers = vec!["RO12345678910", "RO12345678901", "RO12345678A"];

    assert_validations(valid_vat_numbers, invalid_vat_numbers);
}

#[test]
fn test_se_vat() {
    let valid_vat_numbers = vec!["SE123456789101"];
    let invalid_vat_numbers = vec!["SE12345678900", "SE123456789002", "SE12345678900A"];

    assert_validations(valid_vat_numbers, invalid_vat_numbers);
}

#[test]
fn test_si_vat() {
    let valid_vat_numbers = vec!["SI12345678"];
    let invalid_vat_numbers = vec!["SI1234567", "SI123456789", "SI1234567A"];

    assert_validations(valid_vat_numbers, invalid_vat_numbers);
}

#[test]
fn test_sk_vat() {
    let valid_vat_numbers = vec!["SK1234567890"];
    let invalid_vat_numbers = vec!["SK123456789", "SK12345678901", "SK123456789A"];

    assert_validations(valid_vat_numbers, invalid_vat_numbers);
}

#[test]
fn test_xi_vat() {
    let valid_vat_numbers = vec!["XI123456789", "XI987654321", "XIHA123", "XIGD123"];
    let invalid_vat_numbers = vec!["XI12345678", "XI1234567890", "XI12345678A"];

    assert_validations(valid_vat_numbers, invalid_vat_numbers);
}

#[test]
fn test_each_eu_country_has_a_regex() {
    let mut eu_regex_countries = EuVat.syntax_codes();
    eu_regex_countries.sort();
    assert_eq!(eu_regex_countries, countries());
}

#[test]
fn test_ch_vats() {
    let valid_vat_numbers = vec![
        "CHE-778.887.921",
        "CHE-778.887.921 MWST",
        "CHE778887921",
        "CHE778887921 MWST",
        "CHE-778.887.921",
        "CHE-778.887.921 TVA",
        "CHE778887921",
        "CHE778887921 TVA",
        "CHE-778.887.921",
        "CHE-778.887.921 IVA",
        "CHE778887921",
        "CHE778887921 IVA",
    ];
    let invalid_vat_numbers = vec![
        "CHE-778.887.921MWST",
        "CHE778887921MWST",
        "CHE-778.887.921TVA",
        "CHE778887921TVA",
        "CHE-778.887.921IVA",
        "CHE778887921IVA",
        "CHE-778.887.9211",
        "CHE-778.887.9211MWST",
        "CHE-778.887.9211 MWST",
        "CHE-34.887.921",
        "CHE-34.887.921MWST",
        "CHE-34.887.921 MWST",
        "CHE-778.887.9211",
        "CHE-778.887.9211TVA",
        "CHE-778.887.9211 TVA",
        "CHE-34.887.921",
        "CHE-34.887.921TVA",
        "CHE-34.887.921 TVA",
        "CHE-778.887.9211",
        "CHE-778.887.9211IVA",
        "CHE-778.887.9211 IVA",
        "CHE-34.887.921",
        "CHE-34.887.921IVA",
        "CHE-34.887.921 IVA",
    ];

    for valid in valid_vat_numbers {
        assert!(ChVat::validate_syntax(&ChVat, valid).is_ok());
    }

    for invalid in invalid_vat_numbers {
        assert!(ChVat::validate_syntax(&ChVat, invalid).is_err());
    }
}

#[test]
fn gb_vat_test_gb_vat() {
    let valid_vat_numbers = vec!["GB123456789", "GB123456789101", "GBHA123", "GBGD123"];
    let invalid_vat_numbers = vec!["GB12345678", "GB1234567891011", "GBHA1234", "GBGD1234", "SE123456789101"];

    for vat_number in valid_vat_numbers {
        let valid_syntax = GBVat::ensure_valid_syntax(&GBVat, vat_number);
        assert_eq!(valid_syntax, true, "Expected valid VAT number, got invalid: {}", vat_number);
    }

    for vat_number in invalid_vat_numbers {
        let valid_syntax = GBVat::ensure_valid_syntax(&GBVat, vat_number);
        assert_eq!(valid_syntax, false, "Expected invalid VAT number, got valid: {}", vat_number);
    }
}

#[test]
fn mod_test_gb_vat() {
    let valid_vat_numbers = vec!["GB123456789", "GB123456789101", "GBHA123", "GBGD123"];
    let invalid_vat_numbers = vec!["GB12345678", "GB1234567891011", "GBHA1234", "GBGD1234", "SE123456789101"];

    for valid in valid_vat_numbers {
        assert!(GbVat::validate_syntax(&GbVat, valid).is_ok());
    }

    for invalid in invalid_vat_numbers {
        assert!(GbVat::validate_syntax(&GbVat, invalid).is_err());
    }
}

#[test]
fn test_no_vats() {
    let valid_vat_numbers = vec!["NO123456789MVA", "NO123456789"];
    let invalid_vat_numbers = vec![
        "NO123456789 MVA",
        "NO12345678MVA",
        "NO1234567891MVA",
        "NO123456789XXX",
        "NO123456789MVA1",
        "NO12345678",
        "NO1234567890",
    ];

    for valid in valid_vat_numbers {
        assert!(NoVat::validate_syntax(&NoVat, valid).is_ok());
    }

    for invalid in invalid_vat_numbers {
        assert!(NoVat::validate_syntax(&NoVat, invalid).is_err());
    }
}

#[test]
fn regime_rejects_prefix_it_does_not_own() {
    assert_eq!(
        GbVat.validate_syntax("SE123456789101"),
        Err(ValidationError::UnsupportedCountryCode("SE".to_string()))
    );
    assert_eq!(EuVat.validate_syntax("GB123456789"), Err(ValidationError::UnsupportedCountryCode("GB".to_string())));
}

#[test]
fn ch_suffix_after_other_white_space() {
    assert!(ChVat.validate_syntax("CHE778887921\tMWST").is_ok());
    assert!(ChVat.validate_syntax("CHE778887921\u{a0}TVA").is_ok());
    assert!(ChVat.validate_syntax("CHE778887921  MWST").is_err());
    assert!(ChVat.validate_syntax("CHE778887921 ").is_err());
}

#[test]
fn minimal_samples_pass_and_mutations_fail() {
    let samples = vec![
        "ATU11111111", "BE1111111111", "BG111111111", "CY11111111A", "CZ11111111", "DE111111111",
        "DK11111111", "EE101111111", "EL111111111", "ESA11111111", "FI11111111", "FR11111111111",
        "HR11111111111", "HU11111111", "IE1111111A", "IT11111111111", "LT111111111", "LU11111111",
        "LV11111111111", "MT11111111", "NL111111111B11", "PL1111111111", "PT111111111", "RO11",
        "SE111111111101", "SI11111111", "SK1111111111", "XI111111111", "GB111111111",
        "CHE111111111", "NO111111111",
    ];
    for s in samples {
        assert_eq!(tax_ids::TaxId::validate_syntax(s), Ok(()), "{}", s);
        let mutated = format!("{}#", s);
        assert_eq!(tax_ids::TaxId::validate_syntax(&mutated), Err(ValidationError::InvalidSyntax), "{}", mutated);
    }
}

#[test]
fn country_codes_from_tax_country() {
    assert_eq!(EuVat.country_code_from_tax_country("XI"), "GB");
    assert_eq!(EuVat.country_code_from_tax_country("EL"), "GR");
    assert_eq!(EuVat.country_code_from_tax_country("SE"), "SE");
    assert_eq!(EuVat.country_code_from_tax_country("GB"), "GB");
    assert_eq!(ChVat.country_code_from_tax_country("CH"), "CH");
    assert_eq!(GbVat.country_code_from_tax_country("GB"), "GB");
    assert_eq!(NoVat.country_code_from_tax_country("NO"), "NO");
    assert_eq!(GBVat.country_code_from("GB"), "GB");
    assert_eq!(GBVat.name(), "gb_vat");
    assert_eq!(ChVat.name(), "ch_vat");
    assert_eq!(EuVat.name(), "eu_vat");
    assert_eq!(NoVat.name(), "no_vat");
}
