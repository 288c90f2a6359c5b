use tax_ids::no_vat::NoVat;
use tax_ids::{HttpMethod, TaxId, TaxIdType, ValidationError, Verifier};

#[test]
fn test_validate_syntax() {
    let valid_vat_numbers: Vec<&str> = vec![
        "SE123456789101",
        "EL123456789",
        "XI591819014",
        "GB591819014",
        "CHE123456789",
        "NO123456789MVA",
    ];

    for vat_number in valid_vat_numbers {
        let valid_syntax = TaxId::validate_syntax(vat_number);
        assert_eq!(valid_syntax, Ok(()), "Expected {} to be valid", vat_number);
    }
}

#[test]
fn test_validate_syntax_unsupported_country() {
    let validation = TaxId::validate_syntax("XX123456789");
    assert!(validation.is_err());
    assert_eq!(validation.unwrap_err(), ValidationError::UnsupportedCountryCode("XX".to_string()));
}

#[test]
fn test_new_unsupported_country() {
    let tax_id = TaxId::new("XX123456789");
    assert!(tax_id.is_err());
    assert_eq!(tax_id.unwrap_err(), ValidationError::UnsupportedCountryCode("XX".to_string()));
}

#[test]
fn test_validate_eu_syntax_fail() {
    let validation = TaxId::validate_syntax("SE12");
    assert!(validation.is_err());
    assert_eq!(validation.unwrap_err(), ValidationError::InvalidSyntax);
}

#[test]
fn test_validate_gb_syntax_fail() {
    let validation = TaxId::validate_syntax("GB12");
    assert!(validation.is_err());
    assert_eq!(validation.unwrap_err(), ValidationError::InvalidSyntax);
}

#[test]
fn test_validate_ch_syntax_fail() {
    let validation = TaxId::validate_syntax("CHE12");
    assert!(validation.is_err());
    assert_eq!(validation.unwrap_err(), ValidationError::InvalidSyntax);
}

#[test]
fn test_validate_no_syntax_fail() {
    let validation = TaxId::validate_syntax("NO12");
    assert!(validation.is_err());
    assert_eq!(validation.unwrap_err(), ValidationError::InvalidSyntax);
}

#[test]
fn test_eu_new_unsupported_country_code_err() {
    let tax_id = TaxId::new("SE12");
    assert!(tax_id.is_err());
    assert_eq!(tax_id.unwrap_err(), ValidationError::InvalidSyntax);
}

#[test]
fn test_new_gb_unsupported_country_code_err() {
    let tax_id = TaxId::new("GB12");
    assert!(tax_id.is_err());
    assert_eq!(tax_id.unwrap_err(), ValidationError::InvalidSyntax);
}

#[test]
fn test_new_ch_unsupported_country_code_err() {
    let tax_id = TaxId::new("CHE12");
    assert!(tax_id.is_err());
    assert_eq!(tax_id.unwrap_err(), ValidationError::InvalidSyntax);
}

#[test]
fn test_new_no_unsupported_country_code_err() {
    let tax_id = TaxId::new("NO12");
    assert!(tax_id.is_err());
    assert_eq!(tax_id.unwrap_err(), ValidationError::InvalidSyntax);
}

#[test]
fn test_failed_validation() {
    let tax_id = TaxId::new("SE12");
    assert!(tax_id.is_err());
    assert_eq!(tax_id.unwrap_err(), ValidationError::InvalidSyntax);
}

#[test]
fn lib_test_new_eu_vat() {
    let tax_id = TaxId::new("SE123456789101").unwrap();
    assert_eq!(tax_id.value(), "SE123456789101");
    assert_eq!(tax_id.country_code(), "SE");
    assert_eq!(tax_id.local_value(), "123456789101");
    assert_eq!(tax_id.tax_id_type(), "eu_vat");
}

#[test]
fn tax_id_test_new_eu_vat() {
    let tax_id = TaxId::new("SE123456789101").unwrap();
    assert_eq!(tax_id.value(), "SE123456789101");
    assert_eq!(tax_id.country_code(), "SE");
    assert_eq!(tax_id.local_value(), "123456789101");
    assert_eq!(tax_id.id_type().name(), "eu_vat");
}

#[test]
fn lib_test_new_gr_vat() {
    let tax_id = TaxId::new("EL123456789").unwrap();
    assert_eq!(tax_id.value(), "EL123456789");
    assert_eq!(tax_id.country_code(), "GR");
    assert_eq!(tax_id.local_value(), "123456789");
    assert_eq!(tax_id.tax_id_type(), "eu_vat");
}

#[test]
fn tax_id_test_new_gr_vat() {
    let tax_id = TaxId::new("EL123456789").unwrap();
    assert_eq!(tax_id.value(), "EL123456789");
    assert_eq!(tax_id.country_code(), "GR");
    assert_eq!(tax_id.local_value(), "123456789");
    assert_eq!(tax_id.id_type().name(), "eu_vat");
}

#[test]
fn lib_test_new_xi_vat() {
    let tax_id = TaxId::new("XI591819014").unwrap();
    assert_eq!(tax_id.value(), "XI591819014");
    assert_eq!(tax_id.country_code(), "GB");
    assert_eq!(tax_id.local_value(), "591819014");
    assert_eq!(tax_id.tax_id_type(), "eu_vat");
}

#[test]
fn tax_id_test_new_xi_vat() {
    let tax_id = TaxId::new("XI591819014").unwrap();
    assert_eq!(tax_id.value(), "XI591819014");
    assert_eq!(tax_id.country_code(), "GB");
    assert_eq!(tax_id.local_value(), "591819014");
    assert_eq!(tax_id.id_type().name(), "eu_vat");
}

#[test]
fn lib_test_new_gb_vat() {
    let tax_id = TaxId::new("GB591819014").unwrap();
    assert_eq!(tax_id.value(), "GB591819014");
    assert_eq!(tax_id.country_code(), "GB");
    assert_eq!(tax_id.local_value(), "591819014");
    assert_eq!(tax_id.tax_id_type(), "gb_vat");
}

#[test]
fn tax_id_test_new_gb_vat() {
    let tax_id = TaxId::new("GB591819014").unwrap();
    assert_eq!(tax_id.value(), "GB591819014");
    assert_eq!(tax_id.country_code(), "GB");
    assert_eq!(tax_id.local_value(), "591819014");
    assert_eq!(tax_id.id_type().name(), "gb_vat");
}

#[test]
fn lib_test_new_ch_vat() {
    let tax_id = TaxId::new("CHE123456789").unwrap();
    assert_eq!(tax_id.value(), "CHE123456789");
    assert_eq!(tax_id.country_code(), "CH");
    assert_eq!(tax_id.local_value(), "E123456789");
    assert_eq!(tax_id.tax_id_type(), "ch_vat");
}

#[test]
fn tax_id_test_new_ch_vat() {
    let tax_id = TaxId::new("CHE123456789").unwrap();
    assert_eq!(tax_id.value(), "CHE123456789");
    assert_eq!(tax_id.country_code(), "CH");
    assert_eq!(tax_id.local_value(), "E123456789");
    assert_eq!(tax_id.id_type().name(), "ch_vat");
}

#[test]
fn lib_test_new_no_vat() {
    let tax_id = TaxId::new("NO123456789MVA").unwrap();
    assert_eq!(tax_id.value(), "NO123456789MVA");
    assert_eq!(tax_id.country_code(), "NO");
    assert_eq!(tax_id.local_value(), "123456789MVA");
    assert_eq!(tax_id.tax_id_type(), "no_vat");
}

#[test]
fn tax_id_test_new_no_vat() {
    let tax_id = TaxId::new("NO123456789MVA").unwrap();
    assert_eq!(tax_id.value(), "NO123456789MVA");
    assert_eq!(tax_id.country_code(), "NO");
    assert_eq!(tax_id.local_value(), "123456789MVA");
    assert_eq!(tax_id.id_type().name(), "no_vat");
}

#[test]
fn test_new_unknown_country_code_err() {
    let tax_id = TaxId::new("XX123456789");
    assert!(tax_id.is_err());
    assert_eq!(tax_id.unwrap_err(), ValidationError::UnsupportedCountryCode("XX".to_string()));
}

#[test]
fn test_extract_org_number() {
    let tax_id = TaxId::new("NO123456789MVA").unwrap();

    assert_eq!(NoVat::extract_org_number(&NoVat, &tax_id), "123456789");
}

#[test]
fn extract_org_number_without_suffix() {
    let tax_id = TaxId::new("NO123456789").unwrap();
    assert_eq!(NoVat.extract_org_number(&tax_id), "123456789");
}

#[test]
fn too_short_input_is_a_length_error() {
    assert_eq!(TaxId::validate_syntax(""), Err(ValidationError::TooShort));
    assert_eq!(TaxId::validate_syntax("S"), Err(ValidationError::TooShort));
    assert_eq!(TaxId::new("G").unwrap_err(), ValidationError::TooShort);
}

#[test]
fn two_letter_input_with_known_prefix_is_invalid() {
    assert_eq!(TaxId::validate_syntax("SE"), Err(ValidationError::InvalidSyntax));
    assert_eq!(TaxId::validate_syntax("ZZ"), Err(ValidationError::UnsupportedCountryCode("ZZ".to_string())));
}

#[test]
fn non_ascii_prefix_is_unsupported() {
    assert_eq!(
        TaxId::validate_syntax("\u{c4}X123"),
        Err(ValidationError::UnsupportedCountryCode("\u{c4}X".to_string()))
    );
}

#[test]
fn lowercase_prefix_is_unsupported() {
    assert_eq!(TaxId::new("se123456789101").unwrap_err(), ValidationError::UnsupportedCountryCode("se".to_string()));
}

#[test]
fn dispatch_selects_regime_and_registry() {
    assert_eq!(TaxId::new("GB591819014").unwrap().id_type(), TaxIdType::Gb);
    assert_eq!(TaxId::new("CHE123456789").unwrap().id_type(), TaxIdType::Ch);
    assert_eq!(TaxId::new("NO123456789").unwrap().id_type(), TaxIdType::No);
    assert_eq!(TaxId::new("DE123456789").unwrap().id_type(), TaxIdType::Eu);
    assert_eq!(TaxIdType::Ch.registry(), Verifier::Bfs);
    assert_eq!(TaxIdType::Eu.registry(), Verifier::Vies);
    assert_eq!(TaxIdType::Gb.registry(), Verifier::Hmrc);
    assert_eq!(TaxIdType::No.registry(), Verifier::BrReg);
}

#[test]
fn ch_id_with_suffix_goes_into_the_bfs_envelope() {
    let value = "CHE-778.887.921 MWST";
    assert_eq!(TaxId::validate_syntax(value), Ok(()));
    let tax_id = TaxId::new(value).unwrap();
    assert_eq!(tax_id.id_type(), TaxIdType::Ch);
    let request = tax_id.make_request();
    assert_eq!(request.method, HttpMethod::Post);
    assert_eq!(request.url, "https://www.uid-wse-a.admin.ch/V5.0/PublicServices.svc");
    let body = request.body.unwrap();
    assert!(body.contains("<uid:vatNumber>CHE-778.887.921 MWST</uid:vatNumber>"));
    assert!(request.headers.contains(&("SOAPAction".to_string(), "http://www.uid.admin.ch/xmlns/uid-wse/IPublicServices/ValidateVatNumber".to_string())));
}

#[test]
fn xi_id_is_eu_with_gb_country() {
    let tax_id = TaxId::new("XI123456789").unwrap();
    assert_eq!(tax_id.id_type(), TaxIdType::Eu);
    assert_eq!(tax_id.tax_id_type(), "eu_vat");
    assert_eq!(tax_id.country_code(), "GB");
    assert_eq!(tax_id.tax_country_code(), "XI");
    assert_eq!(tax_id.local_value(), "123456789");
    let body = tax_id.make_request().body.unwrap();
    assert!(body.contains("<countryCode>XI</countryCode>"));
    assert!(body.contains("<vatNumber>123456789</vatNumber>"));
}

#[test]
fn rest_requests_end_with_the_number() {
    let gb = TaxId::new("GB591819014").unwrap().make_request();
    assert_eq!(gb.method, HttpMethod::Get);
    assert_eq!(gb.url, "https://api.service.hmrc.gov.uk/organisations/vat/check-vat-number/lookup/591819014");
    assert!(gb.body.is_none());
    let no = TaxId::new("NO123456789MVA").unwrap().make_request();
    assert_eq!(no.url, "https://data.brreg.no/enhetsregisteret/api/enheter/123456789");
    assert_eq!(no.headers, vec![("Accept".to_string(), "application/vnd.brreg.enhetsregisteret.enhet.v2+json".to_string())]);
}
