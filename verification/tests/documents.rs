use auth_core::document::{
    format_cnpj, format_cpf, format_document, validate_cnpj, validate_cpf,
};

#[test]
fn valid_cpf_is_accepted() {
    assert!(validate_cpf("52998224725"));
    assert!(validate_cpf("529.982.247-25"));
    assert!(validate_cpf("  529 982 247 25  "));
}

#[test]
fn invalid_cpf_is_rejected() {
    // wrong check digit
    assert!(!validate_cpf("52998224726"));
    // wrong length
    assert!(!validate_cpf("5299822472"));
    assert!(!validate_cpf(""));
    // all digits equal
    assert!(!validate_cpf("111.111.111-11"));
    assert!(!validate_cpf("00000000000"));
}

#[test]
fn valid_cnpj_is_accepted() {
    assert!(validate_cnpj("11222333000181"));
    assert!(validate_cnpj("11.222.333/0001-81"));
}

#[test]
fn invalid_cnpj_is_rejected() {
    // wrong check digit
    assert!(!validate_cnpj("11222333000182"));
    // wrong length
    assert!(!validate_cnpj("1122233300018"));
    // all digits equal
    assert!(!validate_cnpj("11111111111111"));
}

#[test]
fn cpf_is_formatted_with_punctuation() {
    assert_eq!(format_cpf("52998224725").unwrap(), "529.982.247-25");
    assert_eq!(format_cpf("529-982-247/25").unwrap(), "529.982.247-25");
    assert_eq!(format_cpf("123").unwrap_err(), "Invalid CPF length");
    assert_eq!(
        format_cpf("11222333000181").unwrap_err(),
        "Invalid CPF length"
    );
}

#[test]
fn cnpj_is_formatted_with_punctuation() {
    assert_eq!(format_cnpj("11222333000181").unwrap(), "11.222.333/0001-81");
    assert_eq!(format_cnpj("123").unwrap_err(), "Invalid CNPJ length");
}

#[test]
fn document_formatting_picks_the_matching_kind() {
    assert_eq!(format_document("52998224725").unwrap(), "529.982.247-25");
    assert_eq!(
        format_document("11222333000181").unwrap(),
        "11.222.333/0001-81"
    );
    assert_eq!(format_document("12345").unwrap_err(), "Invalid document");
    assert_eq!(format_document("").unwrap_err(), "Invalid document");
}
