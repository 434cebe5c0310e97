use click_to_call::tel::{first_tel_number, is_tel_uri, is_tel_uri_ci, normalize};

#[test]
fn normalize_strips_prefix_and_separators() {
    assert_eq!(normalize("tel:+1 (555) 123-4567"), "+15551234567");
}

#[test]
fn normalize_keeps_plain_digits() {
    assert_eq!(normalize("tel:5551234567"), "5551234567");
}

#[test]
fn normalize_keeps_leading_plus_and_digits_only_filters_separators() {
    assert_eq!(normalize("tel:+49 (0) 30-1234"), "+490301234");
    assert_eq!(normalize("tel:--  ()"), "");
    assert_eq!(normalize("tel:abc#7"), "abc#7");
}

#[test]
fn tel_prefix_is_exact_for_socket_payloads() {
    assert!(is_tel_uri("tel:123"));
    assert!(!is_tel_uri("TEL:123"));
    assert!(!is_tel_uri("ping-42"));
    assert!(!is_tel_uri("tel"));
}

#[test]
fn tel_prefix_is_case_insensitive_for_arguments() {
    assert!(is_tel_uri_ci("tel:123"));
    assert!(is_tel_uri_ci("TEL:123"));
    assert!(is_tel_uri_ci("Tel:123"));
    assert!(!is_tel_uri_ci("tem:123"));
    assert!(!is_tel_uri_ci("tel"));
}

#[test]
fn first_tel_argument_is_found_and_normalized() {
    let args = vec![
        "--flag".to_string(),
        "Tel:+1 (555) 000-1111".to_string(),
        "tel:222".to_string(),
    ];
    assert_eq!(first_tel_number(&args), Some("+15550001111".to_string()));
}

#[test]
fn no_tel_argument_yields_nothing() {
    let args = vec!["--flag".to_string(), "http://example.com".to_string()];
    assert_eq!(first_tel_number(&args), None);
    let empty: Vec<String> = Vec::new();
    assert_eq!(first_tel_number(&empty), None);
}
