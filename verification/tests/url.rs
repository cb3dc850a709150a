//! URL construction and decimal integer text.

use nikel::text::{i64_dec_string, parse_i64_str, str_eq};
use nikel::{NikelAPI, Parameters};

#[test]
fn query_string_preserves_order() {
    let params: Parameters = vec![("code", "CSC108"), ("campus", "utsg"), ("page", "2")];
    assert_eq!(NikelAPI::encode_params(&params), "code=CSC108&campus=utsg&page=2");
}

#[test]
fn query_string_of_no_parameters_is_empty() {
    let params: Parameters = vec![];
    assert_eq!(NikelAPI::encode_params(&params), "");
}

#[test]
fn query_string_is_not_escaped() {
    let params: Parameters = vec![("name", "a b&c"), ("x", "1=2")];
    assert_eq!(NikelAPI::encode_params(&params), "name=a b&c&x=1=2");
}

#[test]
fn url_has_api_path_and_query() {
    let client = NikelAPI::new();
    let params: Parameters = vec![("code", "CSC108"), ("campus", "utsg")];
    assert_eq!(
        client.get_url("courses", &params),
        "https://nikel.ml/api/courses?code=CSC108&campus=utsg",
    );
}

#[test]
fn url_per_endpoint_name() {
    let client = NikelAPI::with_base_url("http://127.0.0.1:8000".to_string());
    let params: Parameters = vec![];
    assert_eq!(client.get_url("parking", &params), "http://127.0.0.1:8000/api/parking?");
    assert_eq!(client.get_url("buildings", &params), "http://127.0.0.1:8000/api/buildings?");
}

#[test]
fn integer_text_round_trips() {
    for n in [0i64, 7, -7, 42, 1000000, i64::MAX, i64::MIN] {
        assert_eq!(parse_i64_str(i64_dec_string(n).as_str()), Some(n));
    }
    assert_eq!(i64_dec_string(-120), "-120");
    assert_eq!(i64_dec_string(90210), "90210");
}

#[test]
fn integer_text_rejects_what_is_not_integral() {
    assert_eq!(parse_i64_str(""), None);
    assert_eq!(parse_i64_str("-"), None);
    assert_eq!(parse_i64_str("1.5"), None);
    assert_eq!(parse_i64_str("1e3"), None);
    assert_eq!(parse_i64_str("+5"), None);
    assert_eq!(parse_i64_str("12a"), None);
    assert_eq!(parse_i64_str("9223372036854775808"), None);
    assert_eq!(parse_i64_str("-9223372036854775809"), None);
    assert_eq!(parse_i64_str("9223372036854775807"), Some(i64::MAX));
    assert_eq!(parse_i64_str("-9223372036854775808"), Some(i64::MIN));
    assert_eq!(parse_i64_str("-0"), Some(0));
    assert_eq!(parse_i64_str("007"), Some(7));
}

#[test]
fn string_equality_by_characters() {
    assert!(str_eq("nikel", "nikel"));
    assert!(!str_eq("nikel", "nickel"));
    assert!(!str_eq("", "a"));
    assert!(str_eq("", ""));
}
