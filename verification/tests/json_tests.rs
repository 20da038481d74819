use vanta::errors::ProvisionError;
use vanta::json::JsonValue;
use vanta::manifest::parse_manifest;
use vanta::ms_auth::{parse_profile_response, parse_token_response};

fn s(text: &str) -> String {
    text.to_string()
}

#[test]
fn lookup_takes_the_first_matching_field() {
    let v = JsonValue::Obj(vec![
        (s("k"), JsonValue::UInt(1)),
        (s("k"), JsonValue::UInt(2)),
        (s("other"), JsonValue::UInt(3)),
    ]);
    assert_eq!(v.get_u64("k"), Some(1));
    assert_eq!(v.get_u64("other"), Some(3));
    assert_eq!(v.get_u64("missing"), None);
}

#[test]
fn lookup_on_a_non_object_finds_nothing() {
    assert!(JsonValue::Null.get("k").is_none());
    assert!(JsonValue::Arr(vec![]).get("k").is_none());
    assert!(JsonValue::Str(s("x")).get_str("k").is_none());
}

#[test]
fn string_and_number_accessors_check_the_variant() {
    let v = JsonValue::Obj(vec![
        (s("text"), JsonValue::Str(s("hello"))),
        (s("num"), JsonValue::UInt(9)),
    ]);
    assert_eq!(v.get_str("text").map(|x| x.as_str()), Some("hello"));
    assert!(v.get_str("num").is_none());
    assert_eq!(v.get_u64("num"), Some(9));
    assert_eq!(v.get_u64("text"), None);
}

#[test]
fn parser_tells_signed_and_unsigned_numbers_apart() {
    // A nonnegative count is kept; a negative or fractional one cannot
    // be an expiry and is a shape mismatch.
    let t = parse_token_response(r#"{"access_token": "a", "expires_in": 120}"#).unwrap();
    assert_eq!(t.expires_in, Some(120));
    assert!(matches!(
        parse_token_response(r#"{"access_token": "a", "expires_in": -5}"#),
        Err(ProvisionError::DecodeError)
    ));
    assert!(matches!(
        parse_token_response(r#"{"access_token": "a", "expires_in": 1.5}"#),
        Err(ProvisionError::DecodeError)
    ));
}

#[test]
fn parser_reads_null_and_boolean_values() {
    let text = r#"{
        "id": "uuid-1",
        "name": "ada",
        "skins": [{"id": "s", "state": true, "url": "u", "alias": null}],
        "capes": []
    }"#;
    let p = parse_profile_response(text).unwrap();
    assert!(p.skins[0].state);
    assert_eq!(p.skins[0].alias, None);
}

#[test]
fn parser_rejects_broken_text() {
    assert!(matches!(parse_manifest("{"), Err(ProvisionError::DecodeError)));
    assert!(matches!(parse_manifest(""), Err(ProvisionError::DecodeError)));
    assert!(matches!(parse_manifest("{\"a\": }"), Err(ProvisionError::DecodeError)));
}

#[test]
fn error_descriptions_name_each_failure() {
    assert_eq!(ProvisionError::NetworkError.describe(), "network request failed");
    assert_eq!(
        ProvisionError::DecodeError.describe(),
        "response did not match the expected shape"
    );
    assert_eq!(ProvisionError::VersionNotFound.describe(), "invalid version");
}
