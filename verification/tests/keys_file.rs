use seneca_solver::keys::{parse_keys_fields, JsonField, KeysError};

#[test]
fn both_string_fields_give_the_key_pair() {
    let r = parse_keys_fields(
        true,
        JsonField::Str("api".to_string()),
        JsonField::Str("refresh".to_string()),
    );
    assert_eq!(r.unwrap(), ("api".to_string(), "refresh".to_string()));
}

#[test]
fn a_non_object_file_is_invalid_json_formatting() {
    let r = parse_keys_fields(false, JsonField::Absent, JsonField::Absent);
    assert_eq!(r.err().unwrap(), KeysError::NotObject);
    assert_eq!(KeysError::NotObject.message(), "Invalid JSON formatting");
}

#[test]
fn each_missing_or_malformed_field_has_its_own_message() {
    let r = parse_keys_fields(true, JsonField::Absent, JsonField::Str("t".to_string()));
    assert_eq!(r.err().unwrap(), KeysError::MissingApiKey);
    assert_eq!(KeysError::MissingApiKey.message(), "Missing API key in file");

    let r = parse_keys_fields(true, JsonField::NotAString, JsonField::Str("t".to_string()));
    assert_eq!(r.err().unwrap(), KeysError::ApiKeyNotString);
    assert_eq!(KeysError::ApiKeyNotString.message(), "Invalid formatting of API key in file");

    let r = parse_keys_fields(true, JsonField::Str("k".to_string()), JsonField::Absent);
    assert_eq!(r.err().unwrap(), KeysError::MissingRefreshToken);
    assert_eq!(KeysError::MissingRefreshToken.message(), "Missing refresh token in file");

    let r = parse_keys_fields(true, JsonField::Str("k".to_string()), JsonField::NotAString);
    assert_eq!(r.err().unwrap(), KeysError::RefreshTokenNotString);
    assert_eq!(
        KeysError::RefreshTokenNotString.message(),
        "Invalid formatting of refresh token in file"
    );
}

#[test]
fn the_api_key_is_checked_before_the_refresh_token() {
    let r = parse_keys_fields(true, JsonField::Absent, JsonField::NotAString);
    assert_eq!(r.err().unwrap(), KeysError::MissingApiKey);
}
