use vstd::prelude::*;

verus! {

/// One JSON field of the credentials file as its reader sees it: absent,
/// present but not a string, or a string.
pub enum JsonField {
    Absent,
    NotAString,
    Str(String),
}

/// Why the credentials file was refused. Each case carries the exact
/// remediation text shown to the user at startup.
#[derive(Clone, Copy, Debug, PartialEq, Eq, Structural)]
pub enum KeysError {
    NotObject,
    MissingApiKey,
    ApiKeyNotString,
    MissingRefreshToken,
    RefreshTokenNotString,
}

impl KeysError {
    /// The message for this refusal, word for word.
    pub fn message(&self) -> (r: String)
        ensures
            self is NotObject ==> r@ == "Invalid JSON formatting"@,
            self is MissingApiKey ==> r@ == "Missing API key in file"@,
            self is ApiKeyNotString ==> r@ == "Invalid formatting of API key in file"@,
            self is MissingRefreshToken ==> r@ == "Missing refresh token in file"@,
            self is RefreshTokenNotString ==> r@ == "Invalid formatting of refresh token in file"@,
    {
        match self {
            KeysError::NotObject => String::from_str("Invalid JSON formatting"),
            KeysError::MissingApiKey => String::from_str("Missing API key in file"),
            KeysError::ApiKeyNotString => String::from_str(
                "Invalid formatting of API key in file",
            ),
            KeysError::MissingRefreshToken => String::from_str("Missing refresh token in file"),
            KeysError::RefreshTokenNotString => String::from_str(
                "Invalid formatting of refresh token in file",
            ),
        }
    }
}

/// Validates the two credential fields read from the keys file: the file
/// must be a JSON object holding string fields `apiKey` and
/// `refreshToken`, checked in that order, each absence or wrong type
/// refused with its own message.
pub fn parse_keys_fields(is_object: bool, api_key: JsonField, refresh_token: JsonField) -> (r:
    Result<(String, String), KeysError>)
    ensures
        !is_object ==> (r matches Err(e) && e == KeysError::NotObject),
        is_object && api_key is Absent ==> (r matches Err(e) && e == KeysError::MissingApiKey),
        is_object && api_key is NotAString ==> (r matches Err(e) && e
            == KeysError::ApiKeyNotString),
        is_object && api_key is Str && refresh_token is Absent ==> (r matches Err(e) && e
            == KeysError::MissingRefreshToken),
        is_object && api_key is Str && refresh_token is NotAString ==> (r matches Err(e) && e
            == KeysError::RefreshTokenNotString),
        is_object && api_key is Str && refresh_token is Str ==> (r matches Ok(keys) && keys.0@
            == api_key->0@ && keys.1@ == refresh_token->0@),
{
    if !is_object {
        return Err(KeysError::NotObject);
    }
    let key = match api_key {
        JsonField::Absent => {
            return Err(KeysError::MissingApiKey);
        },
        JsonField::NotAString => {
            return Err(KeysError::ApiKeyNotString);
        },
        JsonField::Str(k) => k,
    };
    let token = match refresh_token {
        JsonField::Absent => {
            return Err(KeysError::MissingRefreshToken);
        },
        JsonField::NotAString => {
            return Err(KeysError::RefreshTokenNotString);
        },
        JsonField::Str(t) => t,
    };
    Ok((key, token))
}

} // verus!
