use vstd::prelude::*;
use vstd::string::*;
use vstd::utf8::{decode_utf8, valid_utf8};

use base64::Engine;

use crate::enums::Currency;
use crate::errors::ApiErrorResponse;
use crate::secret::{secret_text, Secret, REDACTION_MARKER};

verus! {

/// The credentials of a connector account, by shape.
#[derive(Clone, PartialEq, Eq)]
pub enum ConnectorAuthType {
    /// Credentials not yet provided: the account can never be active.
    TemporaryAuth,
    HeaderKey { api_key: Secret<String> },
    BodyKey { api_key: Secret<String>, key1: Secret<String> },
    SignatureKey { api_key: Secret<String>, key1: Secret<String>, api_secret: Secret<String> },
    MultiAuthKey {
        api_key: Secret<String>,
        key1: Secret<String>,
        api_secret: Secret<String>,
        key2: Secret<String>,
    },
    /// One key per currency, one entry for each currency.
    CurrencyAuthKey { auth_key_map: Vec<(Currency, Secret<String>)> },
    /// Base64 encoded certificate and private key. The shape check decodes
    /// both to text; parsing them into a TLS identity is left to the TLS
    /// layer that uses them.
    CertificateAuth { certificate: Secret<String>, private_key: Secret<String> },
    NoKey,
}

/// A character with the Unicode `White_Space` property.
pub open spec fn is_white_space(c: char) -> bool {
    ('\u{9}' <= c && c <= '\u{d}') || c == ' ' || c == '\u{85}' || c == '\u{a0}' || c == '\u{1680}'
        || ('\u{2000}' <= c && c <= '\u{200a}') || c == '\u{2028}' || c == '\u{2029}' || c
        == '\u{202f}' || c == '\u{205f}' || c == '\u{3000}'
}

/// The text without its leading whitespace.
pub open spec fn trim_start_of(s: Seq<char>) -> Seq<char>
    decreases s.len(),
{
    if s.len() > 0 && is_white_space(s[0]) {
        trim_start_of(s.drop_first())
    } else {
        s
    }
}

/// The text without its trailing whitespace.
pub open spec fn trim_end_of(s: Seq<char>) -> Seq<char>
    decreases s.len(),
{
    if s.len() > 0 && is_white_space(s.last()) {
        trim_end_of(s.drop_last())
    } else {
        s
    }
}

/// The text without leading and trailing whitespace.
pub open spec fn trim_of(s: Seq<char>) -> Seq<char> {
    trim_end_of(trim_start_of(s))
}

/// What base64's standard engine decodes a text to, or `None` where it is
/// not valid standard base64.
pub uninterp spec fn base64_decoded(s: Seq<char>) -> Option<Seq<u8>>;

/// Relies on `str::trim`: the text without leading and trailing whitespace,
/// whitespace being the Unicode `White_Space` property.
#[verifier::external_body]
fn trim_text(s: &str) -> (r: &str)
    ensures
        r@ == trim_of(s@),
{
    s.trim()
}

/// Relies on `base64::engine::general_purpose::STANDARD.decode`: the decoded
/// bytes, or `None` where the text is not valid standard base64.
#[verifier::external_body]
fn decode_base64(s: &str) -> (r: Option<Vec<u8>>)
    ensures
        r matches Some(v) ==> base64_decoded(s@) == Some(v@),
        r is None ==> base64_decoded(s@) is None,
{
    base64::engine::general_purpose::STANDARD.decode(s).ok()
}

/// Relies on `String::from_utf8`: the text the bytes encode, or `None` where
/// they are not valid UTF-8.
#[verifier::external_body]
fn text_from_utf8(b: Vec<u8>) -> (r: Option<String>)
    ensures
        r matches Some(s) ==> valid_utf8(b@) && s@ == decode_utf8(b@),
        r is None ==> !valid_utf8(b@),
{
    String::from_utf8(b).ok()
}

/// A credential field is blank: empty once whitespace is trimmed.
pub open spec fn is_blank(s: Secret<String>) -> bool {
    trim_of(secret_text(s)).len() == 0
}

/// The text that a base64 encoded credential decodes to: `None` where it is
/// not standard base64 or the bytes are not UTF-8. Nothing here checks that
/// the text is a well-formed certificate or key.
pub open spec fn decoded_text_of(s: Seq<char>) -> Option<Seq<char>> {
    match base64_decoded(s) {
        Some(b) => if valid_utf8(b) {
            Some(decode_utf8(b))
        } else {
            None
        },
        None => None,
    }
}

/// The name of the first blank key field, in the order api_key, key1,
/// api_secret, key2.
pub open spec fn first_blank_field(a: ConnectorAuthType) -> Option<Seq<char>> {
    match a {
        ConnectorAuthType::HeaderKey { api_key } => if is_blank(api_key) {
            Some("api_key"@)
        } else {
            None
        },
        ConnectorAuthType::BodyKey { api_key, key1 } => if is_blank(api_key) {
            Some("api_key"@)
        } else if is_blank(key1) {
            Some("key1"@)
        } else {
            None
        },
        ConnectorAuthType::SignatureKey { api_key, key1, api_secret } => if is_blank(api_key) {
            Some("api_key"@)
        } else if is_blank(key1) {
            Some("key1"@)
        } else if is_blank(api_secret) {
            Some("api_secret"@)
        } else {
            None
        },
        ConnectorAuthType::MultiAuthKey { api_key, key1, api_secret, key2 } => if is_blank(
            api_key,
        ) {
            Some("api_key"@)
        } else if is_blank(key1) {
            Some("key1"@)
        } else if is_blank(api_secret) {
            Some("api_secret"@)
        } else if is_blank(key2) {
            Some("key2"@)
        } else {
            None
        },
        _ => None,
    }
}

/// The error for a blank credential field.
pub open spec fn is_blank_field_error(e: ApiErrorResponse, field: Seq<char>) -> bool {
    &&& e matches ApiErrorResponse::InvalidDataFormat { field_name, expected_format }
    &&& field_name@ == "connector_account_details."@ + field
    &&& expected_format@ == "a non empty String"@
}

/// Field named when a per-currency key map is empty.
pub const AUTH_KEY_MAP_FIELD: &'static str = "connector_account_details.auth_key_map";

/// Format expected of a per-currency key map.
pub const AUTH_KEY_MAP_FORMAT: &'static str = "a non empty map";

/// Fields named when a certificate pair does not decode.
pub const CERTIFICATE_FIELDS: &'static str = "connector_account_details.certificate or connector_account_details.private_key";

/// Format expected of a certificate pair.
pub const CERTIFICATE_FORMAT: &'static str = "a valid base64 encoded string of PEM encoded Certificate and Private Key";

/// `e` is a format error naming the given field and expected format.
pub open spec fn is_format_error(e: ApiErrorResponse, field: Seq<char>, format: Seq<char>) -> bool {
    &&& e matches ApiErrorResponse::InvalidDataFormat { field_name, expected_format }
    &&& field_name@ == field
    &&& expected_format@ == format
}

/// The error the credential check reports for credentials it refuses: the
/// first blank key field, the empty per-currency map, or the certificate
/// pair. It names fields and formats only, never a key.
pub open spec fn is_auth_check_error(a: ConnectorAuthType, e: ApiErrorResponse) -> bool {
    match a {
        ConnectorAuthType::CurrencyAuthKey { .. } => is_format_error(
            e,
            AUTH_KEY_MAP_FIELD@,
            AUTH_KEY_MAP_FORMAT@,
        ),
        ConnectorAuthType::CertificateAuth { .. } => is_format_error(
            e,
            CERTIFICATE_FIELDS@,
            CERTIFICATE_FORMAT@,
        ),
        _ => match first_blank_field(a) {
            Some(f) => is_blank_field_error(e, f),
            None => false,
        },
    }
}

/// Checks one credential field, given its text with whitespace trimmed.
pub fn check_non_empty_field(trimmed: &str, field_name: &str) -> (r: Result<(), ApiErrorResponse>)
    ensures
        r is Ok <==> trimmed@.len() > 0,
        r matches Err(e) ==> is_blank_field_error(e, field_name@),
{
    if trimmed.is_empty() {
        Err(
            ApiErrorResponse::InvalidDataFormat {
                field_name: String::from_str("connector_account_details.").concat(field_name),
                expected_format: String::from_str("a non empty String"),
            },
        )
    } else {
        Ok(())
    }
}

fn check_field(value: &Secret<String>, field_name: &str) -> (r: Result<(), ApiErrorResponse>)
    ensures
        r is Ok <==> !is_blank(*value),
        r matches Err(e) ==> is_blank_field_error(e, field_name@),
{
    check_non_empty_field(trim_text(value.expose().as_str()), field_name)
}

/// Decodes a base64 encoded credential into its text.
pub fn decode_credential_text(encoded: &Secret<String>) -> (r: Option<String>)
    ensures
        opt_text_is(r, decoded_text_of(secret_text(*encoded))),
{
    match decode_base64(encoded.expose().as_str()) {
        Some(bytes) => text_from_utf8(bytes),
        None => None,
    }
}

/// `r` holds exactly the text `t`, or nothing where `t` is `None`.
pub open spec fn opt_text_is(r: Option<String>, t: Option<Seq<char>>) -> bool {
    match r {
        Some(s) => t == Some(s@),
        None => t is None,
    }
}

/// The outcome of checking the shape of a set of credentials: non-empty keys,
/// a non-empty per-currency map, a certificate pair that decodes from base64
/// to text.
pub open spec fn auth_type_is_valid(a: ConnectorAuthType) -> bool {
    match a {
        ConnectorAuthType::CurrencyAuthKey { auth_key_map } => auth_key_map@.len() > 0,
        ConnectorAuthType::CertificateAuth { certificate, private_key } => {
            &&& decoded_text_of(secret_text(certificate)) is Some
            &&& decoded_text_of(secret_text(private_key)) is Some
        },
        _ => first_blank_field(a) is None,
    }
}

/// Checks the shape of a connector account's credentials before the account
/// is created or updated.
pub fn validate_connector_auth_type(auth_type: &ConnectorAuthType) -> (r: Result<
    (),
    ApiErrorResponse,
>)
    ensures
        r is Ok <==> auth_type_is_valid(*auth_type),
        r matches Err(e) ==> is_auth_check_error(*auth_type, e),
{
    match auth_type {
        ConnectorAuthType::TemporaryAuth => Ok(()),
        ConnectorAuthType::HeaderKey { api_key } => check_field(api_key, "api_key"),
        ConnectorAuthType::BodyKey { api_key, key1 } => {
            check_field(api_key, "api_key")?;
            check_field(key1, "key1")
        },
        ConnectorAuthType::SignatureKey { api_key, key1, api_secret } => {
            check_field(api_key, "api_key")?;
            check_field(key1, "key1")?;
            check_field(api_secret, "api_secret")
        },
        ConnectorAuthType::MultiAuthKey { api_key, key1, api_secret, key2 } => {
            check_field(api_key, "api_key")?;
            check_field(key1, "key1")?;
            check_field(api_secret, "api_secret")?;
            check_field(key2, "key2")
        },
        ConnectorAuthType::CurrencyAuthKey { auth_key_map } => {
            if auth_key_map.len() == 0 {
                Err(
                    ApiErrorResponse::InvalidDataFormat {
                        field_name: String::from_str(AUTH_KEY_MAP_FIELD),
                        expected_format: String::from_str(AUTH_KEY_MAP_FORMAT),
                    },
                )
            } else {
                Ok(())
            }
        },
        ConnectorAuthType::CertificateAuth { certificate, private_key } => {
            let cert = decode_credential_text(certificate);
            let key = decode_credential_text(private_key);
            if cert.is_some() && key.is_some() {
                Ok(())
            } else {
                Err(
                    ApiErrorResponse::InvalidDataFormat {
                        field_name: String::from_str(CERTIFICATE_FIELDS),
                        expected_format: String::from_str(CERTIFICATE_FORMAT),
                    },
                )
            }
        },
        ConnectorAuthType::NoKey => Ok(()),
    }
}

/// The rendering of a set of credentials for logs: the shape and field names,
/// each value replaced by the redaction marker.
pub open spec fn auth_type_text(a: ConnectorAuthType) -> Seq<char> {
    match a {
        ConnectorAuthType::TemporaryAuth => "TemporaryAuth"@,
        ConnectorAuthType::HeaderKey { .. } => "HeaderKey { api_key: "@ + REDACTION_MARKER@ + " }"@,
        ConnectorAuthType::BodyKey { .. } => "BodyKey { api_key: "@ + REDACTION_MARKER@ + ", key1: "@ + REDACTION_MARKER@ + " }"@,
        ConnectorAuthType::SignatureKey { .. } => "SignatureKey { api_key: "@ + REDACTION_MARKER@ + ", key1: "@ + REDACTION_MARKER@ + ", api_secret: "@ + REDACTION_MARKER@ + " }"@,
        ConnectorAuthType::MultiAuthKey { .. } => "MultiAuthKey { api_key: "@ + REDACTION_MARKER@ + ", key1: "@ + REDACTION_MARKER@ + ", api_secret: "@ + REDACTION_MARKER@ + ", key2: "@ + REDACTION_MARKER@ + " }"@,
        ConnectorAuthType::CurrencyAuthKey { .. } => "CurrencyAuthKey { auth_key_map: "@ + REDACTION_MARKER@ + " }"@,
        ConnectorAuthType::CertificateAuth { .. } => "CertificateAuth { certificate: "@ + REDACTION_MARKER@ + ", private_key: "@ + REDACTION_MARKER@ + " }"@,
        ConnectorAuthType::NoKey => "NoKey"@,
    }
}

/// Two sets of credentials have the same shape.
pub open spec fn same_auth_shape(a: ConnectorAuthType, b: ConnectorAuthType) -> bool {
    match a {
        ConnectorAuthType::TemporaryAuth => b is TemporaryAuth,
        ConnectorAuthType::HeaderKey { .. } => b is HeaderKey,
        ConnectorAuthType::BodyKey { .. } => b is BodyKey,
        ConnectorAuthType::SignatureKey { .. } => b is SignatureKey,
        ConnectorAuthType::MultiAuthKey { .. } => b is MultiAuthKey,
        ConnectorAuthType::CurrencyAuthKey { .. } => b is CurrencyAuthKey,
        ConnectorAuthType::CertificateAuth { .. } => b is CertificateAuth,
        ConnectorAuthType::NoKey => b is NoKey,
    }
}

impl ConnectorAuthType {
    /// Renders the credentials for logs and messages without any key.
    pub fn redacted_text(&self) -> (r: String)
        ensures
            r@ == auth_type_text(*self),
    {
        match self {
            ConnectorAuthType::TemporaryAuth => String::from_str("TemporaryAuth"),
            ConnectorAuthType::HeaderKey { .. } => String::from_str("HeaderKey { api_key: ").concat(REDACTION_MARKER).concat(" }"),
            ConnectorAuthType::BodyKey { .. } => String::from_str("BodyKey { api_key: ").concat(REDACTION_MARKER).concat(", key1: ").concat(REDACTION_MARKER).concat(" }"),
            ConnectorAuthType::SignatureKey { .. } => String::from_str("SignatureKey { api_key: ").concat(REDACTION_MARKER).concat(", key1: ").concat(REDACTION_MARKER).concat(", api_secret: ").concat(REDACTION_MARKER).concat(" }"),
            ConnectorAuthType::MultiAuthKey { .. } => String::from_str("MultiAuthKey { api_key: ").concat(REDACTION_MARKER).concat(", key1: ").concat(REDACTION_MARKER).concat(", api_secret: ").concat(REDACTION_MARKER).concat(", key2: ").concat(REDACTION_MARKER).concat(" }"),
            ConnectorAuthType::CurrencyAuthKey { .. } => String::from_str("CurrencyAuthKey { auth_key_map: ").concat(REDACTION_MARKER).concat(" }"),
            ConnectorAuthType::CertificateAuth { .. } => String::from_str("CertificateAuth { certificate: ").concat(REDACTION_MARKER).concat(", private_key: ").concat(REDACTION_MARKER).concat(" }"),
            ConnectorAuthType::NoKey => String::from_str("NoKey"),
        }
    }
}

/// The rendering of credentials depends on their shape alone: two sets of
/// credentials of one shape, whatever their keys, render the same text, so
/// no key can be read from it.
pub proof fn lemma_auth_rendering_hides_keys(a: ConnectorAuthType, b: ConnectorAuthType)
    requires
        same_auth_shape(a, b),
    ensures
        auth_type_text(a) == auth_type_text(b),
{
}

/// The Apple Pay session certificate pair carried in a connector account's
/// metadata, both base64 encoded.
#[derive(Clone, PartialEq, Eq)]
pub struct SessionTokenCertificates {
    pub certificate: Secret<String>,
    pub certificate_keys: Secret<String>,
}

/// Checks the Apple Pay session certificate pair of a connector account's
/// metadata, where there is one: both parts must decode from base64 to text.
pub fn validate_certificate_in_mca_metadata(session_token_data: &Option<SessionTokenCertificates>) -> (r:
    Result<(), ApiErrorResponse>)
    ensures
        match *session_token_data {
            None => r is Ok,
            Some(c) => (r is Ok <==> (decoded_text_of(secret_text(c.certificate)) is Some && decoded_text_of(
                secret_text(c.certificate_keys),
            ) is Some)),
        },
        r matches Err(e) ==> (e matches ApiErrorResponse::InvalidDataValue { field_name } && field_name@
            == "certificate/certificate key"@),
{
    match session_token_data {
        None => Ok(()),
        Some(c) => {
            let cert = decode_credential_text(&c.certificate);
            let key = decode_credential_text(&c.certificate_keys);
            if cert.is_some() && key.is_some() {
                Ok(())
            } else {
                Err(ApiErrorResponse::InvalidDataValue { field_name: String::from_str("certificate/certificate key") })
            }
        },
    }
}

/// The error of the credential check depends on the shape of the credentials
/// and on which field is blank, never on the keys' values: two sets of
/// credentials that fail alike get errors with the same texts, so no key can
/// be read from the error.
pub proof fn lemma_auth_check_error_hides_keys(
    a: ConnectorAuthType,
    b: ConnectorAuthType,
    ea: ApiErrorResponse,
    eb: ApiErrorResponse,
)
    requires
        same_auth_shape(a, b),
        first_blank_field(a) == first_blank_field(b),
        is_auth_check_error(a, ea),
        is_auth_check_error(b, eb),
    ensures
        ea matches ApiErrorResponse::InvalidDataFormat { field_name: fa, expected_format: xa } && eb
            matches ApiErrorResponse::InvalidDataFormat { field_name: fb, expected_format: xb } && fa@
            == fb@ && xa@ == xb@,
{
}

} // verus!
