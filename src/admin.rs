use vstd::prelude::*;
use vstd::string::*;

use crate::auth::{validate_connector_auth_type, ConnectorAuthType};
use crate::braintree::{BraintreeAuthType, BraintreeMeta};
use crate::enums::ConnectorStatus;
use crate::errors::{ApiErrorResponse, ConnectorError};

verus! {

/// The connectors this library has adapters for.
#[derive(Clone, Copy, Debug, PartialEq, Eq, Structural)]
pub enum Connector {
    Braintree,
}

/// Checks credentials and account metadata against what the connector's
/// adapter expects.
pub fn validate_auth_and_metadata_type_with_connector(
    connector_name: Connector,
    val: &ConnectorAuthType,
    connector_meta_data: &Option<BraintreeMeta>,
) -> (r: Result<(), ConnectorError>)
    ensures
        r is Ok <==> (val is SignatureKey && connector_meta_data is Some),
        !(val is SignatureKey) ==> r == Err::<(), ConnectorError>(ConnectorError::FailedToObtainAuthType),
        (val is SignatureKey && connector_meta_data is None) ==> (r matches Err(e)
            && e matches ConnectorError::InvalidConnectorConfig { config } && config@ == "metadata"@),
{
    match connector_name {
        Connector::Braintree => {
            BraintreeAuthType::try_from(val)?;
            BraintreeMeta::try_from(connector_meta_data)?;
            Ok(())
        },
    }
}

/// The message reported to the caller for an adapter's verdict on a
/// connector account's configuration.
pub open spec fn config_error_message(e: ConnectorError) -> Seq<char> {
    match e {
        ConnectorError::InvalidConnectorName => "The connector name is invalid"@,
        ConnectorError::InvalidConnectorConfig { config } => "The "@ + config@ + " is invalid"@,
        ConnectorError::FailedToObtainAuthType => "The auth type is invalid for the connector"@,
        _ => "The request body is invalid"@,
    }
}

/// Maps an adapter's verdict on a configuration to the error reported to the
/// caller.
pub fn config_error_response(e: ConnectorError) -> (r: ApiErrorResponse)
    ensures
        r matches ApiErrorResponse::InvalidRequestData { message } && message@ == config_error_message(e),
{
    let message = match e {
        ConnectorError::InvalidConnectorName => String::from_str("The connector name is invalid"),
        ConnectorError::InvalidConnectorConfig { config } => String::from_str("The ").concat(
            config.as_str(),
        ).concat(" is invalid"),
        ConnectorError::FailedToObtainAuthType => String::from_str(
            "The auth type is invalid for the connector",
        ),
        _ => String::from_str("The request body is invalid"),
    };
    ApiErrorResponse::InvalidRequestData { message }
}

/// Validates a connector account's credentials and metadata at creation or
/// update: first the shape of the credentials, then what the connector
/// expects of them.
pub fn validate_auth_and_metadata_type(
    connector_name: Connector,
    auth_type: &ConnectorAuthType,
    connector_meta_data: &Option<BraintreeMeta>,
) -> (r: Result<(), ApiErrorResponse>)
    ensures
        r is Ok <==> (crate::auth::auth_type_is_valid(*auth_type) && auth_type is SignatureKey
            && connector_meta_data is Some),
        !crate::auth::auth_type_is_valid(*auth_type) ==> (r matches Err(e)
            && crate::auth::is_auth_check_error(*auth_type, e)),
        (crate::auth::auth_type_is_valid(*auth_type) && !(auth_type is SignatureKey)) ==> (r matches Err(e)
            && e matches ApiErrorResponse::InvalidRequestData { message }
            && message@ == "The auth type is invalid for the connector"@),
        (crate::auth::auth_type_is_valid(*auth_type) && auth_type is SignatureKey
            && connector_meta_data is None) ==> (r matches Err(e)
            && e matches ApiErrorResponse::InvalidRequestData { message }
            && message@ == "The "@ + "metadata"@ + " is invalid"@),
{
    validate_connector_auth_type(auth_type)?;
    match validate_auth_and_metadata_type_with_connector(connector_name, auth_type, connector_meta_data) {
        Ok(()) => Ok(()),
        Err(e) => Err(config_error_response(e)),
    }
}

/// The status and enablement a connector account ends with, or why the
/// request is refused: credentials that are only temporary never make an
/// account active, and an inactive account cannot be enabled.
pub open spec fn status_and_disabled_outcome(
    status: Option<ConnectorStatus>,
    disabled: Option<bool>,
    temporary: bool,
    current_status: ConnectorStatus,
) -> Option<(ConnectorStatus, Option<bool>)> {
    if status == Some(ConnectorStatus::Active) && temporary {
        None
    } else {
        let s = match status {
            Some(s) => s,
            None => if temporary {
                ConnectorStatus::Inactive
            } else {
                current_status
            },
        };
        if disabled == Some(false) && s == ConnectorStatus::Inactive {
            None
        } else {
            let d = match disabled {
                Some(d) => Some(d),
                None => if s == ConnectorStatus::Inactive {
                    Some(true)
                } else {
                    None
                },
            };
            Some((s, d))
        }
    }
}

/// Settles the status and enablement of a connector account from the
/// requested values, its credentials and its current status.
pub fn validate_status_and_disabled(
    status: Option<ConnectorStatus>,
    disabled: Option<bool>,
    auth: &ConnectorAuthType,
    current_status: ConnectorStatus,
) -> (r: Result<(ConnectorStatus, Option<bool>), ApiErrorResponse>)
    ensures
        match status_and_disabled_outcome(status, disabled, auth is TemporaryAuth, current_status) {
            Some(v) => r == Ok::<(ConnectorStatus, Option<bool>), ApiErrorResponse>(v),
            None => r matches Err(e) && e is InvalidRequestData,
        },
{
    let temporary = match auth {
        ConnectorAuthType::TemporaryAuth => true,
        _ => false,
    };
    let connector_status = match status {
        Some(ConnectorStatus::Active) if temporary => {
            return Err(
                ApiErrorResponse::InvalidRequestData {
                    message: String::from_str(
                        "Connector status cannot be active when using TemporaryAuth",
                    ),
                },
            );
        },
        Some(s) => s,
        None => if temporary {
            ConnectorStatus::Inactive
        } else {
            current_status
        },
    };
    let disabled = match (disabled, connector_status) {
        (Some(false), ConnectorStatus::Inactive) => {
            return Err(
                ApiErrorResponse::InvalidRequestData {
                    message: String::from_str(
                        "Connector cannot be enabled when connector_status is inactive or when using TemporaryAuth",
                    ),
                },
            );
        },
        (Some(d), _) => Some(d),
        (None, ConnectorStatus::Inactive) => Some(true),
        (None, _) => None,
    };
    Ok((connector_status, disabled))
}

/// Temporary credentials never leave an account active.
pub proof fn lemma_temporary_auth_never_active(
    status: Option<ConnectorStatus>,
    disabled: Option<bool>,
    current_status: ConnectorStatus,
)
    ensures
        status_and_disabled_outcome(status, disabled, true, current_status) matches Some(v) ==> v.0
            == ConnectorStatus::Inactive && v.1 == Some(true),
{
}

/// What to do about the organization of a new merchant account.
#[derive(Clone, Debug, PartialEq, Eq)]
pub enum CreateOrValidateOrganization {
    /// Create a new organization.
    Create,
    /// Check that the given organization exists.
    Validate { organization_id: String },
}

impl CreateOrValidateOrganization {
    /// Validate the organization when one is given, create one otherwise.
    pub fn new(organization_id: Option<String>) -> (r: Self)
        ensures
            match organization_id {
                Some(id) => r == (CreateOrValidateOrganization::Validate { organization_id: id }),
                None => r == CreateOrValidateOrganization::Create,
            },
    {
        match organization_id {
            Some(organization_id) => Self::Validate { organization_id },
            None => Self::Create,
        }
    }
}

/// A business label under which a merchant operates.
#[derive(Clone, Debug, PartialEq, Eq)]
pub struct PrimaryBusinessDetails {
    pub country: String,
    pub business: String,
}

/// Which business profiles a new merchant account gets.
#[derive(Clone, Debug, PartialEq, Eq)]
pub enum CreateBusinessProfile {
    /// One profile per business label; a single one becomes the default.
    CreateFromPrimaryBusinessDetails { primary_business_details: Vec<PrimaryBusinessDetails> },
    /// One default profile.
    CreateDefaultBusinessProfile,
}

impl CreateBusinessProfile {
    /// Profiles from the business labels when there are any, a default
    /// profile otherwise.
    pub fn new(primary_business_details: Option<Vec<PrimaryBusinessDetails>>) -> (r: Self)
        ensures
            match primary_business_details {
                Some(v) => if v@.len() > 0 {
                    r == (CreateBusinessProfile::CreateFromPrimaryBusinessDetails { primary_business_details: v })
                } else {
                    r == CreateBusinessProfile::CreateDefaultBusinessProfile
                },
                None => r == CreateBusinessProfile::CreateDefaultBusinessProfile,
            },
    {
        match primary_business_details {
            Some(primary_business_details) => {
                if primary_business_details.len() > 0 {
                    Self::CreateFromPrimaryBusinessDetails { primary_business_details }
                } else {
                    Self::CreateDefaultBusinessProfile
                }
            },
            None => Self::CreateDefaultBusinessProfile,
        }
    }
}

/// A lowercase hexadecimal digit.
pub open spec fn is_lower_hex(c: char) -> bool {
    ('0' <= c && c <= '9') || ('a' <= c && c <= 'f')
}

/// Relies on `uuid::Uuid::new_v4` and its `simple` rendering: a random
/// identifier written as 32 lowercase hexadecimal digits.
#[verifier::external_body]
fn random_simple_uuid() -> (r: String)
    ensures
        r@.len() == 32,
        forall|i: int| 0 <= i < 32 ==> is_lower_hex(#[trigger] r@[i]),
{
    uuid::Uuid::new_v4().simple().to_string()
}

/// A publishable key for the environment and an identifier.
pub open spec fn publishable_key_text(env_prefix: Seq<char>, id: Seq<char>) -> Seq<char> {
    "pk_"@ + env_prefix + "_"@ + id
}

/// Builds a publishable key from the environment's prefix and an identifier.
pub fn publishable_key(env_prefix: &str, id: &str) -> (r: String)
    ensures
        r@ == publishable_key_text(env_prefix@, id@),
{
    String::from_str("pk_").concat(env_prefix).concat("_").concat(id)
}

/// A new publishable key for a merchant account in the given environment,
/// with a random identifier.
pub fn create_merchant_publishable_key(env_prefix: &str) -> (r: String)
    ensures
        exists|id: Seq<char>|
            {
                &&& id.len() == 32
                &&& forall|i: int| 0 <= i < 32 ==> is_lower_hex(#[trigger] id[i])
                &&& r@ == publishable_key_text(env_prefix@, id)
            },
{
    let id = random_simple_uuid();
    publishable_key(env_prefix, id.as_str())
}

/// Where a merchant's records are kept.
#[derive(Clone, Copy, Debug, PartialEq, Eq, Structural)]
pub enum MerchantStorageScheme {
    PostgresOnly,
    RedisKv,
}

/// The storage scheme that enabling or disabling key-value storage selects.
pub fn storage_scheme_for(enable: bool) -> (r: MerchantStorageScheme)
    ensures
        r == (if enable {
            MerchantStorageScheme::RedisKv
        } else {
            MerchantStorageScheme::PostgresOnly
        }),
{
    if enable {
        MerchantStorageScheme::RedisKv
    } else {
        MerchantStorageScheme::PostgresOnly
    }
}

/// Whether a storage scheme has key-value storage enabled.
pub fn is_kv_enabled(scheme: MerchantStorageScheme) -> (r: bool)
    ensures
        r == (scheme == MerchantStorageScheme::RedisKv),
{
    match scheme {
        MerchantStorageScheme::RedisKv => true,
        MerchantStorageScheme::PostgresOnly => false,
    }
}

/// Decides a key-value toggle for one merchant: `None` where the account
/// already has the requested scheme, the scheme to switch to otherwise.
/// Enabling is refused while the application is in soft-kill mode.
pub fn kv_toggle_target(enable: bool, current: MerchantStorageScheme, soft_kill_mode: bool) -> (r:
    Result<Option<MerchantStorageScheme>, ApiErrorResponse>)
    ensures
        r is Err <==> (enable && current == MerchantStorageScheme::PostgresOnly && soft_kill_mode),
        r matches Ok(t) ==> t == (if is_kv_scheme(current) == enable {
            None
        } else {
            Some(
                if enable {
                    MerchantStorageScheme::RedisKv
                } else {
                    MerchantStorageScheme::PostgresOnly
                },
            )
        }),
        r matches Err(e) ==> (e matches ApiErrorResponse::InvalidRequestData { message } && message@
            == "Kv cannot be enabled when application is in soft_kill_mode"@),
{
    match (enable, current) {
        (true, MerchantStorageScheme::RedisKv) | (false, MerchantStorageScheme::PostgresOnly) => Ok(None),
        (true, MerchantStorageScheme::PostgresOnly) => {
            if soft_kill_mode {
                Err(
                    ApiErrorResponse::InvalidRequestData {
                        message: String::from_str(
                            "Kv cannot be enabled when application is in soft_kill_mode",
                        ),
                    },
                )
            } else {
                Ok(Some(MerchantStorageScheme::RedisKv))
            }
        },
        (false, MerchantStorageScheme::RedisKv) => Ok(Some(MerchantStorageScheme::PostgresOnly)),
    }
}

/// A storage scheme with key-value storage enabled.
pub open spec fn is_kv_scheme(s: MerchantStorageScheme) -> bool {
    s == MerchantStorageScheme::RedisKv
}

} // verus!
