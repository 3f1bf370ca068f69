use vstd::prelude::*;

verus! {

/// Failures of a connector adapter while it builds a request or reads a response.
#[derive(Clone, Debug, PartialEq, Eq)]
pub enum ConnectorError {
    /// A mandatory piece of request data or account configuration is absent.
    MissingRequiredField { field_name: String },
    /// The connector does not support the requested capability.
    NotImplemented(String),
    /// The requested operation is not supported for this account.
    NotSupported { message: String, connector: String },
    /// The capture method of the request is not supported.
    CaptureMethodNotSupported,
    /// A response payload lacks a field that the connector may not omit.
    ResponseDeserializationFailed,
    /// A lookup found no transaction upstream.
    MissingConnectorTransactionID,
    /// A lookup found no refund upstream.
    MissingConnectorRefundID,
    /// The request could not be encoded.
    RequestEncodingFailed,
    /// A value could not be converted into the connector's format.
    ParsingFailed,
    /// Account metadata that the connector needs is absent.
    NoConnectorMetaData,
    /// The credentials do not have the shape the connector expects.
    FailedToObtainAuthType,
    /// A part of the account configuration is invalid.
    InvalidConnectorConfig { config: String },
    /// The connector name is not known.
    InvalidConnectorName,
}

/// Failures reported to the caller of the platform's API.
#[derive(Clone, Debug, PartialEq, Eq)]
pub enum ApiErrorResponse {
    InvalidDataFormat { field_name: String, expected_format: String },
    InvalidRequestData { message: String },
    InvalidDataValue { field_name: String },
    InternalServerError,
}

} // verus!
