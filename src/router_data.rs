use vstd::prelude::*;

use vstd::string::*;

use crate::auth::ConnectorAuthType;
use crate::errors::ConnectorError;
use crate::enums::{AttemptStatus, CaptureMethod, Currency, RefundStatus};
use crate::payment_method::PaymentMethodData;

verus! {

/// Code used when a connector error carries none.
pub const NO_ERROR_CODE: &'static str = "No error code";

/// Message used when a connector error carries none.
pub const NO_ERROR_MESSAGE: &'static str = "No error message";

/// The text of an optional string, for contracts.
pub open spec fn opt_text(o: Option<String>) -> Option<Seq<char>> {
    match o {
        Some(s) => Some(s@),
        None => None,
    }
}

/// The canonical error record of a connector-reported failure.
#[derive(Clone, Debug, PartialEq, Eq)]
pub struct ErrorResponse {
    pub code: String,
    pub message: String,
    pub reason: Option<String>,
    pub status_code: u16,
}

/// `e` is the normalized error for the given code, message and transport
/// status: absent code and message are replaced by the fixed sentinels and no
/// reason is set.
pub open spec fn is_normalized_error(
    e: ErrorResponse,
    code: Option<Seq<char>>,
    message: Option<Seq<char>>,
    http_code: u16,
) -> bool {
    &&& e.code@ == (match code {
        Some(c) => c,
        None => NO_ERROR_CODE@,
    })
    &&& e.message@ == (match message {
        Some(m) => m,
        None => NO_ERROR_MESSAGE@,
    })
    &&& e.reason is None
    &&& e.status_code == http_code
}

/// How a connector identifies a resource.
#[derive(Clone, Debug, PartialEq, Eq)]
pub enum ResponseId {
    ConnectorTransactionId(String),
    EncodedData(String),
    NoResponseId,
}

/// Canonical success payload of a payment operation.
#[derive(Clone, Debug, PartialEq, Eq)]
pub enum PaymentsResponseData {
    TransactionResponse {
        resource_id: ResponseId,
        redirection_data: Option<String>,
        mandate_reference: Option<String>,
        connector_metadata: Option<String>,
        network_txn_id: Option<String>,
        connector_response_reference_id: Option<String>,
    },
    TokenizationResponse { token: String },
}

/// A transaction response that carries only the resource id.
pub open spec fn is_plain_transaction_response(r: PaymentsResponseData, id: Seq<char>) -> bool {
    &&& r matches PaymentsResponseData::TransactionResponse {
        resource_id: ResponseId::ConnectorTransactionId(rid),
        redirection_data: None,
        mandate_reference: None,
        connector_metadata: None,
        network_txn_id: None,
        connector_response_reference_id: None,
    }
    &&& rid@ == id
}

/// Canonical success payload of a refund operation.
#[derive(Clone, Debug, PartialEq, Eq)]
pub struct RefundsResponseData {
    pub connector_refund_id: String,
    pub refund_status: RefundStatus,
}

/// The envelope that carries one operation through an adapter: its canonical
/// status, its request, its outcome, the account's credentials and the
/// account's metadata as the connector decodes it.
pub struct RouterData<Req, Resp, Meta> {
    pub status: AttemptStatus,
    pub request: Req,
    pub response: Result<Resp, ErrorResponse>,
    pub connector_auth_type: ConnectorAuthType,
    pub connector_meta_data: Option<Meta>,
    pub payment_method_token: Option<String>,
    pub connector_http_status_code: Option<u16>,
}

/// `new` is `old` with the response (and possibly the status) replaced.
pub open spec fn same_envelope<Req, Resp, Meta>(
    new: RouterData<Req, Resp, Meta>,
    old: RouterData<Req, Resp, Meta>,
) -> bool {
    &&& new.request == old.request
    &&& new.connector_auth_type == old.connector_auth_type
    &&& new.connector_meta_data == old.connector_meta_data
    &&& new.payment_method_token == old.payment_method_token
    &&& new.connector_http_status_code == old.connector_http_status_code
}

/// Request of an authorization, with or without automatic capture.
pub struct PaymentsAuthorizeData {
    pub amount: i64,
    pub currency: Currency,
    pub capture_method: Option<CaptureMethod>,
    pub payment_method_data: PaymentMethodData,
}

/// Request of a capture of an authorized payment.
pub struct PaymentsCaptureData {
    pub amount_to_capture: i64,
    pub currency: Currency,
    pub connector_transaction_id: String,
}

/// Request of a void of an authorized payment.
pub struct PaymentsCancelData {
    pub connector_transaction_id: String,
}

/// Request of a status lookup of a payment.
pub struct PaymentsSyncData {
    pub connector_transaction_id: ResponseId,
}

/// Request of a refund, or of a status lookup of one.
pub struct RefundsData {
    pub refund_amount: i64,
    pub currency: Currency,
    pub connector_transaction_id: String,
    pub connector_refund_id: Option<String>,
}

/// Request of a tokenization of a payment instrument.
pub struct PaymentMethodTokenizationData {
    pub payment_method_data: crate::api::PaymentMethodData,
}

/// An authorization is captured at once when the capture method is automatic
/// or unset.
pub open spec fn is_auto_capture_method(c: Option<CaptureMethod>) -> bool {
    c is None || c == Some(CaptureMethod::Automatic)
}

/// Capture methods an authorization can be built for: automatic, unset or
/// manual.
pub open spec fn is_supported_capture_method(c: Option<CaptureMethod>) -> bool {
    is_auto_capture_method(c) || c == Some(CaptureMethod::Manual)
}

impl PaymentsAuthorizeData {
    /// Whether the authorization is captured at once; methods other than
    /// automatic, unset or manual are refused.
    pub fn is_auto_capture(&self) -> (r: Result<bool, ConnectorError>)
        ensures
            r is Ok <==> is_supported_capture_method(self.capture_method),
            r matches Ok(b) ==> b == is_auto_capture_method(self.capture_method),
            r matches Err(e) ==> e == ConnectorError::CaptureMethodNotSupported,
    {
        match self.capture_method {
            None | Some(CaptureMethod::Automatic) => Ok(true),
            Some(CaptureMethod::Manual) => Ok(false),
            Some(_) => Err(ConnectorError::CaptureMethodNotSupported),
        }
    }
}

impl ResponseId {
    /// The connector's transaction id, where the response carries one.
    pub fn get_connector_transaction_id(&self) -> (r: Result<String, ConnectorError>)
        ensures
            self matches ResponseId::ConnectorTransactionId(id) ==> (r matches Ok(s) && s@ == id@),
            !(self is ConnectorTransactionId) ==> r == Err::<String, ConnectorError>(
                ConnectorError::MissingConnectorTransactionID,
            ),
    {
        match self {
            ResponseId::ConnectorTransactionId(id) => Ok(id.clone()),
            _ => Err(ConnectorError::MissingConnectorTransactionID),
        }
    }
}

impl<Req, Resp, Meta> RouterData<Req, Resp, Meta> {
    /// The payment method token that the flow must carry.
    pub fn get_payment_method_token(&self) -> (r: Result<String, ConnectorError>)
        ensures
            self.payment_method_token matches Some(t) ==> (r matches Ok(s) && s@ == t@),
            self.payment_method_token is None ==> (r matches Err(e) && e
                matches ConnectorError::MissingRequiredField { field_name } && field_name@
                == "payment_method_token"@),
    {
        match &self.payment_method_token {
            Some(t) => Ok(t.clone()),
            None => Err(
                ConnectorError::MissingRequiredField {
                    field_name: String::from_str("payment_method_token"),
                },
            ),
        }
    }
}

} // verus!
