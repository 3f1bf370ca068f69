use vstd::prelude::*;
use vstd::string::*;

use crate::api::PaymentMethodData as ApiPaymentMethodData;
use base64::Engine;

use crate::auth::ConnectorAuthType;
use crate::amount::{base_unit_text, to_currency_base_unit, MAX_CONVERTIBLE_AMOUNT};
use crate::enums::{AttemptStatus, Currency, RefundStatus};
use crate::errors::ConnectorError;
use crate::router_data::{
    is_normalized_error, is_plain_transaction_response, same_envelope, ErrorResponse,
    is_auto_capture_method, is_supported_capture_method, PaymentsAuthorizeData,
    PaymentMethodTokenizationData, PaymentsCancelData, PaymentsCaptureData, PaymentsResponseData, PaymentsSyncData, RefundsData, RefundsResponseData, ResponseId, RouterData, NO_ERROR_CODE,
    NO_ERROR_MESSAGE,
};
use crate::secret::{duplicate_optional, opt_secret_text, secret_text, Secret};

verus! {

// ---------------------------------------------------------------------------
// Status normalization
// ---------------------------------------------------------------------------

/// Settlement and authorization states of a processor transaction.
#[derive(Clone, Copy, Debug, PartialEq, Eq, Structural)]
pub enum BraintreePaymentStatus {
    Authorized,
    Authorizing,
    AuthorizedExpired,
    Failed,
    ProcessorDeclined,
    GatewayRejected,
    Voided,
    Settling,
    Settled,
    SettlementPending,
    SettlementDeclined,
    SettlementConfirmed,
    SubmittedForSettlement,
    /// A state the processor reported that this library does not know.
    Unrecognized,
}

/// The states that a rule classifies; every other state is in flight.
pub open spec fn is_classified_payment_status(s: BraintreePaymentStatus) -> bool {
    match s {
        BraintreePaymentStatus::Settling | BraintreePaymentStatus::Settled
        | BraintreePaymentStatus::AuthorizedExpired | BraintreePaymentStatus::Failed
        | BraintreePaymentStatus::GatewayRejected | BraintreePaymentStatus::ProcessorDeclined
        | BraintreePaymentStatus::SettlementDeclined | BraintreePaymentStatus::Authorized
        | BraintreePaymentStatus::Voided => true,
        _ => false,
    }
}

/// The canonical attempt status of a processor state.
pub open spec fn attempt_status_of(s: BraintreePaymentStatus) -> AttemptStatus {
    match s {
        BraintreePaymentStatus::Settling | BraintreePaymentStatus::Settled => AttemptStatus::Charged,
        BraintreePaymentStatus::AuthorizedExpired => AttemptStatus::AuthorizationFailed,
        BraintreePaymentStatus::Failed | BraintreePaymentStatus::GatewayRejected
        | BraintreePaymentStatus::ProcessorDeclined
        | BraintreePaymentStatus::SettlementDeclined => AttemptStatus::Failure,
        BraintreePaymentStatus::Authorized => AttemptStatus::Authorized,
        BraintreePaymentStatus::Voided => AttemptStatus::Voided,
        // In-flight states: authorizing, pending, confirmed or submitted
        // settlement, and any state not known here.
        _ => AttemptStatus::Pending,
    }
}

impl From<BraintreePaymentStatus> for AttemptStatus {
    fn from(item: BraintreePaymentStatus) -> (r: AttemptStatus) {
        match item {
            BraintreePaymentStatus::Settling | BraintreePaymentStatus::Settled => Self::Charged,
            BraintreePaymentStatus::AuthorizedExpired => Self::AuthorizationFailed,
            BraintreePaymentStatus::Failed | BraintreePaymentStatus::GatewayRejected
            | BraintreePaymentStatus::ProcessorDeclined
            | BraintreePaymentStatus::SettlementDeclined => Self::Failure,
            BraintreePaymentStatus::Authorized => Self::Authorized,
            BraintreePaymentStatus::Voided => Self::Voided,
            // Every state without a rule is in flight, never an error.
            _ => Self::Pending,
        }
    }
}

impl vstd::std_specs::convert::FromSpecImpl<BraintreePaymentStatus> for AttemptStatus {
    open spec fn obeys_from_spec() -> bool {
        true
    }

    open spec fn from_spec(v: BraintreePaymentStatus) -> AttemptStatus {
        attempt_status_of(v)
    }
}

/// Refund states of a processor.
#[derive(Clone, Copy, Debug, PartialEq, Eq, Structural)]
pub enum BraintreeRefundStatus {
    SettlementPending,
    Settling,
    Settled,
    SubmittedForSettlement,
    Failed,
    /// A state the processor reported that this library does not know.
    Unrecognized,
}

/// The canonical refund status of a processor refund state; a state not
/// known here is still in flight.
pub open spec fn refund_status_of(s: BraintreeRefundStatus) -> RefundStatus {
    match s {
        BraintreeRefundStatus::Settled | BraintreeRefundStatus::Settling => RefundStatus::Success,
        BraintreeRefundStatus::SubmittedForSettlement
        | BraintreeRefundStatus::SettlementPending => RefundStatus::Pending,
        BraintreeRefundStatus::Failed => RefundStatus::Failure,
        BraintreeRefundStatus::Unrecognized => RefundStatus::Pending,
    }
}

impl From<BraintreeRefundStatus> for RefundStatus {
    fn from(item: BraintreeRefundStatus) -> (r: RefundStatus) {
        match item {
            BraintreeRefundStatus::Settled | BraintreeRefundStatus::Settling => Self::Success,
            BraintreeRefundStatus::SubmittedForSettlement
            | BraintreeRefundStatus::SettlementPending => Self::Pending,
            BraintreeRefundStatus::Failed => Self::Failure,
            // A state not known here is in flight, never an error.
            BraintreeRefundStatus::Unrecognized => Self::Pending,
        }
    }
}

impl vstd::std_specs::convert::FromSpecImpl<BraintreeRefundStatus> for RefundStatus {
    open spec fn obeys_from_spec() -> bool {
        true
    }

    open spec fn from_spec(v: BraintreeRefundStatus) -> RefundStatus {
        refund_status_of(v)
    }
}

/// Every processor state, payment or refund, normalizes to exactly one
/// canonical status, and the terminal states to the documented ones:
/// settled or settling is charged (refunds: success), an expired
/// authorization is an authorization failure, declines and rejections are
/// failures, a reversal is voided.
pub proof fn lemma_status_tables_are_total(s: BraintreePaymentStatus, t: BraintreeRefundStatus)
    ensures
        attempt_status_of(s) is Authorized || attempt_status_of(s) is AuthorizationFailed
            || attempt_status_of(s) is Charged || attempt_status_of(s) is Voided
            || attempt_status_of(s) is Failure || attempt_status_of(s) is Pending,
        refund_status_of(t) is Success || refund_status_of(t) is Pending || refund_status_of(
            t,
        ) is Failure,
        (s is Settled || s is Settling) ==> attempt_status_of(s) == AttemptStatus::Charged,
        s is AuthorizedExpired ==> attempt_status_of(s) == AttemptStatus::AuthorizationFailed,
        (s is Failed || s is ProcessorDeclined || s is GatewayRejected || s is SettlementDeclined)
            ==> attempt_status_of(s) == AttemptStatus::Failure,
        s is Voided ==> attempt_status_of(s) == AttemptStatus::Voided,
        (t is Settled || t is Settling) ==> refund_status_of(t) == RefundStatus::Success,
{
}

/// A state that no rule classifies, including one not known here,
/// normalizes to `Pending`.
pub proof fn lemma_unclassified_status_is_pending(s: BraintreePaymentStatus, t: BraintreeRefundStatus)
    requires
        !is_classified_payment_status(s),
    ensures
        attempt_status_of(s) == AttemptStatus::Pending,
        t is Unrecognized ==> refund_status_of(t) == RefundStatus::Pending,
{
}

// ---------------------------------------------------------------------------
// Error normalization
// ---------------------------------------------------------------------------

/// One error reported in a response payload.
#[derive(Clone, Debug, PartialEq, Eq)]
pub struct ErrorDetails {
    pub message: String,
    pub extensions: Option<AdditionalErrorDetails>,
}

#[derive(Clone, Debug, PartialEq, Eq)]
pub struct AdditionalErrorDetails {
    pub legacy_code: Option<String>,
}

/// The code of the first reported error, if it has one.
pub open spec fn first_error_code(errs: Seq<ErrorDetails>) -> Option<Seq<char>> {
    if errs.len() > 0 {
        match errs[0].extensions {
            Some(x) => match x.legacy_code {
                Some(c) => Some(c@),
                None => None,
            },
            None => None,
        }
    } else {
        None
    }
}

/// The message of the first reported error, if there is one.
pub open spec fn first_error_message(errs: Seq<ErrorDetails>) -> Option<Seq<char>> {
    if errs.len() > 0 {
        Some(errs[0].message@)
    } else {
        None
    }
}

/// `r` is the failed outcome normalized from the reported errors: the first
/// entry alone supplies code and message.
pub open spec fn is_error_outcome<T>(r: Result<T, ErrorResponse>, errs: Seq<ErrorDetails>, http_code: u16) -> bool {
    r matches Err(e) && is_normalized_error(e, first_error_code(errs), first_error_message(errs), http_code)
}

/// The first reported error decides a failed outcome: its message, and its
/// legacy code where it has one, become the error's message and code, the
/// transport status becomes its status code, and later entries play no part.
pub proof fn lemma_first_error_decides<T>(r: Result<T, ErrorResponse>, errs: Seq<ErrorDetails>, http_code: u16)
    requires
        is_error_outcome(r, errs, http_code),
        errs.len() > 0,
    ensures
        r matches Err(e) && {
            &&& e.message@ == errs[0].message@
            &&& e.code@ == (match errs[0].extensions {
                Some(x) => match x.legacy_code {
                    Some(c) => c@,
                    None => NO_ERROR_CODE@,
                },
                None => NO_ERROR_CODE@,
            })
            &&& e.reason is None
            &&& e.status_code == http_code
        },
{
}

/// A failed outcome depends on the reported errors and the transport status
/// alone: two operations that receive the same errors end with the same code,
/// message and status, whatever their envelopes hold (credentials, card data,
/// request), so nothing from the envelope reaches the error.
pub proof fn lemma_error_outcome_depends_on_errors_alone<T1, T2>(
    r1: Result<T1, ErrorResponse>,
    r2: Result<T2, ErrorResponse>,
    errs: Seq<ErrorDetails>,
    http_code: u16,
)
    requires
        is_error_outcome(r1, errs, http_code),
        is_error_outcome(r2, errs, http_code),
    ensures
        r1 matches Err(e1) && r2 matches Err(e2) && e1.code@ == e2.code@ && e1.message@
            == e2.message@ && e1.reason == e2.reason && e1.status_code == e2.status_code,
{
}

/// The canonical error for an optional code and message and the transport
/// status: absent parts become the fixed sentinels.
pub fn get_error_response<T>(
    error_code: Option<String>,
    error_msg: Option<String>,
    http_code: u16,
) -> (r: Result<T, ErrorResponse>)
    ensures
        r matches Err(e) && is_normalized_error(
            e,
            crate::router_data::opt_text(error_code),
            crate::router_data::opt_text(error_msg),
            http_code,
        ),
{
    let code = match error_code {
        Some(c) => c,
        None => String::from_str(NO_ERROR_CODE),
    };
    let message = match error_msg {
        Some(m) => m,
        None => String::from_str(NO_ERROR_MESSAGE),
    };
    Err(ErrorResponse { code, message, reason: None, status_code: http_code })
}

/// The canonical error for a list of reported errors: only the first entry
/// is used.
pub fn build_error_response<T>(response: &[ErrorDetails], http_code: u16) -> (r: Result<T, ErrorResponse>)
    ensures
        is_error_outcome(r, response@, http_code),
{
    let mut code: Option<String> = None;
    let mut message: Option<String> = None;
    if response.len() > 0 {
        let first = &response[0];
        message = Some(first.message.clone());
        match &first.extensions {
            Some(x) => match &x.legacy_code {
                Some(c) => {
                    code = Some(c.clone());
                },
                None => {},
            },
            None => {},
        }
    }
    get_error_response(code, message, http_code)
}

// ---------------------------------------------------------------------------
// Account metadata and shared request checks
// ---------------------------------------------------------------------------

/// Account-scoped configuration: the sub-account that every mutation names
/// and the one currency the account takes.
#[derive(Clone, PartialEq, Eq)]
pub struct BraintreeMeta {
    pub merchant_account_id: Option<Secret<String>>,
    pub merchant_config_currency: Option<Currency>,
}

/// `e` reports the named missing field.
pub open spec fn is_missing_field(e: ConnectorError, name: Seq<char>) -> bool {
    e matches ConnectorError::MissingRequiredField { field_name } && field_name@ == name
}

/// The account metadata, which every flow that names the sub-account needs.
pub fn connector_meta(meta: &Option<BraintreeMeta>) -> (r: Result<&BraintreeMeta, ConnectorError>)
    ensures
        meta matches Some(m) ==> r == Ok::<&BraintreeMeta, ConnectorError>(&m),
        meta is None ==> (r matches Err(e) && is_missing_field(e, "connector_meta_data"@)),
{
    match meta {
        Some(m) => Ok(m),
        None => Err(ConnectorError::MissingRequiredField { field_name: String::from_str("connector_meta_data") }),
    }
}

/// The account takes only its configured currency.
pub open spec fn currency_accepted(request: Currency, configured: Option<Currency>) -> bool {
    configured == Some(request)
}

/// Checks the request currency against the account's configured currency.
pub fn validate_currency(request_currency: Currency, merchant_config_currency: Option<Currency>) -> (r: Result<(), ConnectorError>)
    ensures
        r is Ok <==> currency_accepted(request_currency, merchant_config_currency),
        merchant_config_currency is None ==> r == Err::<(), ConnectorError>(ConnectorError::NoConnectorMetaData),
        merchant_config_currency is Some ==> (r matches Err(e) ==> e matches ConnectorError::NotSupported { message, connector }
            && message@ == "currency "@ + request_currency.code_spec() + " is not supported for this merchant account"@
            && connector@ == "Braintree"@),
{
    match merchant_config_currency {
        None => Err(ConnectorError::NoConnectorMetaData),
        Some(configured) => {
            if request_currency == configured {
                Ok(())
            } else {
                let message = String::from_str("currency ").concat(request_currency.code()).concat(
                    " is not supported for this merchant account",
                );
                Err(ConnectorError::NotSupported { message, connector: String::from_str("Braintree") })
            }
        },
    }
}

// ---------------------------------------------------------------------------
// Authorize
// ---------------------------------------------------------------------------

/// Mutation that authorizes and captures at once.
pub const CHARGE_CREDIT_CARD_MUTATION: &'static str = "mutation ChargeCreditCard($input: ChargeCreditCardInput!) { chargeCreditCard(input: $input) { transaction { id legacyId createdAt amount { value currencyCode } status } } }";

/// Mutation that only authorizes.
pub const AUTHORIZE_CREDIT_CARD_MUTATION: &'static str = "mutation authorizeCreditCard($input: AuthorizeCreditCardInput!) { authorizeCreditCard(input: $input) {  transaction { id legacyId amount { value currencyCode } status } } }";

pub struct PaymentInput {
    pub payment_method_id: String,
    pub transaction: TransactionBody,
}

pub struct VariablePaymentInput {
    pub input: PaymentInput,
}

/// The wire request of an authorization or a charge.
pub struct BraintreePaymentsRequest {
    pub query: String,
    pub variables: VariablePaymentInput,
}

pub struct TransactionBody {
    pub amount: String,
    pub merchant_account_id: Secret<String>,
}

/// The steps of building an authorization all succeed: metadata present,
/// currency accepted, capture method supported, token present, amount
/// convertible, sub-account configured.
pub open spec fn authorize_request_builds<Resp>(
    item: RouterData<PaymentsAuthorizeData, Resp, BraintreeMeta>,
) -> bool {
    &&& item.connector_meta_data matches Some(m)
    &&& currency_accepted(item.request.currency, m.merchant_config_currency)
    &&& is_supported_capture_method(item.request.capture_method)
    &&& item.payment_method_token is Some
    &&& 0 <= item.request.amount <= MAX_CONVERTIBLE_AMOUNT
    &&& m.merchant_account_id is Some
}

impl BraintreePaymentsRequest {
    /// Builds the authorization mutation: a charge where the payment is
    /// captured at once, an authorization otherwise.
    pub fn try_from<Resp>(item: &RouterData<PaymentsAuthorizeData, Resp, BraintreeMeta>) -> (r:
        Result<Self, ConnectorError>)
        ensures
            r is Ok <==> authorize_request_builds(*item),
            item.connector_meta_data is None ==> (r matches Err(e) && is_missing_field(
                e,
                "connector_meta_data"@,
            )),
            item.connector_meta_data matches Some(m) ==> {
                &&& !currency_accepted(item.request.currency, m.merchant_config_currency) ==> (r matches Err(e) && (e is NoConnectorMetaData || e is NotSupported))
                &&& (currency_accepted(item.request.currency, m.merchant_config_currency)
                    && !is_supported_capture_method(item.request.capture_method)) ==> (r matches Err(e) && e is CaptureMethodNotSupported)
                &&& (currency_accepted(item.request.currency, m.merchant_config_currency)
                    && is_supported_capture_method(item.request.capture_method)
                    && item.payment_method_token is None) ==> (r matches Err(e) && is_missing_field(e, "payment_method_token"@))
                &&& (currency_accepted(item.request.currency, m.merchant_config_currency)
                    && is_supported_capture_method(item.request.capture_method)
                    && item.payment_method_token is Some
                    && !(0 <= item.request.amount <= MAX_CONVERTIBLE_AMOUNT)) ==> (r matches Err(e) && e is ParsingFailed)
                &&& (currency_accepted(item.request.currency, m.merchant_config_currency)
                    && is_supported_capture_method(item.request.capture_method)
                    && item.payment_method_token is Some
                    && 0 <= item.request.amount <= MAX_CONVERTIBLE_AMOUNT
                    && m.merchant_account_id is None) ==> (r matches Err(e) && is_missing_field(e, "merchant_account_id"@))
            },
            r matches Ok(req) ==> {
                &&& req.query@ == (if is_auto_capture_method(item.request.capture_method) {
                    CHARGE_CREDIT_CARD_MUTATION@
                } else {
                    AUTHORIZE_CREDIT_CARD_MUTATION@
                })
                &&& req.variables.input.payment_method_id@ == item.payment_method_token->0@
                &&& req.variables.input.transaction.amount@ == base_unit_text(
                    item.request.amount as nat,
                    item.request.currency,
                )
                &&& secret_text(req.variables.input.transaction.merchant_account_id) == secret_text(
                    item.connector_meta_data->0.merchant_account_id->0,
                )
            },
    {
        let metadata = connector_meta(&item.connector_meta_data)?;
        validate_currency(item.request.currency, metadata.merchant_config_currency)?;
        let auto_capture = item.request.is_auto_capture()?;
        let query = if auto_capture {
            String::from_str(CHARGE_CREDIT_CARD_MUTATION)
        } else {
            String::from_str(AUTHORIZE_CREDIT_CARD_MUTATION)
        };
        let payment_method_id = item.get_payment_method_token()?;
        let amount = to_currency_base_unit(item.request.amount, item.request.currency)?;
        let merchant_account_id = match &metadata.merchant_account_id {
            Some(id) => id.duplicate(),
            None => {
                return Err(
                    ConnectorError::MissingRequiredField {
                        field_name: String::from_str("merchant_account_id"),
                    },
                );
            },
        };
        Ok(BraintreePaymentsRequest {
            query,
            variables: VariablePaymentInput {
                input: PaymentInput {
                    payment_method_id,
                    transaction: TransactionBody { amount, merchant_account_id },
                },
            },
        })
    }
}

// ---------------------------------------------------------------------------
// Shared response handling
// ---------------------------------------------------------------------------

/// `d` is `data` with the reported errors as its outcome and its status kept.
pub open spec fn is_reported_error_outcome<Req, Resp, Meta>(
    d: RouterData<Req, Resp, Meta>,
    data: RouterData<Req, Resp, Meta>,
    errs: Seq<ErrorDetails>,
    http_code: u16,
) -> bool {
    &&& same_envelope(d, data)
    &&& d.status == data.status
    &&& is_error_outcome(d.response, errs, http_code)
}

/// `d` is `data` with a transaction outcome: the normalized status and a
/// response naming the transaction.
pub open spec fn is_transaction_outcome<Req, Meta>(
    d: RouterData<Req, PaymentsResponseData, Meta>,
    data: RouterData<Req, PaymentsResponseData, Meta>,
    id: Seq<char>,
    status: BraintreePaymentStatus,
) -> bool {
    &&& same_envelope(d, data)
    &&& d.status == attempt_status_of(status)
    &&& d.response matches Ok(p) && is_plain_transaction_response(p, id)
}

fn with_reported_errors<Req, Resp, Meta>(
    data: RouterData<Req, Resp, Meta>,
    errs: Vec<ErrorDetails>,
    http_code: u16,
) -> (d: RouterData<Req, Resp, Meta>)
    ensures
        is_reported_error_outcome(d, data, errs@, http_code),
{
    let response = build_error_response(errs.as_slice(), http_code);
    RouterData {
        status: data.status,
        request: data.request,
        response,
        connector_auth_type: data.connector_auth_type,
        connector_meta_data: data.connector_meta_data,
        payment_method_token: data.payment_method_token,
        connector_http_status_code: data.connector_http_status_code,
    }
}

fn with_transaction<Req, Meta>(
    data: RouterData<Req, PaymentsResponseData, Meta>,
    id: String,
    status: BraintreePaymentStatus,
) -> (d: RouterData<Req, PaymentsResponseData, Meta>)
    ensures
        is_transaction_outcome(d, data, id@, status),
{
    RouterData {
        status: AttemptStatus::from(status),
        request: data.request,
        response: Ok(
            PaymentsResponseData::TransactionResponse {
                resource_id: ResponseId::ConnectorTransactionId(id),
                redirection_data: None,
                mandate_reference: None,
                connector_metadata: None,
                network_txn_id: None,
                connector_response_reference_id: None,
            },
        ),
        connector_auth_type: data.connector_auth_type,
        connector_meta_data: data.connector_meta_data,
        payment_method_token: data.payment_method_token,
        connector_http_status_code: data.connector_http_status_code,
    }
}

// ---------------------------------------------------------------------------
// Authorize and charge responses
// ---------------------------------------------------------------------------

#[derive(Clone, Debug, PartialEq, Eq)]
pub struct BraintreeAuthResponse {
    pub data: Option<DataAuthResponse>,
    pub errors: Option<Vec<ErrorDetails>>,
}

#[derive(Clone, Debug, PartialEq, Eq)]
pub struct TransactionAuthChargeResponseBody {
    pub id: String,
    pub status: BraintreePaymentStatus,
}

#[derive(Clone, Debug, PartialEq, Eq)]
pub struct DataAuthResponse {
    pub authorize_credit_card: Option<AuthChargeCreditCard>,
}

#[derive(Clone, Debug, PartialEq, Eq)]
pub struct AuthChargeCreditCard {
    pub transaction: Option<TransactionAuthChargeResponseBody>,
}

#[derive(Clone, Debug, PartialEq, Eq)]
pub struct BraintreePaymentsResponse {
    pub data: Option<DataResponse>,
    pub errors: Option<Vec<ErrorDetails>>,
}

#[derive(Clone, Debug, PartialEq, Eq)]
pub struct DataResponse {
    pub charge_credit_card: Option<AuthChargeCreditCard>,
}

/// The transaction an authorization response reports, if it is complete.
pub open spec fn authorized_transaction(r: BraintreeAuthResponse) -> Option<
    TransactionAuthChargeResponseBody,
> {
    match r.data {
        Some(d) => match d.authorize_credit_card {
            Some(a) => a.transaction,
            None => None,
        },
        None => None,
    }
}

/// The transaction a charge response reports, if it is complete.
pub open spec fn charged_transaction(r: BraintreePaymentsResponse) -> Option<
    TransactionAuthChargeResponseBody,
> {
    match r.data {
        Some(d) => match d.charge_credit_card {
            Some(a) => a.transaction,
            None => None,
        },
        None => None,
    }
}

fn auth_charge_outcome<Req, Meta>(
    card: Option<AuthChargeCreditCard>,
    data: RouterData<Req, PaymentsResponseData, Meta>,
) -> (r: Result<RouterData<Req, PaymentsResponseData, Meta>, ConnectorError>)
    ensures
        match card {
            Some(c) => match c.transaction {
                Some(t) => r matches Ok(d) && is_transaction_outcome(d, data, t.id@, t.status),
                None => r == Err::<RouterData<Req, PaymentsResponseData, Meta>, ConnectorError>(
                    ConnectorError::ResponseDeserializationFailed,
                ),
            },
            None => r == Err::<RouterData<Req, PaymentsResponseData, Meta>, ConnectorError>(
                ConnectorError::ResponseDeserializationFailed,
            ),
        },
{
    match card {
        Some(c) => match c.transaction {
            Some(t) => Ok(with_transaction(data, t.id, t.status)),
            None => Err(ConnectorError::ResponseDeserializationFailed),
        },
        None => Err(ConnectorError::ResponseDeserializationFailed),
    }
}

/// Parses an authorization response. Reported errors take precedence over any
/// data: the outcome is then the error of the first entry.
pub fn parse_authorize_response<Req, Meta>(
    response: BraintreeAuthResponse,
    data: RouterData<Req, PaymentsResponseData, Meta>,
    http_code: u16,
) -> (r: Result<RouterData<Req, PaymentsResponseData, Meta>, ConnectorError>)
    ensures
        match response.errors {
            Some(errs) => r matches Ok(d) && is_reported_error_outcome(d, data, errs@, http_code),
            None => match authorized_transaction(response) {
                Some(t) => r matches Ok(d) && is_transaction_outcome(d, data, t.id@, t.status),
                None => r == Err::<RouterData<Req, PaymentsResponseData, Meta>, ConnectorError>(
                    ConnectorError::ResponseDeserializationFailed,
                ),
            },
        },
{
    match response.errors {
        Some(errs) => Ok(with_reported_errors(data, errs, http_code)),
        None => match response.data {
            Some(info) => auth_charge_outcome(info.authorize_credit_card, data),
            None => Err(ConnectorError::ResponseDeserializationFailed),
        },
    }
}

/// Parses a charge response. Reported errors take precedence over any data:
/// the outcome is then the error of the first entry.
pub fn parse_charge_response<Req, Meta>(
    response: BraintreePaymentsResponse,
    data: RouterData<Req, PaymentsResponseData, Meta>,
    http_code: u16,
) -> (r: Result<RouterData<Req, PaymentsResponseData, Meta>, ConnectorError>)
    ensures
        match response.errors {
            Some(errs) => r matches Ok(d) && is_reported_error_outcome(d, data, errs@, http_code),
            None => match charged_transaction(response) {
                Some(t) => r matches Ok(d) && is_transaction_outcome(d, data, t.id@, t.status),
                None => r == Err::<RouterData<Req, PaymentsResponseData, Meta>, ConnectorError>(
                    ConnectorError::ResponseDeserializationFailed,
                ),
            },
        },
{
    match response.errors {
        Some(errs) => Ok(with_reported_errors(data, errs, http_code)),
        None => match response.data {
            Some(info) => auth_charge_outcome(info.charge_credit_card, data),
            None => Err(ConnectorError::ResponseDeserializationFailed),
        },
    }
}

// ---------------------------------------------------------------------------
// Refund
// ---------------------------------------------------------------------------

/// Mutation that refunds a settled transaction.
pub const REFUND_TRANSACTION_MUTATION: &'static str = "mutation refundTransaction($input:  RefundTransactionInput!) { refundTransaction(input: $input) {clientMutationId refund { id legacyId amount { value currencyCode } status } } }";

pub struct RefundInputData {
    pub amount: String,
    pub merchant_account_id: Secret<String>,
}

pub struct BraintreeRefundInput {
    pub transaction_id: String,
    pub refund: RefundInputData,
}

pub struct BraintreeRefundVariables {
    pub input: BraintreeRefundInput,
}

/// The wire request of a refund.
pub struct BraintreeRefundRequest {
    pub query: String,
    pub variables: BraintreeRefundVariables,
}

/// The steps of building a refund all succeed: metadata present, currency
/// accepted, amount convertible, sub-account configured.
pub open spec fn refund_request_builds<Resp>(item: RouterData<RefundsData, Resp, BraintreeMeta>) -> bool {
    &&& item.connector_meta_data matches Some(m)
    &&& currency_accepted(item.request.currency, m.merchant_config_currency)
    &&& 0 <= item.request.refund_amount <= MAX_CONVERTIBLE_AMOUNT
    &&& m.merchant_account_id is Some
}

impl BraintreeRefundRequest {
    /// Builds the refund mutation for the transaction the request names.
    pub fn try_from<Resp>(item: &RouterData<RefundsData, Resp, BraintreeMeta>) -> (r: Result<
        Self,
        ConnectorError,
    >)
        ensures
            r is Ok <==> refund_request_builds(*item),
            item.connector_meta_data is None ==> (r matches Err(e) && is_missing_field(
                e,
                "connector_meta_data"@,
            )),
            item.connector_meta_data matches Some(m) ==> {
                &&& !currency_accepted(item.request.currency, m.merchant_config_currency) ==> (r matches Err(e) && (e is NoConnectorMetaData || e is NotSupported))
                &&& (currency_accepted(item.request.currency, m.merchant_config_currency)
                    && !(0 <= item.request.refund_amount <= MAX_CONVERTIBLE_AMOUNT)) ==> (r matches Err(e) && e is ParsingFailed)
                &&& (currency_accepted(item.request.currency, m.merchant_config_currency)
                    && 0 <= item.request.refund_amount <= MAX_CONVERTIBLE_AMOUNT
                    && m.merchant_account_id is None) ==> (r matches Err(e) && is_missing_field(e, "merchant_account_id"@))
            },
            r matches Ok(req) ==> {
                &&& req.query@ == REFUND_TRANSACTION_MUTATION@
                &&& req.variables.input.transaction_id@ == item.request.connector_transaction_id@
                &&& req.variables.input.refund.amount@ == base_unit_text(
                    item.request.refund_amount as nat,
                    item.request.currency,
                )
                &&& secret_text(req.variables.input.refund.merchant_account_id) == secret_text(
                    item.connector_meta_data->0.merchant_account_id->0,
                )
            },
    {
        let metadata = connector_meta(&item.connector_meta_data)?;
        validate_currency(item.request.currency, metadata.merchant_config_currency)?;
        let amount = to_currency_base_unit(item.request.refund_amount, item.request.currency)?;
        let merchant_account_id = match &metadata.merchant_account_id {
            Some(id) => id.duplicate(),
            None => {
                return Err(
                    ConnectorError::MissingRequiredField {
                        field_name: String::from_str("merchant_account_id"),
                    },
                );
            },
        };
        Ok(BraintreeRefundRequest {
            query: String::from_str(REFUND_TRANSACTION_MUTATION),
            variables: BraintreeRefundVariables {
                input: BraintreeRefundInput {
                    transaction_id: item.request.connector_transaction_id.clone(),
                    refund: RefundInputData { amount, merchant_account_id },
                },
            },
        })
    }
}

#[derive(Clone, Debug, PartialEq, Eq)]
pub struct BraintreeRefundTransactionBody {
    pub id: String,
    pub status: BraintreeRefundStatus,
}

#[derive(Clone, Debug, PartialEq, Eq)]
pub struct BraintreeRefundTransaction {
    pub refund: Option<BraintreeRefundTransactionBody>,
}

#[derive(Clone, Debug, PartialEq, Eq)]
pub struct BraintreeRefundResponseData {
    pub refund_transaction: Option<BraintreeRefundTransaction>,
}

#[derive(Clone, Debug, PartialEq, Eq)]
pub struct BraintreeRefundResponse {
    pub data: Option<BraintreeRefundResponseData>,
    pub errors: Option<Vec<ErrorDetails>>,
}

/// `d` is `data` with a refund outcome: a response naming the refund and its
/// normalized status.
pub open spec fn is_refund_outcome<Req, Meta>(
    d: RouterData<Req, RefundsResponseData, Meta>,
    data: RouterData<Req, RefundsResponseData, Meta>,
    id: Seq<char>,
    status: BraintreeRefundStatus,
) -> bool {
    &&& same_envelope(d, data)
    &&& d.status == data.status
    &&& d.response matches Ok(p) && p.connector_refund_id@ == id && p.refund_status
        == refund_status_of(status)
}

fn with_refund<Req, Meta>(
    data: RouterData<Req, RefundsResponseData, Meta>,
    id: String,
    status: BraintreeRefundStatus,
) -> (d: RouterData<Req, RefundsResponseData, Meta>)
    ensures
        is_refund_outcome(d, data, id@, status),
{
    RouterData {
        status: data.status,
        request: data.request,
        response: Ok(RefundsResponseData { connector_refund_id: id, refund_status: RefundStatus::from(status) }),
        connector_auth_type: data.connector_auth_type,
        connector_meta_data: data.connector_meta_data,
        payment_method_token: data.payment_method_token,
        connector_http_status_code: data.connector_http_status_code,
    }
}

/// The refund a refund response reports, if it is complete.
pub open spec fn executed_refund(r: BraintreeRefundResponse) -> Option<BraintreeRefundTransactionBody> {
    match r.data {
        Some(d) => match d.refund_transaction {
            Some(t) => t.refund,
            None => None,
        },
        None => None,
    }
}

/// Parses a refund response. Reported errors take precedence over any data.
pub fn parse_refund_response<Req, Meta>(
    response: BraintreeRefundResponse,
    data: RouterData<Req, RefundsResponseData, Meta>,
    http_code: u16,
) -> (r: Result<RouterData<Req, RefundsResponseData, Meta>, ConnectorError>)
    ensures
        match response.errors {
            Some(errs) => r matches Ok(d) && is_reported_error_outcome(d, data, errs@, http_code),
            None => match executed_refund(response) {
                Some(t) => r matches Ok(d) && is_refund_outcome(d, data, t.id@, t.status),
                None => r == Err::<RouterData<Req, RefundsResponseData, Meta>, ConnectorError>(
                    ConnectorError::ResponseDeserializationFailed,
                ),
            },
        },
{
    match response.errors {
        Some(errs) => Ok(with_reported_errors(data, errs, http_code)),
        None => match response.data {
            Some(info) => match info.refund_transaction {
                Some(t) => match t.refund {
                    Some(body) => Ok(with_refund(data, body.id, body.status)),
                    None => Err(ConnectorError::ResponseDeserializationFailed),
                },
                None => Err(ConnectorError::ResponseDeserializationFailed),
            },
            None => Err(ConnectorError::ResponseDeserializationFailed),
        },
    }
}

// ---------------------------------------------------------------------------
// Refund sync
// ---------------------------------------------------------------------------

/// Text of a refund search before the refund id.
pub const REFUND_SEARCH_PREFIX: &'static str = "query { search { refunds(input: { id: {is: \"";

/// Text of a refund search after the refund id.
pub const REFUND_SEARCH_SUFFIX: &'static str = "\"} }, first: 1) { edges { node { id status createdAt amount { value currencyCode } orderId } } } } }";

/// The wire request of a refund lookup.
pub struct BraintreeRSyncRequest {
    pub query: String,
}

/// The steps of building a refund lookup all succeed.
pub open spec fn rsync_request_builds<Resp>(item: RouterData<RefundsData, Resp, BraintreeMeta>) -> bool {
    &&& item.connector_meta_data matches Some(m)
    &&& currency_accepted(item.request.currency, m.merchant_config_currency)
    &&& item.request.connector_refund_id is Some
}

impl BraintreeRSyncRequest {
    /// Builds the search for the refund the request names.
    pub fn try_from<Resp>(item: &RouterData<RefundsData, Resp, BraintreeMeta>) -> (r: Result<
        Self,
        ConnectorError,
    >)
        ensures
            r is Ok <==> rsync_request_builds(*item),
            item.connector_meta_data is None ==> (r matches Err(e) && is_missing_field(
                e,
                "connector_meta_data"@,
            )),
            item.connector_meta_data matches Some(m) ==> {
                &&& !currency_accepted(item.request.currency, m.merchant_config_currency) ==> (r matches Err(e) && (e is NoConnectorMetaData || e is NotSupported))
                &&& (currency_accepted(item.request.currency, m.merchant_config_currency)
                    && item.request.connector_refund_id is None) ==> (r matches Err(e) && e is MissingConnectorTransactionID)
            },
            r matches Ok(req) ==> req.query@ == REFUND_SEARCH_PREFIX@ + item.request.connector_refund_id->0@ + REFUND_SEARCH_SUFFIX@,
    {
        let metadata = connector_meta(&item.connector_meta_data)?;
        validate_currency(item.request.currency, metadata.merchant_config_currency)?;
        let refund_id = match &item.request.connector_refund_id {
            Some(id) => id,
            None => {
                return Err(ConnectorError::MissingConnectorTransactionID);
            },
        };
        let query = String::from_str(REFUND_SEARCH_PREFIX).concat(refund_id.as_str()).concat(
            REFUND_SEARCH_SUFFIX,
        );
        Ok(BraintreeRSyncRequest { query })
    }
}

#[derive(Clone, Debug, PartialEq, Eq)]
pub struct RSyncNodeData {
    pub id: String,
    pub status: BraintreeRefundStatus,
}

#[derive(Clone, Debug, PartialEq, Eq)]
pub struct RSyncEdgeData {
    pub node: RSyncNodeData,
}

#[derive(Clone, Debug, PartialEq, Eq)]
pub struct RefundData {
    pub edges: Vec<RSyncEdgeData>,
}

#[derive(Clone, Debug, PartialEq, Eq)]
pub struct RSyncSearchData {
    pub refunds: Option<RefundData>,
}

#[derive(Clone, Debug, PartialEq, Eq)]
pub struct RSyncResponseData {
    pub search: Option<RSyncSearchData>,
}

#[derive(Clone, Debug, PartialEq, Eq)]
pub struct BraintreeRSyncResponse {
    pub data: Option<RSyncResponseData>,
    pub errors: Option<Vec<ErrorDetails>>,
}

/// The refund edges a refund search reports, if the payload is complete.
pub open spec fn refund_search_edges(r: BraintreeRSyncResponse) -> Option<Seq<RSyncEdgeData>> {
    match r.data {
        Some(d) => match d.search {
            Some(s) => match s.refunds {
                Some(f) => Some(f.edges@),
                None => None,
            },
            None => None,
        },
        None => None,
    }
}

/// Parses a refund search. Reported errors take precedence over any data; a
/// complete payload without matches means the refund is not found upstream.
pub fn parse_rsync_response<Req, Meta>(
    response: BraintreeRSyncResponse,
    data: RouterData<Req, RefundsResponseData, Meta>,
    http_code: u16,
) -> (r: Result<RouterData<Req, RefundsResponseData, Meta>, ConnectorError>)
    ensures
        match response.errors {
            Some(errs) => r matches Ok(d) && is_reported_error_outcome(d, data, errs@, http_code),
            None => match refund_search_edges(response) {
                Some(edges) => if edges.len() > 0 {
                    r matches Ok(d) && is_refund_outcome(d, data, edges[0].node.id@, edges[0].node.status)
                } else {
                    r == Err::<RouterData<Req, RefundsResponseData, Meta>, ConnectorError>(
                        ConnectorError::MissingConnectorRefundID,
                    )
                },
                None => r == Err::<RouterData<Req, RefundsResponseData, Meta>, ConnectorError>(
                    ConnectorError::ResponseDeserializationFailed,
                ),
            },
        },
{
    match response.errors {
        Some(errs) => Ok(with_reported_errors(data, errs, http_code)),
        None => {
            let refunds = match response.data {
                Some(d) => match d.search {
                    Some(s) => s.refunds,
                    None => None,
                },
                None => None,
            };
            match refunds {
                Some(f) => if f.edges.len() > 0 {
                    let node = &f.edges[0].node;
                    Ok(with_refund(data, node.id.clone(), node.status))
                } else {
                    Err(ConnectorError::MissingConnectorRefundID)
                },
                None => Err(ConnectorError::ResponseDeserializationFailed),
            }
        },
    }
}

// ---------------------------------------------------------------------------
// Capture
// ---------------------------------------------------------------------------

/// Mutation that captures an authorized transaction.
pub const CAPTURE_TRANSACTION_MUTATION: &'static str = "mutation captureTransaction($input: CaptureTransactionInput!) { captureTransaction(input: $input) { clientMutationId transaction { id legacyId amount { value currencyCode } status } } }";

#[derive(Clone, Debug, PartialEq, Eq)]
pub struct CaptureTransactionBody {
    pub amount: String,
}

#[derive(Clone, Debug, PartialEq, Eq)]
pub struct CaptureInputData {
    pub transaction_id: String,
    pub transaction: CaptureTransactionBody,
}

#[derive(Clone, Debug, PartialEq, Eq)]
pub struct VariableCaptureInput {
    pub input: CaptureInputData,
}

/// The wire request of a capture.
#[derive(Clone, Debug, PartialEq, Eq)]
pub struct BraintreeCaptureRequest {
    pub query: String,
    pub variables: VariableCaptureInput,
}

impl BraintreeCaptureRequest {
    /// Builds the capture mutation for the amount to capture.
    pub fn try_from<Resp, Meta>(item: &RouterData<PaymentsCaptureData, Resp, Meta>) -> (r: Result<
        Self,
        ConnectorError,
    >)
        ensures
            r is Ok <==> 0 <= item.request.amount_to_capture <= MAX_CONVERTIBLE_AMOUNT,
            r matches Err(e) ==> e is ParsingFailed,
            r matches Ok(req) ==> {
                &&& req.query@ == CAPTURE_TRANSACTION_MUTATION@
                &&& req.variables.input.transaction_id@ == item.request.connector_transaction_id@
                &&& req.variables.input.transaction.amount@ == base_unit_text(
                    item.request.amount_to_capture as nat,
                    item.request.currency,
                )
            },
    {
        let amount = to_currency_base_unit(item.request.amount_to_capture, item.request.currency)?;
        Ok(BraintreeCaptureRequest {
            query: String::from_str(CAPTURE_TRANSACTION_MUTATION),
            variables: VariableCaptureInput {
                input: CaptureInputData {
                    transaction_id: item.request.connector_transaction_id.clone(),
                    transaction: CaptureTransactionBody { amount },
                },
            },
        })
    }
}

#[derive(Clone, Debug, PartialEq, Eq)]
pub struct CaptureResponseTransactionBody {
    pub id: String,
    pub status: BraintreePaymentStatus,
}

#[derive(Clone, Debug, PartialEq, Eq)]
pub struct CaptureTransactionData {
    pub transaction: Option<CaptureResponseTransactionBody>,
}

#[derive(Clone, Debug, PartialEq, Eq)]
pub struct CaptureResponseData {
    pub capture_transaction: Option<CaptureTransactionData>,
}

#[derive(Clone, Debug, PartialEq, Eq)]
pub struct BraintreeCaptureResponse {
    pub data: Option<CaptureResponseData>,
    pub errors: Option<Vec<ErrorDetails>>,
}

/// The transaction a capture response reports, if it is complete.
pub open spec fn captured_transaction(r: BraintreeCaptureResponse) -> Option<
    CaptureResponseTransactionBody,
> {
    match r.data {
        Some(d) => match d.capture_transaction {
            Some(c) => c.transaction,
            None => None,
        },
        None => None,
    }
}

/// Parses a capture response. Reported errors take precedence over any data.
pub fn parse_capture_response<Req, Meta>(
    response: BraintreeCaptureResponse,
    data: RouterData<Req, PaymentsResponseData, Meta>,
    http_code: u16,
) -> (r: Result<RouterData<Req, PaymentsResponseData, Meta>, ConnectorError>)
    ensures
        match response.errors {
            Some(errs) => r matches Ok(d) && is_reported_error_outcome(d, data, errs@, http_code),
            None => match captured_transaction(response) {
                Some(t) => r matches Ok(d) && is_transaction_outcome(d, data, t.id@, t.status),
                None => r == Err::<RouterData<Req, PaymentsResponseData, Meta>, ConnectorError>(
                    ConnectorError::ResponseDeserializationFailed,
                ),
            },
        },
{
    match response.errors {
        Some(errs) => Ok(with_reported_errors(data, errs, http_code)),
        None => match response.data {
            Some(info) => match info.capture_transaction {
                Some(c) => match c.transaction {
                    Some(t) => Ok(with_transaction(data, t.id, t.status)),
                    None => Err(ConnectorError::ResponseDeserializationFailed),
                },
                None => Err(ConnectorError::ResponseDeserializationFailed),
            },
            None => Err(ConnectorError::ResponseDeserializationFailed),
        },
    }
}

// ---------------------------------------------------------------------------
// Void
// ---------------------------------------------------------------------------

/// Mutation that reverses an authorized transaction.
pub const REVERSE_TRANSACTION_MUTATION: &'static str = "mutation voidTransaction($input:  ReverseTransactionInput!) { reverseTransaction(input: $input) { clientMutationId reversal { ...  on Transaction { id legacyId amount { value currencyCode } status } } } }";

pub struct CancelInputData {
    pub transaction_id: String,
}

pub struct VariableCancelInput {
    pub input: CancelInputData,
}

/// The wire request of a void.
pub struct BraintreeCancelRequest {
    pub query: String,
    pub variables: VariableCancelInput,
}

impl BraintreeCancelRequest {
    /// Builds the reversal mutation for the transaction the request names.
    pub fn try_from<Resp, Meta>(item: &RouterData<PaymentsCancelData, Resp, Meta>) -> (r: Result<
        Self,
        ConnectorError,
    >)
        ensures
            r matches Ok(req) && req.query@ == REVERSE_TRANSACTION_MUTATION@
                && req.variables.input.transaction_id@ == item.request.connector_transaction_id@,
    {
        Ok(BraintreeCancelRequest {
            query: String::from_str(REVERSE_TRANSACTION_MUTATION),
            variables: VariableCancelInput {
                input: CancelInputData {
                    transaction_id: item.request.connector_transaction_id.clone(),
                },
            },
        })
    }
}

#[derive(Clone, Debug, PartialEq, Eq)]
pub struct CancelResponseTransactionBody {
    pub id: String,
    pub status: BraintreePaymentStatus,
}

#[derive(Clone, Debug, PartialEq, Eq)]
pub struct CancelTransactionData {
    pub reversal: Option<CancelResponseTransactionBody>,
}

#[derive(Clone, Debug, PartialEq, Eq)]
pub struct CancelResponseData {
    pub reverse_transaction: Option<CancelTransactionData>,
}

#[derive(Clone, Debug, PartialEq, Eq)]
pub struct BraintreeCancelResponse {
    pub data: Option<CancelResponseData>,
    pub errors: Option<Vec<ErrorDetails>>,
}

/// The reversal a void response reports, if it is complete.
pub open spec fn reversed_transaction(r: BraintreeCancelResponse) -> Option<
    CancelResponseTransactionBody,
> {
    match r.data {
        Some(d) => match d.reverse_transaction {
            Some(c) => c.reversal,
            None => None,
        },
        None => None,
    }
}

/// Parses a void response. Reported errors take precedence over any data.
pub fn parse_cancel_response<Req, Meta>(
    response: BraintreeCancelResponse,
    data: RouterData<Req, PaymentsResponseData, Meta>,
    http_code: u16,
) -> (r: Result<RouterData<Req, PaymentsResponseData, Meta>, ConnectorError>)
    ensures
        match response.errors {
            Some(errs) => r matches Ok(d) && is_reported_error_outcome(d, data, errs@, http_code),
            None => match reversed_transaction(response) {
                Some(t) => r matches Ok(d) && is_transaction_outcome(d, data, t.id@, t.status),
                None => r == Err::<RouterData<Req, PaymentsResponseData, Meta>, ConnectorError>(
                    ConnectorError::ResponseDeserializationFailed,
                ),
            },
        },
{
    match response.errors {
        Some(errs) => Ok(with_reported_errors(data, errs, http_code)),
        None => match response.data {
            Some(info) => match info.reverse_transaction {
                Some(c) => match c.reversal {
                    Some(t) => Ok(with_transaction(data, t.id, t.status)),
                    None => Err(ConnectorError::ResponseDeserializationFailed),
                },
                None => Err(ConnectorError::ResponseDeserializationFailed),
            },
            None => Err(ConnectorError::ResponseDeserializationFailed),
        },
    }
}

// ---------------------------------------------------------------------------
// Payment sync
// ---------------------------------------------------------------------------

/// Text of a transaction search before the transaction id.
pub const TRANSACTION_SEARCH_PREFIX: &'static str = "query { search { transactions(input: { id: {is: \"";

/// Text of a transaction search after the transaction id.
pub const TRANSACTION_SEARCH_SUFFIX: &'static str = "\"} }, first: 1) { edges { node { id status createdAt amount { value currencyCode } orderId } } } } }";

/// The wire request of a payment lookup.
pub struct BraintreePSyncRequest {
    pub query: String,
}

impl BraintreePSyncRequest {
    /// Builds the search for the transaction the request names.
    pub fn try_from<Resp, Meta>(item: &RouterData<PaymentsSyncData, Resp, Meta>) -> (r: Result<
        Self,
        ConnectorError,
    >)
        ensures
            r is Ok <==> item.request.connector_transaction_id is ConnectorTransactionId,
            r matches Err(e) ==> e is MissingConnectorTransactionID,
            item.request.connector_transaction_id matches ResponseId::ConnectorTransactionId(id)
                ==> (r matches Ok(req) && req.query@ == TRANSACTION_SEARCH_PREFIX@ + id@
                + TRANSACTION_SEARCH_SUFFIX@),
    {
        let transaction_id = item.request.connector_transaction_id.get_connector_transaction_id()?;
        let query = String::from_str(TRANSACTION_SEARCH_PREFIX).concat(transaction_id.as_str()).concat(
            TRANSACTION_SEARCH_SUFFIX,
        );
        Ok(BraintreePSyncRequest { query })
    }
}

#[derive(Clone, Debug, PartialEq, Eq)]
pub struct NodeData {
    pub id: String,
    pub status: BraintreePaymentStatus,
}

#[derive(Clone, Debug, PartialEq, Eq)]
pub struct EdgeData {
    pub node: NodeData,
}

#[derive(Clone, Debug, PartialEq, Eq)]
pub struct TransactionData {
    pub edges: Vec<EdgeData>,
}

#[derive(Clone, Debug, PartialEq, Eq)]
pub struct SearchData {
    pub transactions: Option<TransactionData>,
}

#[derive(Clone, Debug, PartialEq, Eq)]
pub struct PSyncResponseData {
    pub search: Option<SearchData>,
}

#[derive(Clone, Debug, PartialEq, Eq)]
pub struct BraintreePSyncResponse {
    pub data: Option<PSyncResponseData>,
    pub errors: Option<Vec<ErrorDetails>>,
}

/// The transaction edges a transaction search reports, if the payload is
/// complete.
pub open spec fn transaction_search_edges(r: BraintreePSyncResponse) -> Option<Seq<EdgeData>> {
    match r.data {
        Some(d) => match d.search {
            Some(s) => match s.transactions {
                Some(t) => Some(t.edges@),
                None => None,
            },
            None => None,
        },
        None => None,
    }
}

/// Parses a transaction search. Reported errors take precedence over any
/// data; a complete payload without matches means the transaction is not
/// found upstream.
pub fn parse_psync_response<Req, Meta>(
    response: BraintreePSyncResponse,
    data: RouterData<Req, PaymentsResponseData, Meta>,
    http_code: u16,
) -> (r: Result<RouterData<Req, PaymentsResponseData, Meta>, ConnectorError>)
    ensures
        match response.errors {
            Some(errs) => r matches Ok(d) && is_reported_error_outcome(d, data, errs@, http_code),
            None => match transaction_search_edges(response) {
                Some(edges) => if edges.len() > 0 {
                    r matches Ok(d) && is_transaction_outcome(d, data, edges[0].node.id@, edges[0].node.status)
                } else {
                    r == Err::<RouterData<Req, PaymentsResponseData, Meta>, ConnectorError>(
                        ConnectorError::MissingConnectorTransactionID,
                    )
                },
                None => r == Err::<RouterData<Req, PaymentsResponseData, Meta>, ConnectorError>(
                    ConnectorError::ResponseDeserializationFailed,
                ),
            },
        },
{
    match response.errors {
        Some(errs) => Ok(with_reported_errors(data, errs, http_code)),
        None => {
            let transactions = match response.data {
                Some(d) => match d.search {
                    Some(s) => s.transactions,
                    None => None,
                },
                None => None,
            };
            match transactions {
                Some(t) => if t.edges.len() > 0 {
                    let node = &t.edges[0].node;
                    Ok(with_transaction(data, node.id.clone(), node.status))
                } else {
                    Err(ConnectorError::MissingConnectorTransactionID)
                },
                None => Err(ConnectorError::ResponseDeserializationFailed),
            }
        },
    }
}

// ---------------------------------------------------------------------------
// Tokenize
// ---------------------------------------------------------------------------

/// Mutation that vaults a card and returns its payment method id.
pub const TOKENIZE_CREDIT_CARD_MUTATION: &'static str = "mutation  tokenizeCreditCard($input: TokenizeCreditCardInput!) { tokenizeCreditCard(input: $input) { clientMutationId paymentMethod { id } } }";

/// The client mutation id sent with every tokenization.
pub const TOKENIZE_CLIENT_MUTATION_ID: &'static str = "12345667890";

pub struct CreditCardData {
    pub number: Secret<String>,
    pub expiration_year: Secret<String>,
    pub expiration_month: Secret<String>,
    pub cvv: Secret<String>,
    pub cardholder_name: Option<Secret<String>>,
}

pub struct InputData {
    pub client_mutation_id: String,
    pub credit_card: CreditCardData,
}

pub struct VariableInput {
    pub input: InputData,
}

/// The wire request of a card tokenization.
pub struct BraintreeTokenRequest {
    pub query: String,
    pub variables: VariableInput,
}

impl BraintreeTokenRequest {
    /// Builds the tokenization mutation; only cards can be tokenized.
    pub fn try_from<Resp, Meta>(item: &RouterData<PaymentMethodTokenizationData, Resp, Meta>) -> (r:
        Result<Self, ConnectorError>)
        ensures
            r is Ok <==> item.request.payment_method_data is Card,
            r matches Err(e) ==> (e matches ConnectorError::NotImplemented(c) && c@ == "Payment Method"@),
            item.request.payment_method_data matches ApiPaymentMethodData::Card(card) ==> (r matches Ok(req) && {
                &&& req.query@ == TOKENIZE_CREDIT_CARD_MUTATION@
                &&& req.variables.input.client_mutation_id@ == TOKENIZE_CLIENT_MUTATION_ID@
                &&& secret_text(req.variables.input.credit_card.number) == secret_text(card.card_number)
                &&& secret_text(req.variables.input.credit_card.expiration_year) == secret_text(card.card_exp_year)
                &&& secret_text(req.variables.input.credit_card.expiration_month) == secret_text(card.card_exp_month)
                &&& secret_text(req.variables.input.credit_card.cvv) == secret_text(card.card_cvc)
                &&& opt_secret_text(req.variables.input.credit_card.cardholder_name) == opt_secret_text(card.card_holder_name)
            }),
    {
        match &item.request.payment_method_data {
            ApiPaymentMethodData::Card(card) => {
                let credit_card = CreditCardData {
                    number: card.card_number.duplicate(),
                    expiration_year: card.card_exp_year.duplicate(),
                    expiration_month: card.card_exp_month.duplicate(),
                    cvv: card.card_cvc.duplicate(),
                    cardholder_name: duplicate_optional(&card.card_holder_name),
                };
                Ok(BraintreeTokenRequest {
                    query: String::from_str(TOKENIZE_CREDIT_CARD_MUTATION),
                    variables: VariableInput {
                        input: InputData {
                            client_mutation_id: String::from_str(TOKENIZE_CLIENT_MUTATION_ID),
                            credit_card,
                        },
                    },
                })
            },
            _ => Err(ConnectorError::NotImplemented(String::from_str("Payment Method"))),
        }
    }
}

#[derive(Clone, Debug, PartialEq, Eq)]
pub struct TokenizePaymentMethodData {
    pub id: String,
}

#[derive(Clone, Debug, PartialEq, Eq)]
pub struct TokenizeCreditCardData {
    pub payment_method: Option<TokenizePaymentMethodData>,
}

#[derive(Clone, Debug, PartialEq, Eq)]
pub struct TokenizeCreditCard {
    pub tokenize_credit_card: Option<TokenizeCreditCardData>,
}

#[derive(Clone, Debug, PartialEq, Eq)]
pub struct BraintreeTokenResponse {
    pub data: Option<TokenizeCreditCard>,
    pub errors: Option<Vec<ErrorDetails>>,
}

/// Parses a tokenization response. Reported errors take precedence over any
/// data; a response without data means no payment method was created.
pub fn parse_token_response<Req, Meta>(
    response: BraintreeTokenResponse,
    data: RouterData<Req, PaymentsResponseData, Meta>,
    http_code: u16,
) -> (r: Result<RouterData<Req, PaymentsResponseData, Meta>, ConnectorError>)
    ensures
        match response.errors {
            Some(errs) => r matches Ok(d) && is_reported_error_outcome(d, data, errs@, http_code),
            None => match response.data {
                None => r == Err::<RouterData<Req, PaymentsResponseData, Meta>, ConnectorError>(
                    ConnectorError::MissingConnectorTransactionID,
                ),
                Some(t) => match t.tokenize_credit_card {
                    Some(c) => match c.payment_method {
                        Some(pm) => r matches Ok(d) && same_envelope(d, data) && d.status == data.status
                            && (d.response matches Ok(PaymentsResponseData::TokenizationResponse { token }) && token@ == pm.id@),
                        None => r == Err::<RouterData<Req, PaymentsResponseData, Meta>, ConnectorError>(
                            ConnectorError::ResponseDeserializationFailed,
                        ),
                    },
                    None => r == Err::<RouterData<Req, PaymentsResponseData, Meta>, ConnectorError>(
                        ConnectorError::ResponseDeserializationFailed,
                    ),
                },
            },
        },
{
    match response.errors {
        Some(errs) => Ok(with_reported_errors(data, errs, http_code)),
        None => {
            let token = match response.data {
                None => {
                    return Err(ConnectorError::MissingConnectorTransactionID);
                },
                Some(t) => match t.tokenize_credit_card {
                    Some(c) => match c.payment_method {
                        Some(pm) => pm.id,
                        None => {
                            return Err(ConnectorError::ResponseDeserializationFailed);
                        },
                    },
                    None => {
                        return Err(ConnectorError::ResponseDeserializationFailed);
                    },
                },
            };
            Ok(RouterData {
                status: data.status,
                request: data.request,
                response: Ok(PaymentsResponseData::TokenizationResponse { token }),
                connector_auth_type: data.connector_auth_type,
                connector_meta_data: data.connector_meta_data,
                payment_method_token: data.payment_method_token,
                connector_http_status_code: data.connector_http_status_code,
            })
        },
    }
}

// ---------------------------------------------------------------------------
// Credentials and account configuration
// ---------------------------------------------------------------------------

/// What base64's standard engine encodes bytes to.
pub uninterp spec fn base64_encoded(b: Seq<u8>) -> Seq<char>;

/// Relies on `base64::engine::general_purpose::STANDARD.encode`: the standard,
/// padded base64 text of the bytes, four characters for every three bytes or
/// part of them.
#[verifier::external_body]
fn encode_base64(b: &[u8]) -> (r: String)
    ensures
        r@ == base64_encoded(b@),
        r@.len() == 4 * ((b@.len() + 2) / 3),
{
    base64::engine::general_purpose::STANDARD.encode(b)
}

/// The credentials in the form requests carry: a basic authorization header
/// made of the public and private keys, and the merchant id.
pub struct BraintreeAuthType {
    pub auth_header: String,
    pub merchant_id: Secret<String>,
}

/// The basic authorization header for a public and a private key.
pub open spec fn basic_auth_header(public_key: Seq<char>, private_key: Seq<char>) -> Seq<char> {
    "Basic "@ + base64_encoded(vstd::utf8::encode_utf8(public_key + ":"@ + private_key))
}

impl BraintreeAuthType {
    /// Reads the credentials, which must be a signature key: public key,
    /// merchant id and private key.
    pub fn try_from(item: &ConnectorAuthType) -> (r: Result<Self, ConnectorError>)
        ensures
            r is Ok <==> item is SignatureKey,
            r matches Err(e) ==> e is FailedToObtainAuthType,
            *item matches ConnectorAuthType::SignatureKey { api_key, key1, api_secret } ==> (r matches Ok(a)
                && a.auth_header@ == basic_auth_header(secret_text(api_key), secret_text(api_secret))
                && secret_text(a.merchant_id) == secret_text(key1)),
    {
        match item {
            ConnectorAuthType::SignatureKey { api_key, key1, api_secret } => {
                let auth_key = api_key.expose().clone().concat(":").concat(api_secret.expose().as_str());
                let encoded = encode_base64(auth_key.as_str().as_bytes());
                Ok(BraintreeAuthType {
                    auth_header: String::from_str("Basic ").concat(encoded.as_str()),
                    merchant_id: key1.duplicate(),
                })
            },
            _ => Err(ConnectorError::FailedToObtainAuthType),
        }
    }
}

impl BraintreeMeta {
    /// Checks that the account carries metadata for the connector.
    pub fn try_from(meta: &Option<BraintreeMeta>) -> (r: Result<&BraintreeMeta, ConnectorError>)
        ensures
            r is Ok <==> meta is Some,
            r matches Ok(m) ==> Some(*m) == *meta,
            r matches Err(e) ==> (e matches ConnectorError::InvalidConnectorConfig { config } && config@ == "metadata"@),
    {
        match meta {
            Some(m) => Ok(m),
            None => Err(ConnectorError::InvalidConnectorConfig { config: String::from_str("metadata") }),
        }
    }
}

} // verus!
