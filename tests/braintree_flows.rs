use payswitch_core::api;
use payswitch_core::auth::ConnectorAuthType;
use payswitch_core::braintree::{
    build_error_response, get_error_response, parse_authorize_response, parse_cancel_response,
    parse_capture_response, parse_charge_response, parse_psync_response, parse_refund_response,
    parse_rsync_response, parse_token_response, AdditionalErrorDetails, AuthChargeCreditCard,
    BraintreeAuthResponse, BraintreeAuthType, BraintreeCancelRequest, BraintreeCancelResponse,
    BraintreeCaptureRequest, BraintreeCaptureResponse, BraintreeMeta, BraintreePSyncRequest,
    BraintreePSyncResponse, BraintreePaymentStatus, BraintreePaymentsRequest,
    BraintreePaymentsResponse, BraintreeRSyncRequest, BraintreeRSyncResponse,
    BraintreeRefundRequest, BraintreeRefundResponse, BraintreeRefundResponseData,
    BraintreeRefundStatus, BraintreeRefundTransaction, BraintreeRefundTransactionBody,
    BraintreeTokenRequest, BraintreeTokenResponse, CancelResponseData,
    CancelResponseTransactionBody, CancelTransactionData, CaptureResponseData,
    CaptureResponseTransactionBody, CaptureTransactionData, DataAuthResponse, DataResponse,
    EdgeData, ErrorDetails, NodeData, PSyncResponseData, RSyncEdgeData, RSyncNodeData,
    RSyncResponseData, RSyncSearchData, RefundData, SearchData, TokenizeCreditCard,
    TokenizeCreditCardData, TokenizePaymentMethodData, TransactionAuthChargeResponseBody,
    TransactionData, AUTHORIZE_CREDIT_CARD_MUTATION, CAPTURE_TRANSACTION_MUTATION,
    CHARGE_CREDIT_CARD_MUTATION, REFUND_TRANSACTION_MUTATION, REVERSE_TRANSACTION_MUTATION,
    TOKENIZE_CREDIT_CARD_MUTATION,
};
use payswitch_core::enums::{AttemptStatus, CaptureMethod, Currency, RefundStatus};
use payswitch_core::errors::ConnectorError;
use payswitch_core::payment_method::{CryptoData, PaymentMethodData};
use payswitch_core::router_data::{
    ErrorResponse, PaymentMethodTokenizationData, PaymentsAuthorizeData, PaymentsCancelData,
    PaymentsCaptureData, PaymentsResponseData, PaymentsSyncData, RefundsData, RefundsResponseData,
    ResponseId, RouterData,
};
use payswitch_core::secret::Secret;

use BraintreePaymentStatus as S;
use BraintreeRefundStatus as R;

fn secret(s: &str) -> Secret<String> {
    Secret::new(s.to_string())
}

fn meta(account: Option<&str>, currency: Option<Currency>) -> BraintreeMeta {
    BraintreeMeta {
        merchant_account_id: account.map(secret),
        merchant_config_currency: currency,
    }
}

fn envelope<Req, Resp>(request: Req, m: Option<BraintreeMeta>) -> RouterData<Req, Resp, BraintreeMeta> {
    RouterData {
        status: AttemptStatus::Pending,
        request,
        response: Err(ErrorResponse {
            code: "init".to_string(),
            message: "init".to_string(),
            reason: None,
            status_code: 0,
        }),
        connector_auth_type: ConnectorAuthType::SignatureKey {
            api_key: secret("public"),
            key1: secret("merchant"),
            api_secret: secret("private"),
        },
        connector_meta_data: m,
        payment_method_token: Some("tok_123".to_string()),
        connector_http_status_code: None,
    }
}

fn authorize(capture: Option<CaptureMethod>, amount: i64) -> PaymentsAuthorizeData {
    PaymentsAuthorizeData {
        amount,
        currency: Currency::USD,
        capture_method: capture,
        payment_method_data: PaymentMethodData::Crypto(CryptoData { pay_currency: None, network: None }),
    }
}

fn err(message: &str, code: Option<&str>) -> ErrorDetails {
    ErrorDetails {
        message: message.to_string(),
        extensions: Some(AdditionalErrorDetails { legacy_code: code.map(|c| c.to_string()) }),
    }
}

fn auth_response(status: BraintreePaymentStatus, errors: Option<Vec<ErrorDetails>>) -> BraintreeAuthResponse {
    BraintreeAuthResponse {
        data: Some(DataAuthResponse {
            authorize_credit_card: Some(AuthChargeCreditCard {
                transaction: Some(TransactionAuthChargeResponseBody { id: "txn_1".to_string(), status }),
            }),
        }),
        errors,
    }
}

fn resource_id(r: &Result<PaymentsResponseData, ErrorResponse>) -> Option<String> {
    match r {
        Ok(PaymentsResponseData::TransactionResponse {
            resource_id: ResponseId::ConnectorTransactionId(id),
            redirection_data: None,
            mandate_reference: None,
            connector_metadata: None,
            network_txn_id: None,
            connector_response_reference_id: None,
        }) => Some(id.clone()),
        _ => None,
    }
}

#[test]
fn authorize_without_auto_capture_selects_authorize_template() {
    let item = envelope::<_, PaymentsResponseData>(authorize(Some(CaptureMethod::Manual), 1234), Some(meta(Some("acct_1"), Some(Currency::USD))));
    let req = BraintreePaymentsRequest::try_from(&item).ok().unwrap();
    assert_eq!(req.query, AUTHORIZE_CREDIT_CARD_MUTATION);
    assert_ne!(req.query, CHARGE_CREDIT_CARD_MUTATION);
    assert_eq!(req.variables.input.payment_method_id, "tok_123");
    assert_eq!(req.variables.input.transaction.amount, "12.34");
    assert_eq!(req.variables.input.transaction.merchant_account_id.expose(), "acct_1");
}

#[test]
fn authorize_with_auto_capture_selects_charge_template() {
    for capture in [None, Some(CaptureMethod::Automatic)] {
        let item = envelope::<_, PaymentsResponseData>(authorize(capture, 500), Some(meta(Some("acct_1"), Some(Currency::USD))));
        let req = BraintreePaymentsRequest::try_from(&item).ok().unwrap();
        assert_eq!(req.query, CHARGE_CREDIT_CARD_MUTATION);
        assert_eq!(req.variables.input.transaction.amount, "5.00");
    }
}

#[test]
fn authorize_missing_merchant_account_fails_with_named_field() {
    let item = envelope::<_, PaymentsResponseData>(authorize(None, 500), Some(meta(None, Some(Currency::USD))));
    match BraintreePaymentsRequest::try_from(&item) {
        Err(ConnectorError::MissingRequiredField { field_name }) => assert_eq!(field_name, "merchant_account_id"),
        _ => panic!("expected a missing merchant_account_id"),
    }
}

#[test]
fn authorize_without_metadata_fails() {
    let item = envelope::<_, PaymentsResponseData>(authorize(None, 500), None);
    match BraintreePaymentsRequest::try_from(&item) {
        Err(ConnectorError::MissingRequiredField { field_name }) => assert_eq!(field_name, "connector_meta_data"),
        _ => panic!("expected missing metadata"),
    }
}

#[test]
fn authorize_currency_checks() {
    let item = envelope::<_, PaymentsResponseData>(authorize(None, 500), Some(meta(Some("a"), None)));
    assert!(matches!(BraintreePaymentsRequest::try_from(&item), Err(ConnectorError::NoConnectorMetaData)));
    let item = envelope::<_, PaymentsResponseData>(authorize(None, 500), Some(meta(Some("a"), Some(Currency::EUR))));
    match BraintreePaymentsRequest::try_from(&item) {
        Err(ConnectorError::NotSupported { message, connector }) => {
            assert_eq!(message, "currency USD is not supported for this merchant account");
            assert_eq!(connector, "Braintree");
        }
        _ => panic!("expected an unsupported currency"),
    }
}

#[test]
fn authorize_other_failures() {
    let item = envelope::<_, PaymentsResponseData>(authorize(Some(CaptureMethod::Scheduled), 500), Some(meta(Some("a"), Some(Currency::USD))));
    assert!(matches!(BraintreePaymentsRequest::try_from(&item), Err(ConnectorError::CaptureMethodNotSupported)));
    let item = envelope::<_, PaymentsResponseData>(authorize(None, -1), Some(meta(Some("a"), Some(Currency::USD))));
    assert!(matches!(BraintreePaymentsRequest::try_from(&item), Err(ConnectorError::ParsingFailed)));
    let mut item = envelope::<_, PaymentsResponseData>(authorize(None, 5), Some(meta(Some("a"), Some(Currency::USD))));
    item.payment_method_token = None;
    match BraintreePaymentsRequest::try_from(&item) {
        Err(ConnectorError::MissingRequiredField { field_name }) => assert_eq!(field_name, "payment_method_token"),
        _ => panic!("expected a missing token"),
    }
}

#[test]
fn settled_response_is_charged() {
    let data = envelope::<_, PaymentsResponseData>(authorize(None, 5), None);
    let out = parse_authorize_response(auth_response(BraintreePaymentStatus::Settled, None), data, 200).ok().unwrap();
    assert_eq!(out.status, AttemptStatus::Charged);
    assert_eq!(resource_id(&out.response), Some("txn_1".to_string()));
}

#[test]
fn expired_authorization_is_authorization_failed() {
    let data = envelope::<_, PaymentsResponseData>(authorize(None, 5), None);
    let out = parse_authorize_response(auth_response(BraintreePaymentStatus::AuthorizedExpired, None), data, 200).ok().unwrap();
    assert_eq!(out.status, AttemptStatus::AuthorizationFailed);
    assert_ne!(out.status, AttemptStatus::Failure);
}

#[test]
fn declined_status_is_failure() {
    assert_eq!(AttemptStatus::from(BraintreePaymentStatus::ProcessorDeclined), AttemptStatus::Failure);
    let data = envelope::<_, PaymentsResponseData>(authorize(None, 5), None);
    let out = parse_authorize_response(auth_response(BraintreePaymentStatus::ProcessorDeclined, None), data, 200).ok().unwrap();
    assert_eq!(out.status, AttemptStatus::Failure);
}

#[test]
fn decline_with_errors_uses_first_error() {
    let data = envelope::<_, PaymentsResponseData>(authorize(None, 5), None);
    let errors = vec![err("Processor declined", Some("2000")), err("second", Some("3000"))];
    let out = parse_authorize_response(auth_response(BraintreePaymentStatus::ProcessorDeclined, Some(errors)), data, 422)
        .ok()
        .unwrap();
    assert_eq!(out.status, AttemptStatus::Pending);
    let e = out.response.err().unwrap();
    assert_eq!(e.code, "2000");
    assert_eq!(e.message, "Processor declined");
    assert_eq!(e.reason, None);
    assert_eq!(e.status_code, 422);
}

#[test]
fn status_table_exact_values() {
    let expected = [
        (S::Authorized, AttemptStatus::Authorized),
        (S::Authorizing, AttemptStatus::Pending),
        (S::AuthorizedExpired, AttemptStatus::AuthorizationFailed),
        (S::Failed, AttemptStatus::Failure),
        (S::ProcessorDeclined, AttemptStatus::Failure),
        (S::GatewayRejected, AttemptStatus::Failure),
        (S::Voided, AttemptStatus::Voided),
        (S::Settling, AttemptStatus::Charged),
        (S::Settled, AttemptStatus::Charged),
        (S::SettlementPending, AttemptStatus::Pending),
        (S::SettlementDeclined, AttemptStatus::Failure),
        (S::SettlementConfirmed, AttemptStatus::Pending),
        (S::SubmittedForSettlement, AttemptStatus::Pending),
        (S::Unrecognized, AttemptStatus::Pending),
    ];
    for (s, a) in expected {
        assert_eq!(AttemptStatus::from(s), a);
    }
    assert_eq!(RefundStatus::from(R::Settled), RefundStatus::Success);
    assert_eq!(RefundStatus::from(R::Settling), RefundStatus::Success);
    assert_eq!(RefundStatus::from(R::SettlementPending), RefundStatus::Pending);
    assert_eq!(RefundStatus::from(R::SubmittedForSettlement), RefundStatus::Pending);
    assert_eq!(RefundStatus::from(R::Failed), RefundStatus::Failure);
    assert_eq!(RefundStatus::from(R::Unrecognized), RefundStatus::Pending);
}

#[test]
fn unclassified_statuses_are_pending() {
    for s in [
        BraintreePaymentStatus::Authorizing,
        BraintreePaymentStatus::SettlementPending,
        BraintreePaymentStatus::SettlementConfirmed,
        BraintreePaymentStatus::SubmittedForSettlement,
        BraintreePaymentStatus::Unrecognized,
    ] {
        assert_eq!(AttemptStatus::from(s), AttemptStatus::Pending);
    }
}

#[test]
fn error_normalization_sentinels() {
    let r: Result<(), ErrorResponse> = build_error_response(&[], 500);
    let e = r.err().unwrap();
    assert_eq!(e.code, "No error code");
    assert_eq!(e.message, "No error message");
    assert_eq!(e.status_code, 500);
    let r: Result<(), ErrorResponse> = build_error_response(&[ErrorDetails { message: "m".to_string(), extensions: None }], 400);
    let e = r.err().unwrap();
    assert_eq!(e.code, "No error code");
    assert_eq!(e.message, "m");
    let r: Result<(), ErrorResponse> = get_error_response(Some("c".to_string()), None, 401);
    let e = r.err().unwrap();
    assert_eq!((e.code.as_str(), e.message.as_str(), e.status_code), ("c", "No error message", 401));
}

#[test]
fn authorize_response_missing_parts_fail() {
    let data = envelope::<_, PaymentsResponseData>(authorize(None, 5), None);
    let r = parse_authorize_response(BraintreeAuthResponse { data: None, errors: None }, data, 200);
    assert!(matches!(r, Err(ConnectorError::ResponseDeserializationFailed)));
    let data = envelope::<_, PaymentsResponseData>(authorize(None, 5), None);
    let resp = BraintreeAuthResponse {
        data: Some(DataAuthResponse { authorize_credit_card: Some(AuthChargeCreditCard { transaction: None }) }),
        errors: None,
    };
    assert!(matches!(parse_authorize_response(resp, data, 200), Err(ConnectorError::ResponseDeserializationFailed)));
}

#[test]
fn charge_response_reports_status() {
    let data = envelope::<_, PaymentsResponseData>(authorize(None, 5), None);
    let resp = BraintreePaymentsResponse {
        data: Some(DataResponse {
            charge_credit_card: Some(AuthChargeCreditCard {
                transaction: Some(TransactionAuthChargeResponseBody { id: "c1".to_string(), status: BraintreePaymentStatus::SubmittedForSettlement }),
            }),
        }),
        errors: None,
    };
    let out = parse_charge_response(resp, data, 200).ok().unwrap();
    assert_eq!(out.status, AttemptStatus::Pending);
    assert_eq!(resource_id(&out.response), Some("c1".to_string()));
}

fn sync_response(edges: Vec<EdgeData>) -> BraintreePSyncResponse {
    BraintreePSyncResponse {
        data: Some(PSyncResponseData { search: Some(SearchData { transactions: Some(TransactionData { edges }) }) }),
        errors: None,
    }
}

#[test]
fn empty_sync_lookup_is_missing_transaction() {
    let data = envelope::<_, PaymentsResponseData>(PaymentsSyncData { connector_transaction_id: ResponseId::ConnectorTransactionId("t".to_string()) }, None);
    let r = parse_psync_response(sync_response(vec![]), data, 200);
    assert!(matches!(r, Err(ConnectorError::MissingConnectorTransactionID)));
}

#[test]
fn sync_lookup_uses_first_edge() {
    let data = envelope::<_, PaymentsResponseData>(PaymentsSyncData { connector_transaction_id: ResponseId::ConnectorTransactionId("t".to_string()) }, None);
    let edges = vec![
        EdgeData { node: NodeData { id: "first".to_string(), status: BraintreePaymentStatus::Voided } },
        EdgeData { node: NodeData { id: "second".to_string(), status: BraintreePaymentStatus::Settled } },
    ];
    let out = parse_psync_response(sync_response(edges), data, 200).ok().unwrap();
    assert_eq!(out.status, AttemptStatus::Voided);
    assert_eq!(resource_id(&out.response), Some("first".to_string()));
    let data = envelope::<_, PaymentsResponseData>(PaymentsSyncData { connector_transaction_id: ResponseId::NoResponseId }, None);
    let r = parse_psync_response(BraintreePSyncResponse { data: Some(PSyncResponseData { search: None }), errors: None }, data, 200);
    assert!(matches!(r, Err(ConnectorError::ResponseDeserializationFailed)));
}

#[test]
fn sync_request_needs_transaction_id() {
    let item = envelope::<_, PaymentsResponseData>(PaymentsSyncData { connector_transaction_id: ResponseId::ConnectorTransactionId("abc".to_string()) }, None);
    let req = BraintreePSyncRequest::try_from(&item).ok().unwrap();
    assert_eq!(req.query, "query { search { transactions(input: { id: {is: \"abc\"} }, first: 1) { edges { node { id status createdAt amount { value currencyCode } orderId } } } } }");
    let item = envelope::<_, PaymentsResponseData>(PaymentsSyncData { connector_transaction_id: ResponseId::EncodedData("x".to_string()) }, None);
    assert!(matches!(BraintreePSyncRequest::try_from(&item), Err(ConnectorError::MissingConnectorTransactionID)));
}

fn refunds(amount: i64, refund_id: Option<&str>) -> RefundsData {
    RefundsData {
        refund_amount: amount,
        currency: Currency::USD,
        connector_transaction_id: "txn_9".to_string(),
        connector_refund_id: refund_id.map(|s| s.to_string()),
    }
}

#[test]
fn refund_request_and_response() {
    let item = envelope::<_, RefundsResponseData>(refunds(250, None), Some(meta(Some("acct"), Some(Currency::USD))));
    let req = BraintreeRefundRequest::try_from(&item).ok().unwrap();
    assert_eq!(req.query, REFUND_TRANSACTION_MUTATION);
    assert_eq!(req.variables.input.transaction_id, "txn_9");
    assert_eq!(req.variables.input.refund.amount, "2.50");
    assert_eq!(req.variables.input.refund.merchant_account_id.expose(), "acct");
    let item = envelope::<_, RefundsResponseData>(refunds(250, None), Some(meta(None, Some(Currency::USD))));
    assert!(matches!(BraintreeRefundRequest::try_from(&item), Err(ConnectorError::MissingRequiredField { .. })));

    let data = envelope::<_, RefundsResponseData>(refunds(250, None), None);
    let resp = BraintreeRefundResponse {
        data: Some(BraintreeRefundResponseData {
            refund_transaction: Some(BraintreeRefundTransaction {
                refund: Some(BraintreeRefundTransactionBody { id: "r1".to_string(), status: BraintreeRefundStatus::Settled }),
            }),
        }),
        errors: None,
    };
    let out = parse_refund_response(resp, data, 200).ok().unwrap();
    assert_eq!(out.response.ok().unwrap(), RefundsResponseData { connector_refund_id: "r1".to_string(), refund_status: RefundStatus::Success });
}

#[test]
fn refund_sync_request_and_empty_lookup() {
    let item = envelope::<_, RefundsResponseData>(refunds(1, Some("ref_7")), Some(meta(Some("acct"), Some(Currency::USD))));
    let req = BraintreeRSyncRequest::try_from(&item).ok().unwrap();
    assert_eq!(req.query, "query { search { refunds(input: { id: {is: \"ref_7\"} }, first: 1) { edges { node { id status createdAt amount { value currencyCode } orderId } } } } }");
    let item = envelope::<_, RefundsResponseData>(refunds(1, None), Some(meta(Some("acct"), Some(Currency::USD))));
    assert!(matches!(BraintreeRSyncRequest::try_from(&item), Err(ConnectorError::MissingConnectorTransactionID)));

    let data = envelope::<_, RefundsResponseData>(refunds(1, Some("ref_7")), None);
    let resp = BraintreeRSyncResponse {
        data: Some(RSyncResponseData { search: Some(RSyncSearchData { refunds: Some(RefundData { edges: vec![] }) }) }),
        errors: None,
    };
    assert!(matches!(parse_rsync_response(resp, data, 200), Err(ConnectorError::MissingConnectorRefundID)));
    let data = envelope::<_, RefundsResponseData>(refunds(1, Some("ref_7")), None);
    let resp = BraintreeRSyncResponse {
        data: Some(RSyncResponseData {
            search: Some(RSyncSearchData {
                refunds: Some(RefundData {
                    edges: vec![RSyncEdgeData { node: RSyncNodeData { id: "ref_7".to_string(), status: BraintreeRefundStatus::Failed } }],
                }),
            }),
        }),
        errors: None,
    };
    let out = parse_rsync_response(resp, data, 200).ok().unwrap();
    assert_eq!(out.response.ok().unwrap().refund_status, RefundStatus::Failure);
}

#[test]
fn capture_and_cancel_flows() {
    let item = envelope::<_, PaymentsResponseData>(
        PaymentsCaptureData { amount_to_capture: 1000, currency: Currency::JPY, connector_transaction_id: "t1".to_string() },
        None,
    );
    let req = BraintreeCaptureRequest::try_from(&item).ok().unwrap();
    assert_eq!(req.query, CAPTURE_TRANSACTION_MUTATION);
    assert_eq!(req.variables.input.transaction.amount, "1000.00");
    assert_eq!(req.variables.input.transaction_id, "t1");
    let resp = BraintreeCaptureResponse {
        data: Some(CaptureResponseData {
            capture_transaction: Some(CaptureTransactionData {
                transaction: Some(CaptureResponseTransactionBody { id: "t1".to_string(), status: BraintreePaymentStatus::Settling }),
            }),
        }),
        errors: None,
    };
    let out = parse_capture_response(resp, item, 200).ok().unwrap();
    assert_eq!(out.status, AttemptStatus::Charged);

    let item = envelope::<_, PaymentsResponseData>(PaymentsCancelData { connector_transaction_id: "t2".to_string() }, None);
    let req = BraintreeCancelRequest::try_from(&item).ok().unwrap();
    assert_eq!(req.query, REVERSE_TRANSACTION_MUTATION);
    assert_eq!(req.variables.input.transaction_id, "t2");
    let resp = BraintreeCancelResponse {
        data: Some(CancelResponseData {
            reverse_transaction: Some(CancelTransactionData {
                reversal: Some(CancelResponseTransactionBody { id: "t2".to_string(), status: BraintreePaymentStatus::Voided }),
            }),
        }),
        errors: None,
    };
    let out = parse_cancel_response(resp, item, 200).ok().unwrap();
    assert_eq!(out.status, AttemptStatus::Voided);
    assert_eq!(resource_id(&out.response), Some("t2".to_string()));
}

fn api_card() -> api::Card {
    api::Card {
        card_number: secret("4111111111111111"),
        card_exp_month: secret("03"),
        card_exp_year: secret("2030"),
        card_holder_name: Some(secret("Jo Doe")),
        card_cvc: secret("737"),
        card_issuer: None,
        card_network: None,
        card_type: None,
        card_issuing_country: None,
        bank_code: None,
        nick_name: None,
    }
}

#[test]
fn tokenize_card_only() {
    let item = envelope::<_, PaymentsResponseData>(
        PaymentMethodTokenizationData { payment_method_data: api::PaymentMethodData::Card(api_card()) },
        None,
    );
    let req = BraintreeTokenRequest::try_from(&item).ok().unwrap();
    assert_eq!(req.query, TOKENIZE_CREDIT_CARD_MUTATION);
    assert_eq!(req.variables.input.client_mutation_id, "12345667890");
    assert_eq!(req.variables.input.credit_card.number.expose(), "4111111111111111");
    assert_eq!(req.variables.input.credit_card.cvv.expose(), "737");
    assert_eq!(req.variables.input.credit_card.cardholder_name.as_ref().map(|n| n.expose().clone()), Some("Jo Doe".to_string()));
    let item = envelope::<_, PaymentsResponseData>(
        PaymentMethodTokenizationData { payment_method_data: api::PaymentMethodData::Reward },
        None,
    );
    match BraintreeTokenRequest::try_from(&item) {
        Err(ConnectorError::NotImplemented(c)) => assert_eq!(c, "Payment Method"),
        _ => panic!("expected not implemented"),
    }
}

#[test]
fn token_response_outcomes() {
    let data = envelope::<_, PaymentsResponseData>(authorize(None, 1), None);
    let resp = BraintreeTokenResponse {
        data: Some(TokenizeCreditCard {
            tokenize_credit_card: Some(TokenizeCreditCardData { payment_method: Some(TokenizePaymentMethodData { id: "pm_1".to_string() }) }),
        }),
        errors: None,
    };
    let out = parse_token_response(resp, data, 200).ok().unwrap();
    assert_eq!(out.response.ok().unwrap(), PaymentsResponseData::TokenizationResponse { token: "pm_1".to_string() });
    let data = envelope::<_, PaymentsResponseData>(authorize(None, 1), None);
    let r = parse_token_response(BraintreeTokenResponse { data: None, errors: None }, data, 200);
    assert!(matches!(r, Err(ConnectorError::MissingConnectorTransactionID)));
}

#[test]
fn braintree_auth_header() {
    let auth = ConnectorAuthType::SignatureKey { api_key: secret("pub"), key1: secret("mid"), api_secret: secret("priv") };
    let a = BraintreeAuthType::try_from(&auth).ok().unwrap();
    assert_eq!(a.auth_header, "Basic cHViOnByaXY=");
    assert_eq!(a.merchant_id.expose(), "mid");
    let auth = ConnectorAuthType::HeaderKey { api_key: secret("k") };
    assert!(matches!(BraintreeAuthType::try_from(&auth), Err(ConnectorError::FailedToObtainAuthType)));
}
