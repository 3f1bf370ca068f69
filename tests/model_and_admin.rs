use payswitch_core::admin::{
    config_error_response, create_merchant_publishable_key, publishable_key,
    validate_auth_and_metadata_type, validate_auth_and_metadata_type_with_connector,
    validate_status_and_disabled, Connector, CreateBusinessProfile, CreateOrValidateOrganization,
    PrimaryBusinessDetails,
};
use payswitch_core::admin::{is_kv_enabled, kv_toggle_target, storage_scheme_for, MerchantStorageScheme as M};
use payswitch_core::amount::{decimal_string, hundredths_string, to_currency_base_unit};
use payswitch_core::api;
use payswitch_core::auth::{check_non_empty_field, decode_credential_text, validate_connector_auth_type, ConnectorAuthType};
use payswitch_core::braintree::BraintreeMeta;
use payswitch_core::enums::{CardNetwork, ConnectorStatus, Currency, PaymentMethod};
use payswitch_core::errors::{ApiErrorResponse, ConnectorError};
use payswitch_core::payment_method::{self as domain, CardToken, CryptoData, PaymentMethodData};
use payswitch_core::secret::Secret;

fn secret(s: &str) -> Secret<String> {
    Secret::new(s.to_string())
}

fn domain_card() -> domain::Card {
    domain::Card {
        card_number: secret("4111111111111111"),
        card_exp_month: secret("03"),
        card_exp_year: secret("2030"),
        card_cvc: secret("737"),
        card_issuer: None,
        card_network: Some(CardNetwork::Visa),
        card_type: None,
        card_issuing_country: None,
        bank_code: None,
        nick_name: None,
    }
}

#[test]
fn category_mapping_per_variant() {
    let cases: Vec<(PaymentMethodData, Option<PaymentMethod>)> = vec![
        (PaymentMethodData::Card(domain_card()), Some(PaymentMethod::Card)),
        (PaymentMethodData::CardRedirect(domain::CardRedirectData::Knet {}), Some(PaymentMethod::CardRedirect)),
        (PaymentMethodData::Wallet(domain::WalletData::DanaRedirect {}), Some(PaymentMethod::Wallet)),
        (PaymentMethodData::PayLater(domain::PayLaterData::AffirmRedirect {}), Some(PaymentMethod::PayLater)),
        (PaymentMethodData::BankRedirect(domain::BankRedirectData::Bizum {}), Some(PaymentMethod::BankRedirect)),
        (PaymentMethodData::BankDebit(domain::BankDebitData::SepaBankDebit { iban: secret("DE89") }), Some(PaymentMethod::BankDebit)),
        (PaymentMethodData::BankTransfer(Box::new(domain::BankTransferData::Pix {})), Some(PaymentMethod::BankTransfer)),
        (PaymentMethodData::Crypto(CryptoData { pay_currency: None, network: None }), Some(PaymentMethod::Crypto)),
        (PaymentMethodData::MandatePayment, None),
        (PaymentMethodData::Reward, Some(PaymentMethod::Reward)),
        (PaymentMethodData::RealTimePayment(Box::new(domain::RealTimePaymentData::Fps {})), Some(PaymentMethod::RealTimePayment)),
        (PaymentMethodData::Upi(domain::UpiData::UpiIntent(domain::UpiIntentData {})), Some(PaymentMethod::Upi)),
        (PaymentMethodData::Voucher(domain::VoucherData::Oxxo), Some(PaymentMethod::Voucher)),
        (PaymentMethodData::GiftCard(Box::new(domain::GiftCardData::PaySafeCard {})), Some(PaymentMethod::GiftCard)),
        (PaymentMethodData::CardToken(CardToken { card_holder_name: None, card_cvc: None }), None),
        (PaymentMethodData::OpenBanking(domain::OpenBankingData::OpenBankingPIS {}), Some(PaymentMethod::OpenBanking)),
    ];
    for (d, expected) in cases {
        assert_eq!(d.get_payment_method(), expected);
    }
}

#[test]
fn card_conversion_drops_holder_name() {
    let c = api::Card {
        card_number: secret("4111111111111111"),
        card_exp_month: secret("03"),
        card_exp_year: secret("2030"),
        card_holder_name: Some(secret("Jo Doe")),
        card_cvc: secret("737"),
        card_issuer: Some("bank".to_string()),
        card_network: Some(CardNetwork::Visa),
        card_type: None,
        card_issuing_country: None,
        bank_code: None,
        nick_name: None,
    };
    let d = PaymentMethodData::from(api::PaymentMethodData::Card(c));
    match d {
        PaymentMethodData::Card(card) => {
            assert_eq!(card.card_number.expose(), "4111111111111111");
            assert_eq!(card.card_cvc.expose(), "737");
            assert_eq!(card.card_issuer, Some("bank".to_string()));
            assert_eq!(card.card_network, Some(CardNetwork::Visa));
        }
        _ => panic!("expected a card"),
    }
}

#[test]
fn conversions_keep_families() {
    let w = PaymentMethodData::from(api::PaymentMethodData::Wallet(api::WalletData::PaypalSdk { token: "t".to_string() }));
    assert!(matches!(w, PaymentMethodData::Wallet(domain::WalletData::PaypalSdk(ref p)) if p.token == "t"));
    let b = PaymentMethodData::from(api::PaymentMethodData::BankRedirect(api::BankRedirectData::Sofort {
        country: Some("DE".to_string()),
        preferred_language: Some("de".to_string()),
    }));
    assert!(matches!(b, PaymentMethodData::BankRedirect(domain::BankRedirectData::Sofort { preferred_language: Some(ref l) }) if l == "de"));
    let v = PaymentMethodData::from(api::PaymentMethodData::Voucher(api::VoucherData::Lawson {}));
    assert!(matches!(v, PaymentMethodData::Voucher(domain::VoucherData::Lawson(_))));
    let pairs = vec![
        (api::VoucherData::SevenEleven {}, "SevenEleven"),
        (api::VoucherData::MiniStop {}, "MiniStop"),
        (api::VoucherData::FamilyMart {}, "FamilyMart"),
        (api::VoucherData::Seicomart {}, "Seicomart"),
        (api::VoucherData::PayEasy {}, "PayEasy"),
    ];
    for (voucher, scheme) in pairs {
        let converted = match domain::VoucherData::from(voucher) {
            domain::VoucherData::SevenEleven(_) => "SevenEleven",
            domain::VoucherData::MiniStop(_) => "MiniStop",
            domain::VoucherData::FamilyMart(_) => "FamilyMart",
            domain::VoucherData::Seicomart(_) => "Seicomart",
            domain::VoucherData::PayEasy(_) => "PayEasy",
            _ => "other",
        };
        assert_eq!(converted, scheme);
    }
    let t = PaymentMethodData::from(api::PaymentMethodData::BankTransfer(Box::new(api::BankTransferData::LocalBankTransfer { bank_code: Some("001".to_string()) })));
    assert_eq!(t.get_payment_method(), Some(PaymentMethod::BankTransfer));
    let m = PaymentMethodData::from(api::PaymentMethodData::MandatePayment);
    assert_eq!(m.get_payment_method(), None);
    let date = time::Date::from_calendar_date(1990, time::Month::May, 17).unwrap();
    let mf = PaymentMethodData::from(api::PaymentMethodData::Wallet(api::WalletData::Mifinity {
        date_of_birth: Secret::new(date),
        language_preference: None,
    }));
    match mf {
        PaymentMethodData::Wallet(domain::WalletData::Mifinity(d)) => assert_eq!(*d.date_of_birth.expose(), date),
        _ => panic!("expected a Mifinity wallet"),
    }
    let debit = PaymentMethodData::from(api::PaymentMethodData::BankDebit(api::BankDebitData::BacsBankDebit {
        account_number: secret("12345678"),
        sort_code: secret("112233"),
        bank_account_holder_name: Some(secret("Jo")),
    }));
    match debit {
        PaymentMethodData::BankDebit(domain::BankDebitData::BacsBankDebit { account_number, sort_code }) => {
            assert_eq!(account_number.expose(), "12345678");
            assert_eq!(sort_code.expose(), "112233");
        }
        _ => panic!("expected a BACS debit"),
    }
}

#[test]
fn secrets_are_never_rendered() {
    let auth = ConnectorAuthType::SignatureKey { api_key: secret("sk_live_abc"), key1: secret("merchant"), api_secret: secret("very-secret") };
    let text = auth.redacted_text();
    assert!(!text.contains("sk_live_abc"));
    assert!(!text.contains("very-secret"));
    assert_eq!(text, "SignatureKey { api_key: *** redacted ***, key1: *** redacted ***, api_secret: *** redacted *** }");
    let card = domain_card();
    let text = card.redacted_text();
    assert!(!text.contains("4111111111111111"));
    assert!(!text.contains("737"));
    assert_eq!(secret("x").redacted_text(), "*** redacted ***");
}

#[test]
fn auth_validation_blank_fields() {
    let auth = ConnectorAuthType::BodyKey { api_key: secret("key"), key1: secret("   ") };
    match validate_connector_auth_type(&auth) {
        Err(ApiErrorResponse::InvalidDataFormat { field_name, expected_format }) => {
            assert_eq!(field_name, "connector_account_details.key1");
            assert_eq!(expected_format, "a non empty String");
        }
        _ => panic!("expected a blank key1"),
    }
    assert!(validate_connector_auth_type(&ConnectorAuthType::HeaderKey { api_key: secret(" k ") }).is_ok());
    assert!(validate_connector_auth_type(&ConnectorAuthType::HeaderKey { api_key: secret("\u{a0}\u{3000}\t") }).is_err());
    assert!(validate_connector_auth_type(&ConnectorAuthType::TemporaryAuth).is_ok());
    assert!(validate_connector_auth_type(&ConnectorAuthType::NoKey).is_ok());
    assert!(check_non_empty_field("", "api_key").is_err());
    assert!(check_non_empty_field("x", "api_key").is_ok());
}

#[test]
fn auth_validation_currency_map_and_certificate() {
    match validate_connector_auth_type(&ConnectorAuthType::CurrencyAuthKey { auth_key_map: vec![] }) {
        Err(ApiErrorResponse::InvalidDataFormat { field_name, expected_format }) => {
            assert_eq!(field_name, "connector_account_details.auth_key_map");
            assert_eq!(expected_format, "a non empty map");
        }
        _ => panic!("expected an empty map"),
    }
    assert!(validate_connector_auth_type(&ConnectorAuthType::CurrencyAuthKey { auth_key_map: vec![(Currency::USD, secret("k"))] }).is_ok());
    let good = ConnectorAuthType::CertificateAuth { certificate: secret("LS0tLS1CRUdJTg=="), private_key: secret("a2V5") };
    assert!(validate_connector_auth_type(&good).is_ok());
    let bad = ConnectorAuthType::CertificateAuth { certificate: secret("not base64!"), private_key: secret("a2V5") };
    match validate_connector_auth_type(&bad) {
        Err(ApiErrorResponse::InvalidDataFormat { field_name, expected_format }) => {
            assert_eq!(field_name, "connector_account_details.certificate or connector_account_details.private_key");
            assert_eq!(expected_format, "a valid base64 encoded string of PEM encoded Certificate and Private Key");
            assert!(!field_name.contains("a2V5") && !expected_format.contains("a2V5"));
        }
        _ => panic!("expected an undecodable certificate pair"),
    }
    let not_utf8 = ConnectorAuthType::CertificateAuth { certificate: secret("/w=="), private_key: secret("a2V5") };
    assert!(validate_connector_auth_type(&not_utf8).is_err());
    assert_eq!(decode_credential_text(&secret("LS0tLS1CRUdJTg==")), Some("-----BEGIN".to_string()));
}

#[test]
fn amount_rendering_exact_values() {
    assert_eq!(to_currency_base_unit(1234, Currency::USD).ok(), Some("12.34".to_string()));
    assert_eq!(to_currency_base_unit(5, Currency::EUR).ok(), Some("0.05".to_string()));
    assert_eq!(to_currency_base_unit(0, Currency::GBP).ok(), Some("0.00".to_string()));
    assert_eq!(to_currency_base_unit(500, Currency::JPY).ok(), Some("500.00".to_string()));
    assert_eq!(to_currency_base_unit(1235, Currency::KWD).ok(), Some("1.24".to_string()));
    assert_eq!(to_currency_base_unit(1234, Currency::BHD).ok(), Some("1.23".to_string()));
    assert_eq!(to_currency_base_unit(4294967295, Currency::USD).ok(), Some("42949672.95".to_string()));
    assert!(matches!(to_currency_base_unit(4294967296, Currency::USD), Err(ConnectorError::ParsingFailed)));
    assert!(matches!(to_currency_base_unit(-1, Currency::USD), Err(ConnectorError::ParsingFailed)));
    assert_eq!(decimal_string(1090), "1090");
    assert_eq!(hundredths_string(7), "0.07");
    assert_eq!(Currency::USD.code(), "USD");
}

#[test]
fn connector_validation_maps_errors() {
    let sig = ConnectorAuthType::SignatureKey { api_key: secret("a"), key1: secret("b"), api_secret: secret("c") };
    let m = Some(BraintreeMeta { merchant_account_id: Some(secret("acct")), merchant_config_currency: Some(Currency::USD) });
    assert!(validate_auth_and_metadata_type(Connector::Braintree, &sig, &m).is_ok());
    match validate_auth_and_metadata_type(Connector::Braintree, &sig, &None) {
        Err(ApiErrorResponse::InvalidRequestData { message }) => assert_eq!(message, "The metadata is invalid"),
        _ => panic!("expected invalid metadata"),
    }
    let blank = ConnectorAuthType::SignatureKey { api_key: secret("a"), key1: secret(" "), api_secret: secret("c") };
    match validate_auth_and_metadata_type(Connector::Braintree, &blank, &m) {
        Err(ApiErrorResponse::InvalidDataFormat { field_name, expected_format }) => {
            assert_eq!(field_name, "connector_account_details.key1");
            assert_eq!(expected_format, "a non empty String");
        }
        _ => panic!("expected the credential check's error"),
    }
    let header = ConnectorAuthType::HeaderKey { api_key: secret("a") };
    match validate_auth_and_metadata_type(Connector::Braintree, &header, &m) {
        Err(ApiErrorResponse::InvalidRequestData { message }) => assert_eq!(message, "The auth type is invalid for the connector"),
        _ => panic!("expected an invalid auth type"),
    }
    assert!(matches!(validate_auth_and_metadata_type_with_connector(Connector::Braintree, &header, &m), Err(ConnectorError::FailedToObtainAuthType)));
    match config_error_response(ConnectorError::InvalidConnectorName) {
        ApiErrorResponse::InvalidRequestData { message } => assert_eq!(message, "The connector name is invalid"),
        _ => panic!(),
    }
    match config_error_response(ConnectorError::ParsingFailed) {
        ApiErrorResponse::InvalidRequestData { message } => assert_eq!(message, "The request body is invalid"),
        _ => panic!(),
    }
}

#[test]
fn status_and_disabled_rules() {
    let temp = ConnectorAuthType::TemporaryAuth;
    let key = ConnectorAuthType::HeaderKey { api_key: secret("k") };
    assert!(validate_status_and_disabled(Some(ConnectorStatus::Active), None, &temp, ConnectorStatus::Active).is_err());
    assert_eq!(validate_status_and_disabled(None, None, &temp, ConnectorStatus::Active).ok(), Some((ConnectorStatus::Inactive, Some(true))));
    assert_eq!(validate_status_and_disabled(None, None, &key, ConnectorStatus::Active).ok(), Some((ConnectorStatus::Active, None)));
    assert!(validate_status_and_disabled(Some(ConnectorStatus::Inactive), Some(false), &key, ConnectorStatus::Active).is_err());
    assert_eq!(validate_status_and_disabled(Some(ConnectorStatus::Active), Some(true), &key, ConnectorStatus::Inactive).ok(), Some((ConnectorStatus::Active, Some(true))));
}

#[test]
fn organization_and_profile_actions() {
    assert_eq!(CreateOrValidateOrganization::new(None), CreateOrValidateOrganization::Create);
    assert_eq!(
        CreateOrValidateOrganization::new(Some("org_1".to_string())),
        CreateOrValidateOrganization::Validate { organization_id: "org_1".to_string() }
    );
    assert_eq!(CreateBusinessProfile::new(None), CreateBusinessProfile::CreateDefaultBusinessProfile);
    assert_eq!(CreateBusinessProfile::new(Some(vec![])), CreateBusinessProfile::CreateDefaultBusinessProfile);
    let details = vec![PrimaryBusinessDetails { country: "US".to_string(), business: "food".to_string() }];
    assert_eq!(
        CreateBusinessProfile::new(Some(details.clone())),
        CreateBusinessProfile::CreateFromPrimaryBusinessDetails { primary_business_details: details }
    );
}

#[test]
fn publishable_keys() {
    assert_eq!(publishable_key("dev", "abc"), "pk_dev_abc");
    let k = create_merchant_publishable_key("snd");
    assert!(k.starts_with("pk_snd_"));
    let id = &k["pk_snd_".len()..];
    assert_eq!(id.len(), 32);
    assert!(id.chars().all(|c| c.is_ascii_hexdigit() && !c.is_ascii_uppercase()));
}

fn iban(s: &str) -> payswitch_core::bank_account::MerchantAccountData {
    payswitch_core::bank_account::MerchantAccountData::Iban {
        iban: secret(s),
        name: "Merchant".to_string(),
        connector_recipient_id: None,
    }
}

fn request_message(r: Result<(), ApiErrorResponse>) -> Option<String> {
    match r {
        Err(ApiErrorResponse::InvalidRequestData { message }) => Some(message),
        _ => None,
    }
}

#[test]
fn iban_validation() {
    let check = payswitch_core::bank_account::validate_bank_account_data;
    assert!(check(&iban("GB82WEST12345698765432")).is_ok());
    assert!(check(&iban("DE89370400440532013000")).is_ok());
    assert_eq!(request_message(check(&iban("GB82WEST12345698765433"))), Some("Invalid IBAN".to_string()));
    assert_eq!(request_message(check(&iban("gb82west12345698765432"))), Some("IBAN data must be alphanumeric".to_string()));
    assert_eq!(
        request_message(check(&iban("GB82WEST1234569876543212345678901234"))),
        Some("IBAN length must be up to 34 characters".to_string())
    );
    assert!(matches!(check(&iban("AB")), Err(ApiErrorResponse::InternalServerError)));
    assert!(matches!(check(&iban("ZZZZZZZZZZZZZZZZZZZZZZZZZZZZZZ")), Err(ApiErrorResponse::InternalServerError)));
}

#[test]
fn bacs_validation() {
    let bacs = |account: &str, sort: &str| payswitch_core::bank_account::MerchantAccountData::Bacs {
        account_number: secret(account),
        sort_code: secret(sort),
        name: "Merchant".to_string(),
        connector_recipient_id: None,
    };
    let check = payswitch_core::bank_account::validate_bank_account_data;
    assert!(check(&bacs("12345678", "112233")).is_ok());
    assert_eq!(request_message(check(&bacs("123456789", "112233"))), Some("Invalid BACS numbers".to_string()));
    assert_eq!(request_message(check(&bacs("1234", "11223"))), Some("Invalid BACS numbers".to_string()));
}

#[test]
fn metadata_required_by_connector_validation() {
    let sig = ConnectorAuthType::SignatureKey { api_key: secret("a"), key1: secret("b"), api_secret: secret("c") };
    match validate_auth_and_metadata_type_with_connector(Connector::Braintree, &sig, &None) {
        Err(ConnectorError::InvalidConnectorConfig { config }) => assert_eq!(config, "metadata"),
        _ => panic!("expected invalid metadata"),
    }
}

#[test]
fn every_auth_shape_renders_without_keys() {
    let cases = vec![
        (ConnectorAuthType::TemporaryAuth, "TemporaryAuth".to_string()),
        (ConnectorAuthType::NoKey, "NoKey".to_string()),
        (ConnectorAuthType::HeaderKey { api_key: secret("hk") }, "HeaderKey { api_key: *** redacted *** }".to_string()),
        (
            ConnectorAuthType::MultiAuthKey { api_key: secret("k1"), key1: secret("k2"), api_secret: secret("k3"), key2: secret("k4") },
            "MultiAuthKey { api_key: *** redacted ***, key1: *** redacted ***, api_secret: *** redacted ***, key2: *** redacted *** }".to_string(),
        ),
        (
            ConnectorAuthType::CertificateAuth { certificate: secret("cert"), private_key: secret("pkey") },
            "CertificateAuth { certificate: *** redacted ***, private_key: *** redacted *** }".to_string(),
        ),
        (
            ConnectorAuthType::CurrencyAuthKey { auth_key_map: vec![(Currency::EUR, secret("ek"))] },
            "CurrencyAuthKey { auth_key_map: *** redacted *** }".to_string(),
        ),
    ];
    for (auth, expected) in cases {
        assert_eq!(auth.redacted_text(), expected);
    }
}

#[test]
fn temporary_auth_status_is_inactive_and_disabled() {
    let temp = ConnectorAuthType::TemporaryAuth;
    assert_eq!(
        validate_status_and_disabled(Some(ConnectorStatus::Inactive), None, &temp, ConnectorStatus::Active).ok(),
        Some((ConnectorStatus::Inactive, Some(true)))
    );
    assert!(validate_status_and_disabled(None, Some(false), &temp, ConnectorStatus::Active).is_err());
}

#[test]
fn session_certificates_in_metadata() {
    let check = payswitch_core::auth::validate_certificate_in_mca_metadata;
    let pair = |c: &str, k: &str| payswitch_core::auth::SessionTokenCertificates { certificate: secret(c), certificate_keys: secret(k) };
    assert!(check(&None).is_ok());
    assert!(check(&Some(pair("LS0tLS1CRUdJTg==", "a2V5"))).is_ok());
    match check(&Some(pair("LS0tLS1CRUdJTg==", "%%%"))) {
        Err(ApiErrorResponse::InvalidDataValue { field_name }) => assert_eq!(field_name, "certificate/certificate key"),
        _ => panic!("expected an invalid certificate pair"),
    }
}

#[test]
fn kv_toggle_decisions() {

    assert_eq!(kv_toggle_target(true, M::RedisKv, true).ok(), Some(None));
    assert_eq!(kv_toggle_target(false, M::PostgresOnly, false).ok(), Some(None));
    assert_eq!(kv_toggle_target(true, M::PostgresOnly, false).ok(), Some(Some(M::RedisKv)));
    assert_eq!(kv_toggle_target(false, M::RedisKv, true).ok(), Some(Some(M::PostgresOnly)));
    match kv_toggle_target(true, M::PostgresOnly, true) {
        Err(ApiErrorResponse::InvalidRequestData { message }) => assert_eq!(message, "Kv cannot be enabled when application is in soft_kill_mode"),
        _ => panic!("expected a refusal"),
    }
    assert_eq!(storage_scheme_for(true), M::RedisKv);
    assert!(!is_kv_enabled(storage_scheme_for(false)));
}
