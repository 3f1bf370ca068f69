use vstd::prelude::*;

use crate::enums::{BankHolderType, BankType, CardNetwork, PaymentMethod};
use crate::payment_method as domain;
use crate::payment_method::{
    category_of, ApplePayWalletData, CardToken, CryptoData, GooglePayWalletData, OpenBankingData,
    RealTimePaymentData,
};
use crate::secret::Secret;

verus! {

/// A payment instrument as the public API receives it. It may carry fields
/// that processing does not use; the conversion into the canonical model
/// drops them.
#[derive(Clone, PartialEq, Eq)]
pub enum PaymentMethodData {
    Card(Card),
    CardRedirect(CardRedirectData),
    Wallet(WalletData),
    PayLater(PayLaterData),
    BankRedirect(BankRedirectData),
    BankDebit(BankDebitData),
    BankTransfer(Box<BankTransferData>),
    Crypto(CryptoData),
    MandatePayment,
    Reward,
    RealTimePayment(Box<RealTimePaymentData>),
    Upi(UpiData),
    Voucher(VoucherData),
    GiftCard(Box<GiftCardData>),
    CardToken(CardToken),
    OpenBanking(OpenBankingData),
}

/// A raw card as the public API receives it.
#[derive(Clone, PartialEq, Eq)]
pub struct Card {
    pub card_number: Secret<String>,
    pub card_exp_month: Secret<String>,
    pub card_exp_year: Secret<String>,
    pub card_holder_name: Option<Secret<String>>,
    pub card_cvc: Secret<String>,
    pub card_issuer: Option<String>,
    pub card_network: Option<CardNetwork>,
    pub card_type: Option<String>,
    pub card_issuing_country: Option<String>,
    pub bank_code: Option<String>,
    pub nick_name: Option<Secret<String>>,
}

#[derive(Clone, Debug, PartialEq, Eq)]
pub enum CardRedirectData {
    Knet {},
    Benefit {},
    MomoAtm {},
    CardRedirect {},
}

#[derive(Clone, PartialEq, Eq)]
pub enum WalletData {
    AliPayQr {},
    AliPayRedirect {},
    AliPayHkRedirect {},
    MomoRedirect {},
    KakaoPayRedirect {},
    GoPayRedirect {},
    GcashRedirect {},
    ApplePay(ApplePayWalletData),
    ApplePayRedirect {},
    ApplePayThirdPartySdk {},
    DanaRedirect {},
    GooglePay(GooglePayWalletData),
    GooglePayRedirect {},
    GooglePayThirdPartySdk {},
    MbWayRedirect { telephone_number: Option<Secret<String>> },
    MobilePayRedirect {},
    PaypalRedirect { email: Option<Secret<String>> },
    PaypalSdk { token: String },
    SamsungPay { token: Secret<String> },
    TwintRedirect {},
    VippsRedirect {},
    TouchNGoRedirect {},
    WeChatPayRedirect {},
    WeChatPayQr {},
    CashappQr {},
    SwishQr {},
    Mifinity { date_of_birth: Secret<time::Date>, language_preference: Option<String> },
}

#[derive(Clone, PartialEq, Eq)]
pub enum PayLaterData {
    KlarnaRedirect { billing_email: Option<Secret<String>>, billing_country: Option<String> },
    KlarnaSdk { token: String },
    AffirmRedirect {},
    AfterpayClearpayRedirect {
        billing_email: Option<Secret<String>>,
        billing_name: Option<Secret<String>>,
    },
    PayBrightRedirect {},
    WalleyRedirect {},
    AlmaRedirect {},
    AtomeRedirect {},
}

#[derive(Clone, PartialEq, Eq)]
pub enum BankRedirectData {
    BancontactCard {
        card_number: Option<Secret<String>>,
        card_exp_month: Option<Secret<String>>,
        card_exp_year: Option<Secret<String>>,
        card_holder_name: Option<Secret<String>>,
    },
    Bizum {},
    Blik { blik_code: Option<String> },
    Eps { bank_name: Option<String>, country: Option<String> },
    Giropay {
        bank_account_bic: Option<Secret<String>>,
        bank_account_iban: Option<Secret<String>>,
        country: Option<String>,
    },
    Ideal { bank_name: Option<String>, country: Option<String> },
    Interac { country: Option<String>, email: Option<Secret<String>> },
    OnlineBankingCzechRepublic { issuer: String },
    OnlineBankingFinland { email: Option<Secret<String>> },
    OnlineBankingPoland { issuer: String },
    OnlineBankingSlovakia { issuer: String },
    OpenBankingUk { issuer: Option<String>, country: Option<String> },
    Przelewy24 { bank_name: Option<String> },
    Sofort { country: Option<String>, preferred_language: Option<String> },
    Trustly { country: Option<String> },
    OnlineBankingFpx { issuer: String },
    OnlineBankingThailand { issuer: String },
    LocalBankRedirect {},
}

#[derive(Clone, PartialEq, Eq)]
pub enum BankDebitData {
    AchBankDebit {
        account_number: Secret<String>,
        routing_number: Secret<String>,
        bank_account_holder_name: Option<Secret<String>>,
        bank_name: Option<String>,
        bank_type: Option<BankType>,
        bank_holder_type: Option<BankHolderType>,
    },
    SepaBankDebit { iban: Secret<String>, bank_account_holder_name: Option<Secret<String>> },
    BecsBankDebit {
        account_number: Secret<String>,
        bsb_number: Secret<String>,
        bank_account_holder_name: Option<Secret<String>>,
    },
    BacsBankDebit {
        account_number: Secret<String>,
        sort_code: Secret<String>,
        bank_account_holder_name: Option<Secret<String>>,
    },
}

#[derive(Clone, PartialEq, Eq)]
pub enum BankTransferData {
    AchBankTransfer {},
    SepaBankTransfer { country: Option<String> },
    BacsBankTransfer {},
    MultibancoBankTransfer {},
    PermataBankTransfer {},
    BcaBankTransfer {},
    BniVaBankTransfer {},
    BriVaBankTransfer {},
    CimbVaBankTransfer {},
    DanamonVaBankTransfer {},
    MandiriVaBankTransfer {},
    Pix {},
    Pse {},
    LocalBankTransfer { bank_code: Option<String> },
}

#[derive(Clone, PartialEq, Eq)]
pub enum UpiData {
    UpiCollect { vpa_id: Option<Secret<String>> },
    UpiIntent {},
}

#[derive(Clone, PartialEq, Eq)]
pub enum VoucherData {
    Boleto { social_security_number: Option<Secret<String>> },
    Efecty,
    PagoEfectivo,
    RedCompra,
    RedPagos,
    Alfamart { email: Option<Secret<String>> },
    Indomaret { email: Option<Secret<String>> },
    Oxxo,
    SevenEleven {},
    Lawson {},
    MiniStop {},
    FamilyMart {},
    Seicomart {},
    PayEasy {},
}

#[derive(Clone, PartialEq, Eq)]
pub enum GiftCardData {
    Givex { number: Secret<String>, cvc: Secret<String> },
    PaySafeCard {},
}

/// The canonical form of a public Card. A raw card keeps every field but the cardholder name.
pub open spec fn card_from_api(v: Card) -> domain::Card {
        let Card { card_number, card_exp_month, card_exp_year, card_holder_name: _, card_cvc, card_issuer, card_network, card_type, card_issuing_country, bank_code, nick_name } = v;
        domain::Card { card_number, card_exp_month, card_exp_year, card_cvc, card_issuer, card_network, card_type, card_issuing_country, bank_code, nick_name }
}

impl From<Card> for domain::Card {
    fn from(value: Card) -> (r: domain::Card) {
        let Card { card_number, card_exp_month, card_exp_year, card_holder_name: _, card_cvc, card_issuer, card_network, card_type, card_issuing_country, bank_code, nick_name } = value;
            domain::Card { card_number, card_exp_month, card_exp_year, card_cvc, card_issuer, card_network, card_type, card_issuing_country, bank_code, nick_name }
    }
}

impl vstd::std_specs::convert::FromSpecImpl<Card> for domain::Card {
    open spec fn obeys_from_spec() -> bool {
        true
    }

    open spec fn from_spec(v: Card) -> domain::Card {
        card_from_api(v)
    }
}

/// The canonical form of a public CardRedirectData. Each card redirect scheme maps to itself.
pub open spec fn card_redirect_from_api(v: CardRedirectData) -> domain::CardRedirectData {
        match v {
            CardRedirectData::Knet {} => domain::CardRedirectData::Knet {},
            CardRedirectData::Benefit {} => domain::CardRedirectData::Benefit {},
            CardRedirectData::MomoAtm {} => domain::CardRedirectData::MomoAtm {},
            CardRedirectData::CardRedirect {} => domain::CardRedirectData::CardRedirect {},
        }
}

impl From<CardRedirectData> for domain::CardRedirectData {
    fn from(value: CardRedirectData) -> (r: domain::CardRedirectData) {
        match value {
                CardRedirectData::Knet {} => domain::CardRedirectData::Knet {},
                CardRedirectData::Benefit {} => domain::CardRedirectData::Benefit {},
                CardRedirectData::MomoAtm {} => domain::CardRedirectData::MomoAtm {},
                CardRedirectData::CardRedirect {} => domain::CardRedirectData::CardRedirect {},
            }
    }
}

impl vstd::std_specs::convert::FromSpecImpl<CardRedirectData> for domain::CardRedirectData {
    open spec fn obeys_from_spec() -> bool {
        true
    }

    open spec fn from_spec(v: CardRedirectData) -> domain::CardRedirectData {
        card_redirect_from_api(v)
    }
}

/// The canonical form of a public WalletData. Each wallet maps to itself, keeping only the payload it needs.
pub open spec fn wallet_from_api(v: WalletData) -> domain::WalletData {
        match v {
            WalletData::AliPayQr {} => domain::WalletData::AliPayQr(Box::new(domain::AliPayQr {})),
            WalletData::AliPayRedirect {} => domain::WalletData::AliPayRedirect(domain::AliPayRedirection {}),
            WalletData::AliPayHkRedirect {} => domain::WalletData::AliPayHkRedirect(domain::AliPayHkRedirection {}),
            WalletData::MomoRedirect {} => domain::WalletData::MomoRedirect(domain::MomoRedirection {}),
            WalletData::KakaoPayRedirect {} => domain::WalletData::KakaoPayRedirect(domain::KakaoPayRedirection {}),
            WalletData::GoPayRedirect {} => domain::WalletData::GoPayRedirect(domain::GoPayRedirection {}),
            WalletData::GcashRedirect {} => domain::WalletData::GcashRedirect(domain::GcashRedirection {}),
            WalletData::ApplePay(data) => domain::WalletData::ApplePay(data),
            WalletData::ApplePayRedirect {} => domain::WalletData::ApplePayRedirect(Box::new(domain::ApplePayRedirectData {})),
            WalletData::ApplePayThirdPartySdk {} => domain::WalletData::ApplePayThirdPartySdk(Box::new(domain::ApplePayThirdPartySdkData {})),
            WalletData::DanaRedirect {} => domain::WalletData::DanaRedirect {},
            WalletData::GooglePay(data) => domain::WalletData::GooglePay(data),
            WalletData::GooglePayRedirect {} => domain::WalletData::GooglePayRedirect(Box::new(domain::GooglePayRedirectData {})),
            WalletData::GooglePayThirdPartySdk {} => domain::WalletData::GooglePayThirdPartySdk(Box::new(domain::GooglePayThirdPartySdkData {})),
            WalletData::MbWayRedirect { .. } => domain::WalletData::MbWayRedirect(Box::new(domain::MbWayRedirection {})),
            WalletData::MobilePayRedirect {} => domain::WalletData::MobilePayRedirect(Box::new(domain::MobilePayRedirection {})),
            WalletData::PaypalRedirect { email } => domain::WalletData::PaypalRedirect(domain::PaypalRedirection { email }),
            WalletData::PaypalSdk { token } => domain::WalletData::PaypalSdk(domain::PayPalWalletData { token }),
            WalletData::SamsungPay { token } => domain::WalletData::SamsungPay(Box::new(domain::SamsungPayWalletData { token })),
            WalletData::TwintRedirect {} => domain::WalletData::TwintRedirect {},
            WalletData::VippsRedirect {} => domain::WalletData::VippsRedirect {},
            WalletData::TouchNGoRedirect {} => domain::WalletData::TouchNGoRedirect(Box::new(domain::TouchNGoRedirection {})),
            WalletData::WeChatPayRedirect {} => domain::WalletData::WeChatPayRedirect(Box::new(domain::WeChatPayRedirection {})),
            WalletData::WeChatPayQr {} => domain::WalletData::WeChatPayQr(Box::new(domain::WeChatPayQr {})),
            WalletData::CashappQr {} => domain::WalletData::CashappQr(Box::new(domain::CashappQr {})),
            WalletData::SwishQr {} => domain::WalletData::SwishQr(domain::SwishQrData {}),
            WalletData::Mifinity { date_of_birth, language_preference } => domain::WalletData::Mifinity(domain::MifinityData { date_of_birth, language_preference }),
        }
}

impl From<WalletData> for domain::WalletData {
    fn from(value: WalletData) -> (r: domain::WalletData) {
        match value {
                WalletData::AliPayQr {} => domain::WalletData::AliPayQr(Box::new(domain::AliPayQr {})),
                WalletData::AliPayRedirect {} => domain::WalletData::AliPayRedirect(domain::AliPayRedirection {}),
                WalletData::AliPayHkRedirect {} => domain::WalletData::AliPayHkRedirect(domain::AliPayHkRedirection {}),
                WalletData::MomoRedirect {} => domain::WalletData::MomoRedirect(domain::MomoRedirection {}),
                WalletData::KakaoPayRedirect {} => domain::WalletData::KakaoPayRedirect(domain::KakaoPayRedirection {}),
                WalletData::GoPayRedirect {} => domain::WalletData::GoPayRedirect(domain::GoPayRedirection {}),
                WalletData::GcashRedirect {} => domain::WalletData::GcashRedirect(domain::GcashRedirection {}),
                WalletData::ApplePay(data) => domain::WalletData::ApplePay(data),
                WalletData::ApplePayRedirect {} => domain::WalletData::ApplePayRedirect(Box::new(domain::ApplePayRedirectData {})),
                WalletData::ApplePayThirdPartySdk {} => domain::WalletData::ApplePayThirdPartySdk(Box::new(domain::ApplePayThirdPartySdkData {})),
                WalletData::DanaRedirect {} => domain::WalletData::DanaRedirect {},
                WalletData::GooglePay(data) => domain::WalletData::GooglePay(data),
                WalletData::GooglePayRedirect {} => domain::WalletData::GooglePayRedirect(Box::new(domain::GooglePayRedirectData {})),
                WalletData::GooglePayThirdPartySdk {} => domain::WalletData::GooglePayThirdPartySdk(Box::new(domain::GooglePayThirdPartySdkData {})),
                WalletData::MbWayRedirect { .. } => domain::WalletData::MbWayRedirect(Box::new(domain::MbWayRedirection {})),
                WalletData::MobilePayRedirect {} => domain::WalletData::MobilePayRedirect(Box::new(domain::MobilePayRedirection {})),
                WalletData::PaypalRedirect { email } => domain::WalletData::PaypalRedirect(domain::PaypalRedirection { email }),
                WalletData::PaypalSdk { token } => domain::WalletData::PaypalSdk(domain::PayPalWalletData { token }),
                WalletData::SamsungPay { token } => domain::WalletData::SamsungPay(Box::new(domain::SamsungPayWalletData { token })),
                WalletData::TwintRedirect {} => domain::WalletData::TwintRedirect {},
                WalletData::VippsRedirect {} => domain::WalletData::VippsRedirect {},
                WalletData::TouchNGoRedirect {} => domain::WalletData::TouchNGoRedirect(Box::new(domain::TouchNGoRedirection {})),
                WalletData::WeChatPayRedirect {} => domain::WalletData::WeChatPayRedirect(Box::new(domain::WeChatPayRedirection {})),
                WalletData::WeChatPayQr {} => domain::WalletData::WeChatPayQr(Box::new(domain::WeChatPayQr {})),
                WalletData::CashappQr {} => domain::WalletData::CashappQr(Box::new(domain::CashappQr {})),
                WalletData::SwishQr {} => domain::WalletData::SwishQr(domain::SwishQrData {}),
                WalletData::Mifinity { date_of_birth, language_preference } => domain::WalletData::Mifinity(domain::MifinityData { date_of_birth, language_preference }),
            }
    }
}

impl vstd::std_specs::convert::FromSpecImpl<WalletData> for domain::WalletData {
    open spec fn obeys_from_spec() -> bool {
        true
    }

    open spec fn from_spec(v: WalletData) -> domain::WalletData {
        wallet_from_api(v)
    }
}

/// The canonical form of a public PayLaterData. Each pay-later scheme maps to itself; billing details are dropped.
pub open spec fn pay_later_from_api(v: PayLaterData) -> domain::PayLaterData {
        match v {
            PayLaterData::KlarnaRedirect { .. } => domain::PayLaterData::KlarnaRedirect {},
            PayLaterData::KlarnaSdk { token } => domain::PayLaterData::KlarnaSdk { token },
            PayLaterData::AffirmRedirect {} => domain::PayLaterData::AffirmRedirect {},
            PayLaterData::AfterpayClearpayRedirect { .. } => domain::PayLaterData::AfterpayClearpayRedirect {},
            PayLaterData::PayBrightRedirect {} => domain::PayLaterData::PayBrightRedirect {},
            PayLaterData::WalleyRedirect {} => domain::PayLaterData::WalleyRedirect {},
            PayLaterData::AlmaRedirect {} => domain::PayLaterData::AlmaRedirect {},
            PayLaterData::AtomeRedirect {} => domain::PayLaterData::AtomeRedirect {},
        }
}

impl From<PayLaterData> for domain::PayLaterData {
    fn from(value: PayLaterData) -> (r: domain::PayLaterData) {
        match value {
                PayLaterData::KlarnaRedirect { .. } => domain::PayLaterData::KlarnaRedirect {},
                PayLaterData::KlarnaSdk { token } => domain::PayLaterData::KlarnaSdk { token },
                PayLaterData::AffirmRedirect {} => domain::PayLaterData::AffirmRedirect {},
                PayLaterData::AfterpayClearpayRedirect { .. } => domain::PayLaterData::AfterpayClearpayRedirect {},
                PayLaterData::PayBrightRedirect {} => domain::PayLaterData::PayBrightRedirect {},
                PayLaterData::WalleyRedirect {} => domain::PayLaterData::WalleyRedirect {},
                PayLaterData::AlmaRedirect {} => domain::PayLaterData::AlmaRedirect {},
                PayLaterData::AtomeRedirect {} => domain::PayLaterData::AtomeRedirect {},
            }
    }
}

impl vstd::std_specs::convert::FromSpecImpl<PayLaterData> for domain::PayLaterData {
    open spec fn obeys_from_spec() -> bool {
        true
    }

    open spec fn from_spec(v: PayLaterData) -> domain::PayLaterData {
        pay_later_from_api(v)
    }
}

/// The canonical form of a public BankRedirectData. Each redirect banking scheme maps to itself, keeping only the fields the scheme requires.
pub open spec fn bank_redirect_from_api(v: BankRedirectData) -> domain::BankRedirectData {
        match v {
            BankRedirectData::BancontactCard { card_number, card_exp_month, card_exp_year, .. } => domain::BankRedirectData::BancontactCard { card_number, card_exp_month, card_exp_year },
            BankRedirectData::Bizum {} => domain::BankRedirectData::Bizum {},
            BankRedirectData::Blik { blik_code } => domain::BankRedirectData::Blik { blik_code },
            BankRedirectData::Eps { bank_name, .. } => domain::BankRedirectData::Eps { bank_name },
            BankRedirectData::Giropay { bank_account_bic, bank_account_iban, .. } => domain::BankRedirectData::Giropay { bank_account_bic, bank_account_iban },
            BankRedirectData::Ideal { bank_name, .. } => domain::BankRedirectData::Ideal { bank_name },
            BankRedirectData::Interac { .. } => domain::BankRedirectData::Interac {},
            BankRedirectData::OnlineBankingCzechRepublic { issuer } => domain::BankRedirectData::OnlineBankingCzechRepublic { issuer },
            BankRedirectData::OnlineBankingFinland { .. } => domain::BankRedirectData::OnlineBankingFinland {},
            BankRedirectData::OnlineBankingPoland { issuer } => domain::BankRedirectData::OnlineBankingPoland { issuer },
            BankRedirectData::OnlineBankingSlovakia { issuer } => domain::BankRedirectData::OnlineBankingSlovakia { issuer },
            BankRedirectData::OpenBankingUk { issuer, .. } => domain::BankRedirectData::OpenBankingUk { issuer },
            BankRedirectData::Przelewy24 { bank_name } => domain::BankRedirectData::Przelewy24 { bank_name },
            BankRedirectData::Sofort { preferred_language, .. } => domain::BankRedirectData::Sofort { preferred_language },
            BankRedirectData::Trustly { .. } => domain::BankRedirectData::Trustly {},
            BankRedirectData::OnlineBankingFpx { issuer } => domain::BankRedirectData::OnlineBankingFpx { issuer },
            BankRedirectData::OnlineBankingThailand { issuer } => domain::BankRedirectData::OnlineBankingThailand { issuer },
            BankRedirectData::LocalBankRedirect {} => domain::BankRedirectData::LocalBankRedirect {},
        }
}

impl From<BankRedirectData> for domain::BankRedirectData {
    fn from(value: BankRedirectData) -> (r: domain::BankRedirectData) {
        match value {
                BankRedirectData::BancontactCard { card_number, card_exp_month, card_exp_year, .. } => domain::BankRedirectData::BancontactCard { card_number, card_exp_month, card_exp_year },
                BankRedirectData::Bizum {} => domain::BankRedirectData::Bizum {},
                BankRedirectData::Blik { blik_code } => domain::BankRedirectData::Blik { blik_code },
                BankRedirectData::Eps { bank_name, .. } => domain::BankRedirectData::Eps { bank_name },
                BankRedirectData::Giropay { bank_account_bic, bank_account_iban, .. } => domain::BankRedirectData::Giropay { bank_account_bic, bank_account_iban },
                BankRedirectData::Ideal { bank_name, .. } => domain::BankRedirectData::Ideal { bank_name },
                BankRedirectData::Interac { .. } => domain::BankRedirectData::Interac {},
                BankRedirectData::OnlineBankingCzechRepublic { issuer } => domain::BankRedirectData::OnlineBankingCzechRepublic { issuer },
                BankRedirectData::OnlineBankingFinland { .. } => domain::BankRedirectData::OnlineBankingFinland {},
                BankRedirectData::OnlineBankingPoland { issuer } => domain::BankRedirectData::OnlineBankingPoland { issuer },
                BankRedirectData::OnlineBankingSlovakia { issuer } => domain::BankRedirectData::OnlineBankingSlovakia { issuer },
                BankRedirectData::OpenBankingUk { issuer, .. } => domain::BankRedirectData::OpenBankingUk { issuer },
                BankRedirectData::Przelewy24 { bank_name } => domain::BankRedirectData::Przelewy24 { bank_name },
                BankRedirectData::Sofort { preferred_language, .. } => domain::BankRedirectData::Sofort { preferred_language },
                BankRedirectData::Trustly { .. } => domain::BankRedirectData::Trustly {},
                BankRedirectData::OnlineBankingFpx { issuer } => domain::BankRedirectData::OnlineBankingFpx { issuer },
                BankRedirectData::OnlineBankingThailand { issuer } => domain::BankRedirectData::OnlineBankingThailand { issuer },
                BankRedirectData::LocalBankRedirect {} => domain::BankRedirectData::LocalBankRedirect {},
            }
    }
}

impl vstd::std_specs::convert::FromSpecImpl<BankRedirectData> for domain::BankRedirectData {
    open spec fn obeys_from_spec() -> bool {
        true
    }

    open spec fn from_spec(v: BankRedirectData) -> domain::BankRedirectData {
        bank_redirect_from_api(v)
    }
}

/// The canonical form of a public UpiData. Each UPI flow maps to itself.
pub open spec fn upi_from_api(v: UpiData) -> domain::UpiData {
        match v {
            UpiData::UpiCollect { vpa_id } => domain::UpiData::UpiCollect(domain::UpiCollectData { vpa_id }),
            UpiData::UpiIntent {} => domain::UpiData::UpiIntent(domain::UpiIntentData {}),
        }
}

impl From<UpiData> for domain::UpiData {
    fn from(value: UpiData) -> (r: domain::UpiData) {
        match value {
                UpiData::UpiCollect { vpa_id } => domain::UpiData::UpiCollect(domain::UpiCollectData { vpa_id }),
                UpiData::UpiIntent {} => domain::UpiData::UpiIntent(domain::UpiIntentData {}),
            }
    }
}

impl vstd::std_specs::convert::FromSpecImpl<UpiData> for domain::UpiData {
    open spec fn obeys_from_spec() -> bool {
        true
    }

    open spec fn from_spec(v: UpiData) -> domain::UpiData {
        upi_from_api(v)
    }
}

/// The canonical form of a public VoucherData. Each voucher maps to its own scheme; the shopper details some carry are dropped.
pub open spec fn voucher_from_api(v: VoucherData) -> domain::VoucherData {
        match v {
            VoucherData::Boleto { social_security_number } => domain::VoucherData::Boleto(Box::new(domain::BoletoVoucherData { social_security_number })),
            VoucherData::Alfamart { .. } => domain::VoucherData::Alfamart(Box::new(domain::AlfamartVoucherData {})),
            VoucherData::Indomaret { .. } => domain::VoucherData::Indomaret(Box::new(domain::IndomaretVoucherData {})),
            VoucherData::SevenEleven {} => domain::VoucherData::SevenEleven(Box::new(domain::JCSVoucherData {})),
        VoucherData::Lawson {} => domain::VoucherData::Lawson(Box::new(domain::JCSVoucherData {})),
        VoucherData::MiniStop {} => domain::VoucherData::MiniStop(Box::new(domain::JCSVoucherData {})),
        VoucherData::FamilyMart {} => domain::VoucherData::FamilyMart(Box::new(domain::JCSVoucherData {})),
        VoucherData::Seicomart {} => domain::VoucherData::Seicomart(Box::new(domain::JCSVoucherData {})),
        VoucherData::PayEasy {} => domain::VoucherData::PayEasy(Box::new(domain::JCSVoucherData {})),
            VoucherData::Efecty => domain::VoucherData::Efecty,
            VoucherData::PagoEfectivo => domain::VoucherData::PagoEfectivo,
            VoucherData::RedCompra => domain::VoucherData::RedCompra,
            VoucherData::RedPagos => domain::VoucherData::RedPagos,
            VoucherData::Oxxo => domain::VoucherData::Oxxo,
        }
}

impl From<VoucherData> for domain::VoucherData {
    fn from(value: VoucherData) -> (r: domain::VoucherData) {
        match value {
                VoucherData::Boleto { social_security_number } => domain::VoucherData::Boleto(Box::new(domain::BoletoVoucherData { social_security_number })),
                VoucherData::Alfamart { .. } => domain::VoucherData::Alfamart(Box::new(domain::AlfamartVoucherData {})),
                VoucherData::Indomaret { .. } => domain::VoucherData::Indomaret(Box::new(domain::IndomaretVoucherData {})),
                VoucherData::SevenEleven {} => domain::VoucherData::SevenEleven(Box::new(domain::JCSVoucherData {})),
                VoucherData::Lawson {} => domain::VoucherData::Lawson(Box::new(domain::JCSVoucherData {})),
                VoucherData::MiniStop {} => domain::VoucherData::MiniStop(Box::new(domain::JCSVoucherData {})),
                VoucherData::FamilyMart {} => domain::VoucherData::FamilyMart(Box::new(domain::JCSVoucherData {})),
                VoucherData::Seicomart {} => domain::VoucherData::Seicomart(Box::new(domain::JCSVoucherData {})),
                VoucherData::PayEasy {} => domain::VoucherData::PayEasy(Box::new(domain::JCSVoucherData {})),
                VoucherData::Efecty => domain::VoucherData::Efecty,
                VoucherData::PagoEfectivo => domain::VoucherData::PagoEfectivo,
                VoucherData::RedCompra => domain::VoucherData::RedCompra,
                VoucherData::RedPagos => domain::VoucherData::RedPagos,
                VoucherData::Oxxo => domain::VoucherData::Oxxo,
            }
    }
}

impl vstd::std_specs::convert::FromSpecImpl<VoucherData> for domain::VoucherData {
    open spec fn obeys_from_spec() -> bool {
        true
    }

    open spec fn from_spec(v: VoucherData) -> domain::VoucherData {
        voucher_from_api(v)
    }
}

/// The canonical form of a public GiftCardData. Each gift card maps to itself.
pub open spec fn gift_card_from_api(v: GiftCardData) -> domain::GiftCardData {
        match v {
            GiftCardData::Givex { number, cvc } => domain::GiftCardData::Givex(domain::GiftCardDetails { number, cvc }),
            GiftCardData::PaySafeCard {} => domain::GiftCardData::PaySafeCard {},
        }
}

impl From<GiftCardData> for domain::GiftCardData {
    fn from(value: GiftCardData) -> (r: domain::GiftCardData) {
        match value {
                GiftCardData::Givex { number, cvc } => domain::GiftCardData::Givex(domain::GiftCardDetails { number, cvc }),
                GiftCardData::PaySafeCard {} => domain::GiftCardData::PaySafeCard {},
            }
    }
}

impl vstd::std_specs::convert::FromSpecImpl<GiftCardData> for domain::GiftCardData {
    open spec fn obeys_from_spec() -> bool {
        true
    }

    open spec fn from_spec(v: GiftCardData) -> domain::GiftCardData {
        gift_card_from_api(v)
    }
}

/// The canonical form of a public BankDebitData. Each debit network maps to itself with its own identifiers; holder names are dropped.
pub open spec fn bank_debit_from_api(v: BankDebitData) -> domain::BankDebitData {
        match v {
            BankDebitData::AchBankDebit { account_number, routing_number, bank_name, bank_type, bank_holder_type, .. } => domain::BankDebitData::AchBankDebit { account_number, routing_number, bank_name, bank_type, bank_holder_type },
            BankDebitData::SepaBankDebit { iban, .. } => domain::BankDebitData::SepaBankDebit { iban },
            BankDebitData::BecsBankDebit { account_number, bsb_number, .. } => domain::BankDebitData::BecsBankDebit { account_number, bsb_number },
            BankDebitData::BacsBankDebit { account_number, sort_code, .. } => domain::BankDebitData::BacsBankDebit { account_number, sort_code },
        }
}

impl From<BankDebitData> for domain::BankDebitData {
    fn from(value: BankDebitData) -> (r: domain::BankDebitData) {
        match value {
                BankDebitData::AchBankDebit { account_number, routing_number, bank_name, bank_type, bank_holder_type, .. } => domain::BankDebitData::AchBankDebit { account_number, routing_number, bank_name, bank_type, bank_holder_type },
                BankDebitData::SepaBankDebit { iban, .. } => domain::BankDebitData::SepaBankDebit { iban },
                BankDebitData::BecsBankDebit { account_number, bsb_number, .. } => domain::BankDebitData::BecsBankDebit { account_number, bsb_number },
                BankDebitData::BacsBankDebit { account_number, sort_code, .. } => domain::BankDebitData::BacsBankDebit { account_number, sort_code },
            }
    }
}

impl vstd::std_specs::convert::FromSpecImpl<BankDebitData> for domain::BankDebitData {
    open spec fn obeys_from_spec() -> bool {
        true
    }

    open spec fn from_spec(v: BankDebitData) -> domain::BankDebitData {
        bank_debit_from_api(v)
    }
}

/// The canonical form of a public BankTransferData. Each bank transfer maps to itself.
pub open spec fn bank_transfer_from_api(v: BankTransferData) -> domain::BankTransferData {
        match v {
            BankTransferData::AchBankTransfer { .. } => domain::BankTransferData::AchBankTransfer {},
            BankTransferData::SepaBankTransfer { .. } => domain::BankTransferData::SepaBankTransfer {},
            BankTransferData::BacsBankTransfer { .. } => domain::BankTransferData::BacsBankTransfer {},
            BankTransferData::MultibancoBankTransfer { .. } => domain::BankTransferData::MultibancoBankTransfer {},
            BankTransferData::PermataBankTransfer { .. } => domain::BankTransferData::PermataBankTransfer {},
            BankTransferData::BcaBankTransfer { .. } => domain::BankTransferData::BcaBankTransfer {},
            BankTransferData::BniVaBankTransfer { .. } => domain::BankTransferData::BniVaBankTransfer {},
            BankTransferData::BriVaBankTransfer { .. } => domain::BankTransferData::BriVaBankTransfer {},
            BankTransferData::CimbVaBankTransfer { .. } => domain::BankTransferData::CimbVaBankTransfer {},
            BankTransferData::DanamonVaBankTransfer { .. } => domain::BankTransferData::DanamonVaBankTransfer {},
            BankTransferData::MandiriVaBankTransfer { .. } => domain::BankTransferData::MandiriVaBankTransfer {},
            BankTransferData::Pix { .. } => domain::BankTransferData::Pix {},
            BankTransferData::Pse { .. } => domain::BankTransferData::Pse {},
            BankTransferData::LocalBankTransfer { bank_code } => domain::BankTransferData::LocalBankTransfer { bank_code },
        }
}

impl From<BankTransferData> for domain::BankTransferData {
    fn from(value: BankTransferData) -> (r: domain::BankTransferData) {
        match value {
                BankTransferData::AchBankTransfer { .. } => domain::BankTransferData::AchBankTransfer {},
                BankTransferData::SepaBankTransfer { .. } => domain::BankTransferData::SepaBankTransfer {},
                BankTransferData::BacsBankTransfer { .. } => domain::BankTransferData::BacsBankTransfer {},
                BankTransferData::MultibancoBankTransfer { .. } => domain::BankTransferData::MultibancoBankTransfer {},
                BankTransferData::PermataBankTransfer { .. } => domain::BankTransferData::PermataBankTransfer {},
                BankTransferData::BcaBankTransfer { .. } => domain::BankTransferData::BcaBankTransfer {},
                BankTransferData::BniVaBankTransfer { .. } => domain::BankTransferData::BniVaBankTransfer {},
                BankTransferData::BriVaBankTransfer { .. } => domain::BankTransferData::BriVaBankTransfer {},
                BankTransferData::CimbVaBankTransfer { .. } => domain::BankTransferData::CimbVaBankTransfer {},
                BankTransferData::DanamonVaBankTransfer { .. } => domain::BankTransferData::DanamonVaBankTransfer {},
                BankTransferData::MandiriVaBankTransfer { .. } => domain::BankTransferData::MandiriVaBankTransfer {},
                BankTransferData::Pix { .. } => domain::BankTransferData::Pix {},
                BankTransferData::Pse { .. } => domain::BankTransferData::Pse {},
                BankTransferData::LocalBankTransfer { bank_code } => domain::BankTransferData::LocalBankTransfer { bank_code },
            }
    }
}

impl vstd::std_specs::convert::FromSpecImpl<BankTransferData> for domain::BankTransferData {
    open spec fn obeys_from_spec() -> bool {
        true
    }

    open spec fn from_spec(v: BankTransferData) -> domain::BankTransferData {
        bank_transfer_from_api(v)
    }
}

/// The canonical form of a public PaymentMethodData. Each instrument family maps to the same family of the canonical model.
pub open spec fn payment_method_from_api(v: PaymentMethodData) -> domain::PaymentMethodData {
        match v {
            PaymentMethodData::Card(c) => domain::PaymentMethodData::Card(card_from_api(c)),
            PaymentMethodData::CardRedirect(c) => domain::PaymentMethodData::CardRedirect(card_redirect_from_api(c)),
            PaymentMethodData::Wallet(w) => domain::PaymentMethodData::Wallet(wallet_from_api(w)),
            PaymentMethodData::PayLater(p) => domain::PaymentMethodData::PayLater(pay_later_from_api(p)),
            PaymentMethodData::BankRedirect(b) => domain::PaymentMethodData::BankRedirect(bank_redirect_from_api(b)),
            PaymentMethodData::BankDebit(b) => domain::PaymentMethodData::BankDebit(bank_debit_from_api(b)),
            PaymentMethodData::BankTransfer(b) => domain::PaymentMethodData::BankTransfer(Box::new(bank_transfer_from_api(*b))),
            PaymentMethodData::Crypto(c) => domain::PaymentMethodData::Crypto(c),
            PaymentMethodData::MandatePayment => domain::PaymentMethodData::MandatePayment,
            PaymentMethodData::Reward => domain::PaymentMethodData::Reward,
            PaymentMethodData::RealTimePayment(r) => domain::PaymentMethodData::RealTimePayment(r),
            PaymentMethodData::Upi(u) => domain::PaymentMethodData::Upi(upi_from_api(u)),
            PaymentMethodData::Voucher(v) => domain::PaymentMethodData::Voucher(voucher_from_api(v)),
            PaymentMethodData::GiftCard(g) => domain::PaymentMethodData::GiftCard(Box::new(gift_card_from_api(*g))),
            PaymentMethodData::CardToken(t) => domain::PaymentMethodData::CardToken(t),
            PaymentMethodData::OpenBanking(o) => domain::PaymentMethodData::OpenBanking(o),
        }
}

impl From<PaymentMethodData> for domain::PaymentMethodData {
    fn from(value: PaymentMethodData) -> (r: domain::PaymentMethodData) {
        match value {
                PaymentMethodData::Card(c) => domain::PaymentMethodData::Card(domain::Card::from(c)),
                PaymentMethodData::CardRedirect(c) => domain::PaymentMethodData::CardRedirect(domain::CardRedirectData::from(c)),
                PaymentMethodData::Wallet(w) => domain::PaymentMethodData::Wallet(domain::WalletData::from(w)),
                PaymentMethodData::PayLater(p) => domain::PaymentMethodData::PayLater(domain::PayLaterData::from(p)),
                PaymentMethodData::BankRedirect(b) => domain::PaymentMethodData::BankRedirect(domain::BankRedirectData::from(b)),
                PaymentMethodData::BankDebit(b) => domain::PaymentMethodData::BankDebit(domain::BankDebitData::from(b)),
                PaymentMethodData::BankTransfer(b) => domain::PaymentMethodData::BankTransfer(Box::new(domain::BankTransferData::from(*b))),
                PaymentMethodData::Crypto(c) => domain::PaymentMethodData::Crypto(c),
                PaymentMethodData::MandatePayment => domain::PaymentMethodData::MandatePayment,
                PaymentMethodData::Reward => domain::PaymentMethodData::Reward,
                PaymentMethodData::RealTimePayment(r) => domain::PaymentMethodData::RealTimePayment(r),
                PaymentMethodData::Upi(u) => domain::PaymentMethodData::Upi(domain::UpiData::from(u)),
                PaymentMethodData::Voucher(v) => domain::PaymentMethodData::Voucher(domain::VoucherData::from(v)),
                PaymentMethodData::GiftCard(g) => domain::PaymentMethodData::GiftCard(Box::new(domain::GiftCardData::from(*g))),
                PaymentMethodData::CardToken(t) => domain::PaymentMethodData::CardToken(t),
                PaymentMethodData::OpenBanking(o) => domain::PaymentMethodData::OpenBanking(o),
            }
    }
}

impl vstd::std_specs::convert::FromSpecImpl<PaymentMethodData> for domain::PaymentMethodData {
    open spec fn obeys_from_spec() -> bool {
        true
    }

    open spec fn from_spec(v: PaymentMethodData) -> domain::PaymentMethodData {
        payment_method_from_api(v)
    }
}

/// The category a public instrument reports; stored references (a card token,
/// a mandate) report none.
pub open spec fn api_category_of(d: PaymentMethodData) -> Option<PaymentMethod> {
    match d {
        PaymentMethodData::Card(_) => Some(PaymentMethod::Card),
        PaymentMethodData::CardRedirect(_) => Some(PaymentMethod::CardRedirect),
        PaymentMethodData::Wallet(_) => Some(PaymentMethod::Wallet),
        PaymentMethodData::PayLater(_) => Some(PaymentMethod::PayLater),
        PaymentMethodData::BankRedirect(_) => Some(PaymentMethod::BankRedirect),
        PaymentMethodData::BankDebit(_) => Some(PaymentMethod::BankDebit),
        PaymentMethodData::BankTransfer(_) => Some(PaymentMethod::BankTransfer),
        PaymentMethodData::Crypto(_) => Some(PaymentMethod::Crypto),
        PaymentMethodData::MandatePayment => None,
        PaymentMethodData::Reward => Some(PaymentMethod::Reward),
        PaymentMethodData::RealTimePayment(_) => Some(PaymentMethod::RealTimePayment),
        PaymentMethodData::Upi(_) => Some(PaymentMethod::Upi),
        PaymentMethodData::Voucher(_) => Some(PaymentMethod::Voucher),
        PaymentMethodData::GiftCard(_) => Some(PaymentMethod::GiftCard),
        PaymentMethodData::CardToken(_) => None,
        PaymentMethodData::OpenBanking(_) => Some(PaymentMethod::OpenBanking),
    }
}

/// Converting a public instrument into the canonical model keeps its
/// category: no instrument changes family at this boundary.
pub proof fn lemma_conversion_keeps_category(v: PaymentMethodData)
    ensures
        category_of(payment_method_from_api(v)) == api_category_of(v),
{
}

/// Every voucher keeps its own scheme through the conversion: no two
/// schemes are merged.
pub proof fn lemma_voucher_conversion_keeps_scheme(v: VoucherData)
    ensures
        v is Boleto <==> voucher_from_api(v) is Boleto,
        v is Efecty <==> voucher_from_api(v) is Efecty,
        v is PagoEfectivo <==> voucher_from_api(v) is PagoEfectivo,
        v is RedCompra <==> voucher_from_api(v) is RedCompra,
        v is RedPagos <==> voucher_from_api(v) is RedPagos,
        v is Alfamart <==> voucher_from_api(v) is Alfamart,
        v is Indomaret <==> voucher_from_api(v) is Indomaret,
        v is Oxxo <==> voucher_from_api(v) is Oxxo,
        v is SevenEleven <==> voucher_from_api(v) is SevenEleven,
        v is Lawson <==> voucher_from_api(v) is Lawson,
        v is MiniStop <==> voucher_from_api(v) is MiniStop,
        v is FamilyMart <==> voucher_from_api(v) is FamilyMart,
        v is Seicomart <==> voucher_from_api(v) is Seicomart,
        v is PayEasy <==> voucher_from_api(v) is PayEasy,
{
}

/// A raw card keeps its number, expiry and verification code through the
/// conversion.
pub proof fn lemma_card_conversion_keeps_card_data(c: Card)
    ensures
        card_from_api(c).card_number == c.card_number,
        card_from_api(c).card_exp_month == c.card_exp_month,
        card_from_api(c).card_exp_year == c.card_exp_year,
        card_from_api(c).card_cvc == c.card_cvc,
{
}

} // verus!
