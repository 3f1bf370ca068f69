use vstd::prelude::*;

use crate::enums::{BankHolderType, BankType, CardNetwork, PaymentMethod};
use vstd::string::*;

use crate::secret::{Secret, REDACTION_MARKER};

verus! {

/// Declares the calendar date type of the `time` crate, carried through
/// unchanged as a date of birth.
#[verifier::external_type_specification]
#[verifier::external_body]
pub struct ExDate(time::Date);

/// The canonical payment instrument of one operation: exactly one family is
/// active, and it carries only what processing needs.
#[derive(Clone, PartialEq, Eq)]
pub enum PaymentMethodData {
    Card(Card),
    CardRedirect(CardRedirectData),
    Wallet(WalletData),
    PayLater(PayLaterData),
    BankRedirect(BankRedirectData),
    BankDebit(BankDebitData),
    BankTransfer(Box<BankTransferData>),
    Crypto(CryptoData),
    MandatePayment,
    Reward,
    RealTimePayment(Box<RealTimePaymentData>),
    Upi(UpiData),
    Voucher(VoucherData),
    GiftCard(Box<GiftCardData>),
    CardToken(CardToken),
    OpenBanking(OpenBankingData),
}

/// The category each instrument family reports; stored references (a card
/// token, a mandate) report none.
pub open spec fn category_of(d: PaymentMethodData) -> Option<PaymentMethod> {
    match d {
        PaymentMethodData::Card(_) => Some(PaymentMethod::Card),
        PaymentMethodData::CardRedirect(_) => Some(PaymentMethod::CardRedirect),
        PaymentMethodData::Wallet(_) => Some(PaymentMethod::Wallet),
        PaymentMethodData::PayLater(_) => Some(PaymentMethod::PayLater),
        PaymentMethodData::BankRedirect(_) => Some(PaymentMethod::BankRedirect),
        PaymentMethodData::BankDebit(_) => Some(PaymentMethod::BankDebit),
        PaymentMethodData::BankTransfer(_) => Some(PaymentMethod::BankTransfer),
        PaymentMethodData::Crypto(_) => Some(PaymentMethod::Crypto),
        PaymentMethodData::MandatePayment => None,
        PaymentMethodData::Reward => Some(PaymentMethod::Reward),
        PaymentMethodData::RealTimePayment(_) => Some(PaymentMethod::RealTimePayment),
        PaymentMethodData::Upi(_) => Some(PaymentMethod::Upi),
        PaymentMethodData::Voucher(_) => Some(PaymentMethod::Voucher),
        PaymentMethodData::GiftCard(_) => Some(PaymentMethod::GiftCard),
        PaymentMethodData::CardToken(_) => None,
        PaymentMethodData::OpenBanking(_) => Some(PaymentMethod::OpenBanking),
    }
}

impl PaymentMethodData {
    /// The category of the instrument, or `None` for a card token or a mandate.
    pub fn get_payment_method(&self) -> (r: Option<PaymentMethod>)
        ensures
            r == category_of(*self),
    {
        match self {
            Self::Card(_) => Some(PaymentMethod::Card),
            Self::CardRedirect(_) => Some(PaymentMethod::CardRedirect),
            Self::Wallet(_) => Some(PaymentMethod::Wallet),
            Self::PayLater(_) => Some(PaymentMethod::PayLater),
            Self::BankRedirect(_) => Some(PaymentMethod::BankRedirect),
            Self::BankDebit(_) => Some(PaymentMethod::BankDebit),
            Self::BankTransfer(_) => Some(PaymentMethod::BankTransfer),
            Self::Crypto(_) => Some(PaymentMethod::Crypto),
            Self::Reward => Some(PaymentMethod::Reward),
            Self::RealTimePayment(_) => Some(PaymentMethod::RealTimePayment),
            Self::Upi(_) => Some(PaymentMethod::Upi),
            Self::Voucher(_) => Some(PaymentMethod::Voucher),
            Self::GiftCard(_) => Some(PaymentMethod::GiftCard),
            Self::OpenBanking(_) => Some(PaymentMethod::OpenBanking),
            Self::CardToken(_) | Self::MandatePayment => None,
        }
    }
}

/// Only a card token and a mandate report no category, and every other family
/// reports its own.
pub proof fn lemma_category_none_exactly_for_stored_references(d: PaymentMethodData)
    ensures
        category_of(d) is None <==> (d is CardToken || d is MandatePayment),
        d is Card ==> category_of(d) == Some(PaymentMethod::Card),
        d is Wallet ==> category_of(d) == Some(PaymentMethod::Wallet),
        d is BankRedirect ==> category_of(d) == Some(PaymentMethod::BankRedirect),
        d is BankDebit ==> category_of(d) == Some(PaymentMethod::BankDebit),
        d is BankTransfer ==> category_of(d) == Some(PaymentMethod::BankTransfer),
        d is Voucher ==> category_of(d) == Some(PaymentMethod::Voucher),
        d is GiftCard ==> category_of(d) == Some(PaymentMethod::GiftCard),
        d is Reward ==> category_of(d) == Some(PaymentMethod::Reward),
{
}

/// Certificate and key with which the merchant decrypts Apple Pay tokens.
#[derive(Clone, PartialEq, Eq)]
pub struct PaymentProcessingDetails {
    pub payment_processing_certificate: Secret<String>,
    pub payment_processing_certificate_key: Secret<String>,
}

/// Who decrypts Apple Pay tokens: the platform, with the merchant's
/// processing certificate, or the merchant.
#[derive(Clone, PartialEq, Eq)]
pub enum ApplePayFlow {
    Simplified(PaymentProcessingDetails),
    Manual,
}

/// A raw card.
#[derive(Clone, PartialEq, Eq)]
pub struct Card {
    pub card_number: Secret<String>,
    pub card_exp_month: Secret<String>,
    pub card_exp_year: Secret<String>,
    pub card_cvc: Secret<String>,
    pub card_issuer: Option<String>,
    pub card_network: Option<CardNetwork>,
    pub card_type: Option<String>,
    pub card_issuing_country: Option<String>,
    pub bank_code: Option<String>,
    pub nick_name: Option<Secret<String>>,
}

#[derive(Clone, Debug, PartialEq, Eq)]
pub enum CardRedirectData {
    Knet {},
    Benefit {},
    MomoAtm {},
    CardRedirect {},
}

#[derive(Clone, Debug, PartialEq, Eq)]
pub enum PayLaterData {
    KlarnaRedirect {},
    KlarnaSdk { token: String },
    AffirmRedirect {},
    AfterpayClearpayRedirect {},
    PayBrightRedirect {},
    WalleyRedirect {},
    AlmaRedirect {},
    AtomeRedirect {},
}

#[derive(Clone, PartialEq, Eq)]
pub enum WalletData {
    AliPayQr(Box<AliPayQr>),
    AliPayRedirect(AliPayRedirection),
    AliPayHkRedirect(AliPayHkRedirection),
    MomoRedirect(MomoRedirection),
    KakaoPayRedirect(KakaoPayRedirection),
    GoPayRedirect(GoPayRedirection),
    GcashRedirect(GcashRedirection),
    ApplePay(ApplePayWalletData),
    ApplePayRedirect(Box<ApplePayRedirectData>),
    ApplePayThirdPartySdk(Box<ApplePayThirdPartySdkData>),
    DanaRedirect {},
    GooglePay(GooglePayWalletData),
    GooglePayRedirect(Box<GooglePayRedirectData>),
    GooglePayThirdPartySdk(Box<GooglePayThirdPartySdkData>),
    MbWayRedirect(Box<MbWayRedirection>),
    MobilePayRedirect(Box<MobilePayRedirection>),
    PaypalRedirect(PaypalRedirection),
    PaypalSdk(PayPalWalletData),
    SamsungPay(Box<SamsungPayWalletData>),
    TwintRedirect {},
    VippsRedirect {},
    TouchNGoRedirect(Box<TouchNGoRedirection>),
    WeChatPayRedirect(Box<WeChatPayRedirection>),
    WeChatPayQr(Box<WeChatPayQr>),
    CashappQr(Box<CashappQr>),
    SwishQr(SwishQrData),
    Mifinity(MifinityData),
}

#[derive(Clone, PartialEq, Eq)]
pub struct MifinityData {
    pub date_of_birth: Secret<time::Date>,
    pub language_preference: Option<String>,
}

#[derive(Clone, PartialEq, Eq)]
pub struct SamsungPayWalletData {
    /// The encrypted payment token.
    pub token: Secret<String>,
}

#[derive(Clone, Debug, PartialEq, Eq)]
pub struct GooglePayWalletData {
    /// The type of payment method.
    pub pm_type: String,
    /// User-facing description of the instrument that funds the payment.
    pub description: String,
    /// The instrument's details.
    pub info: GooglePayPaymentMethodInfo,
    /// The tokenization data.
    pub tokenization_data: GpayTokenizationData,
}

#[derive(Clone, Debug, PartialEq, Eq)]
pub struct ApplePayRedirectData {}

#[derive(Clone, Debug, PartialEq, Eq)]
pub struct GooglePayRedirectData {}

#[derive(Clone, Debug, PartialEq, Eq)]
pub struct GooglePayThirdPartySdkData {}

#[derive(Clone, Debug, PartialEq, Eq)]
pub struct ApplePayThirdPartySdkData {}

#[derive(Clone, Debug, PartialEq, Eq)]
pub struct WeChatPayRedirection {}

#[derive(Clone, Debug, PartialEq, Eq)]
pub struct WeChatPay {}

#[derive(Clone, Debug, PartialEq, Eq)]
pub struct WeChatPayQr {}

#[derive(Clone, Debug, PartialEq, Eq)]
pub struct CashappQr {}

#[derive(Clone, PartialEq, Eq)]
pub struct PaypalRedirection {
    /// The payer's email address.
    pub email: Option<Secret<String>>,
}

#[derive(Clone, Debug, PartialEq, Eq)]
pub struct AliPayQr {}

#[derive(Clone, Debug, PartialEq, Eq)]
pub struct AliPayRedirection {}

#[derive(Clone, Debug, PartialEq, Eq)]
pub struct AliPayHkRedirection {}

#[derive(Clone, Debug, PartialEq, Eq)]
pub struct MomoRedirection {}

#[derive(Clone, Debug, PartialEq, Eq)]
pub struct KakaoPayRedirection {}

#[derive(Clone, Debug, PartialEq, Eq)]
pub struct GoPayRedirection {}

#[derive(Clone, Debug, PartialEq, Eq)]
pub struct GcashRedirection {}

#[derive(Clone, Debug, PartialEq, Eq)]
pub struct MobilePayRedirection {}

#[derive(Clone, Debug, PartialEq, Eq)]
pub struct MbWayRedirection {}

#[derive(Clone, Debug, PartialEq, Eq)]
pub struct GooglePayPaymentMethodInfo {
    /// The card network.
    pub card_network: String,
    /// The card's details.
    pub card_details: String,
    /// What was checked of the cardholder.
    pub assurance_details: Option<GooglePayAssuranceDetails>,
}

#[derive(Clone, Debug, PartialEq, Eq)]
pub struct GooglePayAssuranceDetails {
    /// The cardholder's possession of the card was checked.
    pub card_holder_authenticated: bool,
    /// Identification and verification were performed.
    pub account_verified: bool,
}

#[derive(Clone, Debug, PartialEq, Eq)]
pub struct PayPalWalletData {
    /// The token issued by the wallet.
    pub token: String,
}

#[derive(Clone, Debug, PartialEq, Eq)]
pub struct TouchNGoRedirection {}

#[derive(Clone, Debug, PartialEq, Eq)]
pub struct SwishQrData {}

#[derive(Clone, Debug, PartialEq, Eq)]
pub struct GpayTokenizationData {
    /// The type of the token.
    pub token_type: String,
    /// The token issued by the wallet.
    pub token: String,
}

#[derive(Clone, Debug, PartialEq, Eq)]
pub struct ApplePayWalletData {
    /// The encrypted payment data.
    pub payment_data: String,
    /// The instrument used.
    pub payment_method: ApplepayPaymentMethod,
    /// The transaction's identifier.
    pub transaction_identifier: String,
}

#[derive(Clone, Debug, PartialEq, Eq)]
pub struct ApplepayPaymentMethod {
    pub display_name: String,
    pub network: String,
    pub pm_type: String,
}

#[derive(Clone, Debug, PartialEq, Eq)]
pub enum RealTimePaymentData {
    DuitNow {},
    Fps {},
    PromptPay {},
    VietQr {},
}

/// Per-scheme redirect banking; bank names are the issuer's identifier.
#[derive(Clone, PartialEq, Eq)]
pub enum BankRedirectData {
    BancontactCard {
        card_number: Option<Secret<String>>,
        card_exp_month: Option<Secret<String>>,
        card_exp_year: Option<Secret<String>>,
    },
    Bizum {},
    Blik { blik_code: Option<String> },
    Eps { bank_name: Option<String> },
    Giropay { bank_account_bic: Option<Secret<String>>, bank_account_iban: Option<Secret<String>> },
    Ideal { bank_name: Option<String> },
    Interac {},
    OnlineBankingCzechRepublic { issuer: String },
    OnlineBankingFinland {},
    OnlineBankingPoland { issuer: String },
    OnlineBankingSlovakia { issuer: String },
    OpenBankingUk { issuer: Option<String> },
    Przelewy24 { bank_name: Option<String> },
    Sofort { preferred_language: Option<String> },
    Trustly {},
    OnlineBankingFpx { issuer: String },
    OnlineBankingThailand { issuer: String },
    LocalBankRedirect {},
}

#[derive(Clone, Debug, PartialEq, Eq)]
pub enum OpenBankingData {
    OpenBankingPIS {},
}

#[derive(Clone, Debug, PartialEq, Eq)]
pub struct CryptoData {
    pub pay_currency: Option<String>,
    pub network: Option<String>,
}

#[derive(Clone, PartialEq, Eq)]
pub enum UpiData {
    UpiCollect(UpiCollectData),
    UpiIntent(UpiIntentData),
}

#[derive(Clone, PartialEq, Eq)]
pub struct UpiCollectData {
    pub vpa_id: Option<Secret<String>>,
}

#[derive(Clone, Debug, PartialEq, Eq)]
pub struct UpiIntentData {}

#[derive(Clone, PartialEq, Eq)]
pub enum VoucherData {
    Boleto(Box<BoletoVoucherData>),
    Efecty,
    PagoEfectivo,
    RedCompra,
    RedPagos,
    Alfamart(Box<AlfamartVoucherData>),
    Indomaret(Box<IndomaretVoucherData>),
    Oxxo,
    SevenEleven(Box<JCSVoucherData>),
    Lawson(Box<JCSVoucherData>),
    MiniStop(Box<JCSVoucherData>),
    FamilyMart(Box<JCSVoucherData>),
    Seicomart(Box<JCSVoucherData>),
    PayEasy(Box<JCSVoucherData>),
}

#[derive(Clone, PartialEq, Eq)]
pub struct BoletoVoucherData {
    /// The shopper's social security number.
    pub social_security_number: Option<Secret<String>>,
}

#[derive(Clone, Debug, PartialEq, Eq)]
pub struct AlfamartVoucherData {}

#[derive(Clone, Debug, PartialEq, Eq)]
pub struct IndomaretVoucherData {}

#[derive(Clone, Debug, PartialEq, Eq)]
pub struct JCSVoucherData {}

#[derive(Clone, PartialEq, Eq)]
pub enum GiftCardData {
    Givex(GiftCardDetails),
    PaySafeCard {},
}

#[derive(Clone, PartialEq, Eq)]
pub struct GiftCardDetails {
    /// The gift card number.
    pub number: Secret<String>,
    /// The card verification code.
    pub cvc: Secret<String>,
}

#[derive(Clone, PartialEq, Eq)]
pub struct CardToken {
    /// The cardholder's name.
    pub card_holder_name: Option<Secret<String>>,
    /// The card verification code.
    pub card_cvc: Option<Secret<String>>,
}

#[derive(Clone, PartialEq, Eq)]
pub enum BankDebitData {
    AchBankDebit {
        account_number: Secret<String>,
        routing_number: Secret<String>,
        bank_name: Option<String>,
        bank_type: Option<BankType>,
        bank_holder_type: Option<BankHolderType>,
    },
    SepaBankDebit { iban: Secret<String> },
    BecsBankDebit { account_number: Secret<String>, bsb_number: Secret<String> },
    BacsBankDebit { account_number: Secret<String>, sort_code: Secret<String> },
}

#[derive(Clone, Debug, PartialEq, Eq)]
pub enum BankTransferData {
    AchBankTransfer {},
    SepaBankTransfer {},
    BacsBankTransfer {},
    MultibancoBankTransfer {},
    PermataBankTransfer {},
    BcaBankTransfer {},
    BniVaBankTransfer {},
    BriVaBankTransfer {},
    CimbVaBankTransfer {},
    DanamonVaBankTransfer {},
    MandiriVaBankTransfer {},
    Pix {},
    Pse {},
    LocalBankTransfer { bank_code: Option<String> },
}

#[derive(Clone, PartialEq, Eq)]
pub struct SepaAndBacsBillingDetails {
    /// The email address for SEPA and BACS billing.
    pub email: Secret<String>,
    /// The billing name for SEPA and BACS billing.
    pub name: Secret<String>,
}

/// The rendering of a card for logs: the secret fields, each replaced by the
/// redaction marker.
pub open spec fn card_text() -> Seq<char> {
    "Card { card_number: "@ + REDACTION_MARKER@ + ", card_exp_month: "@ + REDACTION_MARKER@
        + ", card_exp_year: "@ + REDACTION_MARKER@ + ", card_cvc: "@ + REDACTION_MARKER@ + " }"@
}

impl Card {
    /// Renders the card for logs and messages without its number, expiry or
    /// verification code.
    pub fn redacted_text(&self) -> (r: String)
        ensures
            r@ == card_text(),
    {
        String::from_str("Card { card_number: ").concat(REDACTION_MARKER).concat(", card_exp_month: ").concat(
            REDACTION_MARKER,
        ).concat(", card_exp_year: ").concat(REDACTION_MARKER).concat(", card_cvc: ").concat(
            REDACTION_MARKER,
        ).concat(" }")
    }
}

} // verus!
