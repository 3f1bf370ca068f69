use vstd::prelude::*;

verus! {

/// Canonical status of a payment attempt.
#[derive(Clone, Copy, Debug, PartialEq, Eq, Structural)]
pub enum AttemptStatus {
    Authorized,
    AuthorizationFailed,
    Charged,
    Voided,
    Failure,
    Pending,
}

/// Canonical status of a refund.
#[derive(Clone, Copy, Debug, PartialEq, Eq, Structural)]
pub enum RefundStatus {
    Success,
    Pending,
    Failure,
}

/// Canonical payment-method category.
#[derive(Clone, Copy, Debug, PartialEq, Eq, Structural)]
pub enum PaymentMethod {
    Card,
    CardRedirect,
    PayLater,
    Wallet,
    BankRedirect,
    BankTransfer,
    Crypto,
    BankDebit,
    Reward,
    RealTimePayment,
    Upi,
    Voucher,
    GiftCard,
    OpenBanking,
}

/// How a payment is captured after authorization.
#[derive(Clone, Copy, Debug, PartialEq, Eq, Structural)]
pub enum CaptureMethod {
    Automatic,
    Manual,
    ManualMultiple,
    Scheduled,
}

/// Card networks.
#[derive(Clone, Copy, Debug, PartialEq, Eq, Structural)]
pub enum CardNetwork {
    Visa,
    Mastercard,
    AmericanExpress,
    JCB,
    DinersClub,
    Discover,
    CartesBancaires,
    UnionPay,
    Interac,
    RuPay,
    Maestro,
}

/// Kind of bank account for a debit.
#[derive(Clone, Copy, Debug, PartialEq, Eq, Structural)]
pub enum BankType {
    Checking,
    Savings,
}

/// Holder of a bank account for a debit.
#[derive(Clone, Copy, Debug, PartialEq, Eq, Structural)]
pub enum BankHolderType {
    Personal,
    Business,
}

/// Whether a connector account takes traffic.
#[derive(Clone, Copy, Debug, PartialEq, Eq, Structural)]
pub enum ConnectorStatus {
    Active,
    Inactive,
}

/// ISO 4217 currencies.
#[derive(Clone, Copy, Debug, PartialEq, Eq, Structural)]
pub enum Currency {
    AED,
    AUD,
    BHD,
    BIF,
    BRL,
    CAD,
    CHF,
    CLP,
    CNY,
    DJF,
    EUR,
    GBP,
    GNF,
    HKD,
    IDR,
    INR,
    JOD,
    JPY,
    KMF,
    KRW,
    KWD,
    MGA,
    MXN,
    MYR,
    NZD,
    OMR,
    PLN,
    PYG,
    RWF,
    SEK,
    SGD,
    THB,
    TND,
    UGX,
    USD,
    VND,
    VUV,
    XAF,
    XOF,
    XPF,
    ZAR,
}

/// Number of minor-unit digits of a currency: 0, 2 or 3.
pub open spec fn minor_digits(c: Currency) -> nat {
    match c {
        Currency::BIF | Currency::CLP | Currency::DJF | Currency::GNF | Currency::JPY
        | Currency::KMF | Currency::KRW | Currency::MGA | Currency::PYG | Currency::RWF
        | Currency::UGX | Currency::VND | Currency::VUV | Currency::XAF | Currency::XOF
        | Currency::XPF => 0,
        Currency::BHD | Currency::JOD | Currency::KWD | Currency::OMR | Currency::TND => 3,
        _ => 2,
    }
}

impl Currency {
    /// True for currencies without a minor unit.
    pub fn is_zero_decimal_currency(&self) -> (r: bool)
        ensures
            r == (minor_digits(*self) == 0),
    {
        match self {
            Currency::BIF | Currency::CLP | Currency::DJF | Currency::GNF | Currency::JPY
            | Currency::KMF | Currency::KRW | Currency::MGA | Currency::PYG | Currency::RWF
            | Currency::UGX | Currency::VND | Currency::VUV | Currency::XAF | Currency::XOF
            | Currency::XPF => true,
            _ => false,
        }
    }

    /// True for currencies whose minor unit is a thousandth.
    pub fn is_three_decimal_currency(&self) -> (r: bool)
        ensures
            r == (minor_digits(*self) == 3),
    {
        match self {
            Currency::BHD | Currency::JOD | Currency::KWD | Currency::OMR | Currency::TND => true,
            _ => false,
        }
    }
}

impl Currency {
    /// The ISO 4217 code of the currency.
    pub open spec fn code_spec(&self) -> Seq<char> {
        match *self {
            Currency::AED => "AED"@,
            Currency::AUD => "AUD"@,
            Currency::BHD => "BHD"@,
            Currency::BIF => "BIF"@,
            Currency::BRL => "BRL"@,
            Currency::CAD => "CAD"@,
            Currency::CHF => "CHF"@,
            Currency::CLP => "CLP"@,
            Currency::CNY => "CNY"@,
            Currency::DJF => "DJF"@,
            Currency::EUR => "EUR"@,
            Currency::GBP => "GBP"@,
            Currency::GNF => "GNF"@,
            Currency::HKD => "HKD"@,
            Currency::IDR => "IDR"@,
            Currency::INR => "INR"@,
            Currency::JOD => "JOD"@,
            Currency::JPY => "JPY"@,
            Currency::KMF => "KMF"@,
            Currency::KRW => "KRW"@,
            Currency::KWD => "KWD"@,
            Currency::MGA => "MGA"@,
            Currency::MXN => "MXN"@,
            Currency::MYR => "MYR"@,
            Currency::NZD => "NZD"@,
            Currency::OMR => "OMR"@,
            Currency::PLN => "PLN"@,
            Currency::PYG => "PYG"@,
            Currency::RWF => "RWF"@,
            Currency::SEK => "SEK"@,
            Currency::SGD => "SGD"@,
            Currency::THB => "THB"@,
            Currency::TND => "TND"@,
            Currency::UGX => "UGX"@,
            Currency::USD => "USD"@,
            Currency::VND => "VND"@,
            Currency::VUV => "VUV"@,
            Currency::XAF => "XAF"@,
            Currency::XOF => "XOF"@,
            Currency::XPF => "XPF"@,
            Currency::ZAR => "ZAR"@,
        }
    }

    /// The ISO 4217 code of the currency.
    pub fn code(&self) -> (r: &'static str)
        ensures
            r@ == self.code_spec(),
    {
        match self {
            Currency::AED => "AED",
            Currency::AUD => "AUD",
            Currency::BHD => "BHD",
            Currency::BIF => "BIF",
            Currency::BRL => "BRL",
            Currency::CAD => "CAD",
            Currency::CHF => "CHF",
            Currency::CLP => "CLP",
            Currency::CNY => "CNY",
            Currency::DJF => "DJF",
            Currency::EUR => "EUR",
            Currency::GBP => "GBP",
            Currency::GNF => "GNF",
            Currency::HKD => "HKD",
            Currency::IDR => "IDR",
            Currency::INR => "INR",
            Currency::JOD => "JOD",
            Currency::JPY => "JPY",
            Currency::KMF => "KMF",
            Currency::KRW => "KRW",
            Currency::KWD => "KWD",
            Currency::MGA => "MGA",
            Currency::MXN => "MXN",
            Currency::MYR => "MYR",
            Currency::NZD => "NZD",
            Currency::OMR => "OMR",
            Currency::PLN => "PLN",
            Currency::PYG => "PYG",
            Currency::RWF => "RWF",
            Currency::SEK => "SEK",
            Currency::SGD => "SGD",
            Currency::THB => "THB",
            Currency::TND => "TND",
            Currency::UGX => "UGX",
            Currency::USD => "USD",
            Currency::VND => "VND",
            Currency::VUV => "VUV",
            Currency::XAF => "XAF",
            Currency::XOF => "XOF",
            Currency::XPF => "XPF",
            Currency::ZAR => "ZAR",
        }
    }
}

} // verus!
