//! The parts of the router's flow data that the connector reads, held as
//! plain values.
use vstd::prelude::*;
use crate::auth::ConnectorAuthType;

verus! {

/// The postal part of an address.
#[derive(Clone, Debug)]
pub struct AddressDetails {
    pub city: Option<String>,
    pub country: Option<String>,
    pub line1: Option<String>,
    pub line2: Option<String>,
    pub line3: Option<String>,
    pub zip: Option<String>,
    pub state: Option<String>,
    pub first_name: Option<String>,
    pub last_name: Option<String>,
}

/// A phone number and its country calling code.
#[derive(Clone, Debug)]
pub struct PhoneDetails {
    pub number: Option<String>,
    pub country_code: Option<String>,
}

/// An address with its contact details.
#[derive(Clone, Debug)]
pub struct Address {
    pub address: Option<AddressDetails>,
    pub phone: Option<PhoneDetails>,
    pub email: Option<String>,
}

/// The shipping address and the billing address of the payment method.
#[derive(Clone, Debug)]
pub struct PaymentAddress {
    pub shipping: Option<Address>,
    pub payment_method_billing: Option<Address>,
}

/// Card details of a card payment.
#[derive(Clone, Debug)]
pub struct Card {
    pub card_number: String,
    pub card_exp_month: String,
    pub card_exp_year: String,
    pub card_cvc: String,
    pub card_holder_name: Option<String>,
}

/// The payment method of a payment; only cards are processed here.
#[derive(Clone, Debug)]
pub enum PaymentMethodData {
    Card(Card),
    CardRedirect,
    Wallet,
    PayLater,
    BankRedirect,
    BankDebit,
    BankTransfer,
    Crypto,
    MandatePayment,
    Reward,
    Upi,
    Voucher,
    GiftCard,
    CardToken,
    OpenBanking,
    NetworkToken,
    MobilePayment,
}

/// What the customer's browser reported.
#[derive(Clone, Debug)]
pub struct BrowserInformation {
    pub color_depth: Option<u8>,
    pub java_enabled: Option<bool>,
    pub java_script_enabled: Option<bool>,
    pub language: Option<String>,
    pub screen_height: Option<u32>,
    pub screen_width: Option<u32>,
    pub time_zone: Option<i32>,
    pub accept_header: Option<String>,
    pub user_agent: Option<String>,
}

/// The statement descriptor a merchant asked for.
#[derive(Clone, Debug)]
pub struct BillingDescriptor {
    pub name: Option<String>,
}

/// How a payment is to be captured.
#[derive(Clone, Copy, Debug, PartialEq, Eq, Structural)]
pub enum CaptureMethod {
    Automatic,
    Manual,
    ManualMultiple,
    Scheduled,
    SequentialAutomatic,
}

/// HTTP methods.
#[derive(Clone, Copy, Debug, PartialEq, Eq, Structural)]
pub enum Method {
    Get,
    Post,
    Put,
    Delete,
    Patch,
}

/// A bearer token obtained from the gateway, and its lifetime in seconds.
#[derive(Clone, Debug)]
pub struct AccessToken {
    pub token: String,
    pub expires: i64,
}

/// The request data of a payment authorization.
#[derive(Clone, Debug)]
pub struct PaymentsAuthorizeData {
    pub minor_amount: i64,
    pub currency: String,
    pub payment_method_data: PaymentMethodData,
    pub capture_method: Option<CaptureMethod>,
    pub merchant_order_reference_id: Option<String>,
    pub billing_descriptor: Option<BillingDescriptor>,
    pub router_return_url: Option<String>,
    pub webhook_url: Option<String>,
    pub email: Option<String>,
    pub browser_info: Option<BrowserInformation>,
}

/// The flow data of a payment authorization.
#[derive(Clone, Debug)]
pub struct PaymentsAuthorizeRouterData {
    pub connector_auth_type: ConnectorAuthType,
    pub connector_request_reference_id: String,
    pub description: Option<String>,
    pub address: PaymentAddress,
    pub access_token: Option<AccessToken>,
    pub request: PaymentsAuthorizeData,
}

/// A gateway's identifier for a transaction, as the router stores it.
#[derive(Clone, Debug)]
pub enum ResponseId {
    ConnectorTransactionId(String),
    EncodedData(String),
    NoResponseId,
}

/// Whether a status query is for a single payment or for several captures.
#[derive(Clone, Debug)]
pub enum SyncRequestType {
    MultipleCaptureSync(Vec<String>),
    SinglePaymentSync,
}

/// The request data of a payment status query.
#[derive(Clone, Debug)]
pub struct PaymentsSyncData {
    pub connector_transaction_id: ResponseId,
    pub sync_type: SyncRequestType,
}

/// The flow data of a payment status query.
#[derive(Clone, Debug)]
pub struct PaymentsSyncRouterData {
    pub connector_auth_type: ConnectorAuthType,
    pub access_token: Option<AccessToken>,
    pub request: PaymentsSyncData,
}

/// The request data of a refund or a refund status query.
#[derive(Clone, Debug)]
pub struct RefundsData {
    pub refund_id: String,
    pub connector_transaction_id: String,
    pub connector_refund_id: Option<String>,
    pub currency: String,
    pub minor_refund_amount: i64,
    pub reason: Option<String>,
    pub webhook_url: Option<String>,
}

/// The flow data of a refund or a refund status query.
#[derive(Clone, Debug)]
pub struct RefundsRouterData {
    pub connector_auth_type: ConnectorAuthType,
    pub access_token: Option<AccessToken>,
    pub request: RefundsData,
}

/// The flow data of an access-token request.
#[derive(Clone, Debug)]
pub struct RefreshTokenRouterData {
    pub connector_auth_type: ConnectorAuthType,
}

/// Per-connector settings.
#[derive(Clone, Debug)]
pub struct ConnectorParams {
    pub base_url: String,
}

/// The settings of the connectors this library knows.
#[derive(Clone, Debug)]
pub struct Connectors {
    pub uprimerpay: ConnectorParams,
}

/// The view of an optional string.
pub open spec fn opt_view(s: Option<String>) -> Option<Seq<char>> {
    match s {
        Some(v) => Some(v@),
        None => None,
    }
}

/// A clone of an optional string.
pub fn clone_opt_string(s: &Option<String>) -> (r: Option<String>)
    ensures
        r == *s,
        opt_view(r) == opt_view(*s),
{
    match s {
        Some(v) => Some(v.clone()),
        None => None,
    }
}

} // verus!
