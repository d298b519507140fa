//! The bodies of payment and refund requests sent to the gateway.
use vstd::prelude::*;
use crate::auth::{spec_auth, UprimerpayAuthType};
use crate::card::{is_digit, two_digit_month, two_digit_year};
use crate::errors::ConnectorError;
use crate::router_data::{
    clone_opt_string, opt_view, Address, AddressDetails, BrowserInformation, Card,
    PaymentMethodData, PaymentsAuthorizeRouterData, RefundsRouterData,
};
use crate::text::{bool_text, decimal, i64_to_string, signed_decimal, u64_to_string, bool_to_string};

verus! {

/// The challenge window size requested for 3-D Secure.
pub const DEFAULT_CHALLENGE_WINDOW: &'static str = "05";

/// An amount together with the flow data it belongs to.
pub struct UprimerpayRouterData<T> {
    pub amount: i64,
    pub router_data: T,
}

impl<T> UprimerpayRouterData<T> {
    pub fn from(value: (i64, T)) -> (r: UprimerpayRouterData<T>)
        ensures
            r.amount == value.0,
            r.router_data == value.1,
    {
        let (amount, router_data) = value;
        UprimerpayRouterData { amount, router_data }
    }
}

/// The payment method kinds the gateway accepts here.
#[derive(Clone, Copy, Debug, PartialEq, Eq, Structural)]
pub enum UprimerpayPaymentMethodType {
    Card,
}

/// Billing details sent with a payment.
#[derive(Clone, Debug)]
pub struct UprimerpayBilling {
    pub first_name: String,
    pub last_name: String,
    pub date_of_birth: Option<String>,
    pub phone_number: Option<String>,
    pub email: Option<String>,
    pub country_code: Option<String>,
    pub state: Option<String>,
    pub city: Option<String>,
    pub street: Option<String>,
    pub post_code: Option<String>,
}

/// Card details sent with a payment.
#[derive(Clone, Debug)]
pub struct UprimerpayCard {
    pub number: String,
    pub cvv: String,
    pub expiry_month: String,
    pub expiry_year: String,
    pub first_name: String,
    pub last_name: String,
    pub billing: UprimerpayBilling,
}

/// The payment method of a payment request.
#[derive(Clone, Debug)]
pub struct UprimerpayPaymentMethod {
    pub method_type: UprimerpayPaymentMethodType,
    pub card: UprimerpayCard,
}

/// A line item of a payment request.
#[derive(Clone, Debug)]
pub struct UprimerpayProduct {
    pub code: String,
    pub name: String,
    pub quantity: u32,
    pub sku: String,
    pub unit_price: i64,
    pub total_amount: i64,
}

/// Shipping details sent with a payment.
#[derive(Clone, Debug)]
pub struct UprimerpayShipping {
    pub company: Option<String>,
    pub first_name: Option<String>,
    pub last_name: Option<String>,
    pub phone_number: Option<String>,
    pub country_code: Option<String>,
    pub state: Option<String>,
    pub city: Option<String>,
    pub street: Option<String>,
    pub street2: Option<String>,
    pub post_code: Option<String>,
}

/// Browser details sent for 3-D Secure.
#[derive(Clone, Debug)]
pub struct UprimerpayDeviceData {
    pub accept_header: String,
    pub browser_java_enabled: String,
    pub browser_javascript_enabled: String,
    pub browser_user_agent: String,
    pub challenge_window: String,
    pub language: String,
    pub screen_color_depth: String,
    pub screen_height: String,
    pub screen_width: String,
    pub timezone: String,
}

/// The body of a payment request.
#[derive(Clone, Debug)]
pub struct UprimerpayPaymentsRequest {
    pub amount: i64,
    pub app_id: String,
    pub currency: String,
    pub descriptor: Option<String>,
    pub merchant_order_id: String,
    pub request_id: String,
    pub cancel_url: String,
    pub success_url: String,
    pub failure_url: String,
    pub notification_url: Option<String>,
    pub order_time: String,
    pub payment_method: UprimerpayPaymentMethod,
    pub billing: UprimerpayBilling,
    pub products: Vec<UprimerpayProduct>,
    pub shipping: Option<UprimerpayShipping>,
    pub device_data: Option<UprimerpayDeviceData>,
}

/// The body of a refund request.
#[derive(Clone, Debug)]
pub struct UprimerpayRefundRequest {
    pub request_id: String,
    pub app_id: String,
    pub merchant_order_id: String,
    pub amount: i64,
    pub currency: String,
    pub refund_reason: Option<String>,
    pub refund_time: String,
    pub notification_url: Option<String>,
}

// ---------------------------------------------------------------------------
// What the request fields are, stated over the flow data.

/// The postal details of an optional address.
pub open spec fn details(a: Option<Address>) -> Option<AddressDetails> {
    match a {
        Some(x) => x.address,
        None => None,
    }
}

/// One postal field of optional details.
pub open spec fn field(d: Option<AddressDetails>, f: spec_fn(AddressDetails) -> Option<String>) -> Option<Seq<char>> {
    match d {
        Some(x) => opt_view(f(x)),
        None => None,
    }
}

/// The phone number of an optional address.
pub open spec fn phone_number(a: Option<Address>) -> Option<Seq<char>> {
    match a {
        Some(x) => match x.phone {
            Some(p) => opt_view(p.number),
            None => None,
        },
        None => None,
    }
}

/// The e-mail of an optional address.
pub open spec fn address_email(a: Option<Address>) -> Option<Seq<char>> {
    match a {
        Some(x) => opt_view(x.email),
        None => None,
    }
}

pub open spec fn billing_first_name(rd: PaymentsAuthorizeRouterData) -> Option<Seq<char>> {
    field(details(rd.address.payment_method_billing), |x: AddressDetails| x.first_name)
}

pub open spec fn billing_last_name(rd: PaymentsAuthorizeRouterData) -> Option<Seq<char>> {
    field(details(rd.address.payment_method_billing), |x: AddressDetails| x.last_name)
}

/// The billing block is the payment method's billing address, with the
/// billing e-mail falling back to the customer's e-mail.
pub open spec fn billing_matches(b: UprimerpayBilling, rd: PaymentsAuthorizeRouterData) -> bool {
    let a = rd.address.payment_method_billing;
    let d = details(a);
    &&& billing_first_name(rd) == Some(b.first_name@)
    &&& billing_last_name(rd) == Some(b.last_name@)
    &&& b.date_of_birth is None
    &&& opt_view(b.phone_number) == phone_number(a)
    &&& opt_view(b.email) == (match address_email(a) {
        Some(e) => Some(e),
        None => opt_view(rd.request.email),
    })
    &&& opt_view(b.country_code) == field(d, |x: AddressDetails| x.country)
    &&& opt_view(b.state) == field(d, |x: AddressDetails| x.state)
    &&& opt_view(b.city) == field(d, |x: AddressDetails| x.city)
    &&& opt_view(b.street) == field(d, |x: AddressDetails| x.line1)
    &&& opt_view(b.post_code) == field(d, |x: AddressDetails| x.zip)
}

/// A shipping block is sent exactly when there is a shipping address, and
/// then carries its fields.
pub open spec fn shipping_matches(s: Option<UprimerpayShipping>, rd: PaymentsAuthorizeRouterData) -> bool {
    let a = rd.address.shipping;
    let d = details(a);
    match s {
        None => a is None,
        Some(s) => {
            &&& a is Some
            &&& s.company is None
            &&& opt_view(s.first_name) == field(d, |x: AddressDetails| x.first_name)
            &&& opt_view(s.last_name) == field(d, |x: AddressDetails| x.last_name)
            &&& opt_view(s.phone_number) == phone_number(a)
            &&& opt_view(s.country_code) == field(d, |x: AddressDetails| x.country)
            &&& opt_view(s.state) == field(d, |x: AddressDetails| x.state)
            &&& opt_view(s.city) == field(d, |x: AddressDetails| x.city)
            &&& opt_view(s.street) == field(d, |x: AddressDetails| x.line1)
            &&& opt_view(s.street2) == field(d, |x: AddressDetails| x.line2)
            &&& opt_view(s.post_code) == field(d, |x: AddressDetails| x.zip)
        },
    }
}

/// An optional string, or a default.
pub open spec fn or_text(s: Option<String>, default: Seq<char>) -> Seq<char> {
    match s {
        Some(v) => v@,
        None => default,
    }
}

/// Device data carries the browser's values, each with a fixed default.
pub open spec fn device_data_matches(d: UprimerpayDeviceData, b: BrowserInformation) -> bool {
    &&& d.accept_header@ == or_text(b.accept_header, "*/*"@)
    &&& d.browser_java_enabled@ == bool_text(match b.java_enabled { Some(v) => v, None => false })
    &&& d.browser_javascript_enabled@ == bool_text(match b.java_script_enabled { Some(v) => v, None => true })
    &&& d.browser_user_agent@ == or_text(b.user_agent, "Hyperswitch"@)
    &&& d.challenge_window@ == DEFAULT_CHALLENGE_WINDOW@
    &&& d.language@ == or_text(b.language, "en-US"@)
    &&& d.screen_color_depth@ == decimal(match b.color_depth { Some(v) => v as nat, None => 24 })
    &&& d.screen_height@ == decimal(match b.screen_height { Some(v) => v as nat, None => 1080 })
    &&& d.screen_width@ == decimal(match b.screen_width { Some(v) => v as nat, None => 1920 })
    &&& d.timezone@ == signed_decimal(match b.time_zone { Some(v) => v as int, None => 0 })
}

/// Device data is sent exactly when the browser reported its details.
pub open spec fn opt_device_data_matches(d: Option<UprimerpayDeviceData>, b: Option<BrowserInformation>) -> bool {
    match (d, b) {
        (Some(d), Some(b)) => device_data_matches(d, b),
        (None, None) => true,
        _ => false,
    }
}

// ---------------------------------------------------------------------------
// Building the blocks.

fn billing_details(a: &Option<Address>) -> (r: Option<&AddressDetails>)
    ensures
        match r {
            Some(d) => details(*a) == Some(*d),
            None => details(*a) is None,
        },
{
    match a {
        Some(x) => match &x.address {
            Some(d) => Some(d),
            None => None,
        },
        None => None,
    }
}

fn address_phone_number(a: &Option<Address>) -> (r: Option<String>)
    ensures
        opt_view(r) == phone_number(*a),
{
    match a {
        Some(x) => match &x.phone {
            Some(p) => clone_opt_string(&p.number),
            None => None,
        },
        None => None,
    }
}

/// The billing block of a payment; the billing first and last names are
/// required, in that order.
pub fn get_billing(item: &PaymentsAuthorizeRouterData) -> (res: Result<UprimerpayBilling, ConnectorError>)
    ensures
        billing_first_name(*item) is None ==> (res matches Err(ConnectorError::MissingRequiredField { field_name })
            && field_name@ == "payment_method_data.billing.address.first_name"@),
        billing_first_name(*item) is Some && billing_last_name(*item) is None ==>
            (res matches Err(ConnectorError::MissingRequiredField { field_name })
            && field_name@ == "payment_method_data.billing.address.last_name"@),
        billing_first_name(*item) is Some && billing_last_name(*item) is Some ==>
            (res matches Ok(b) && billing_matches(b, *item)),
{
    let a = &item.address.payment_method_billing;
    let d = billing_details(a);
    let first_name = match d {
        Some(x) => match &x.first_name {
            Some(f) => f.clone(),
            None => return Err(ConnectorError::MissingRequiredField {
                field_name: String::from_str("payment_method_data.billing.address.first_name"),
            }),
        },
        None => return Err(ConnectorError::MissingRequiredField {
            field_name: String::from_str("payment_method_data.billing.address.first_name"),
        }),
    };
    let last_name = match d {
        Some(x) => match &x.last_name {
            Some(l) => l.clone(),
            None => return Err(ConnectorError::MissingRequiredField {
                field_name: String::from_str("payment_method_data.billing.address.last_name"),
            }),
        },
        None => return Err(ConnectorError::MissingRequiredField {
            field_name: String::from_str("payment_method_data.billing.address.last_name"),
        }),
    };
    let email = match a {
        Some(x) => match &x.email {
            Some(e) => Some(e.clone()),
            None => clone_opt_string(&item.request.email),
        },
        None => clone_opt_string(&item.request.email),
    };
    let (country_code, state, city, street, post_code) = match d {
        Some(x) => (
            clone_opt_string(&x.country),
            clone_opt_string(&x.state),
            clone_opt_string(&x.city),
            clone_opt_string(&x.line1),
            clone_opt_string(&x.zip),
        ),
        None => (None, None, None, None, None),
    };
    Ok(UprimerpayBilling {
        first_name,
        last_name,
        date_of_birth: None,
        phone_number: address_phone_number(a),
        email,
        country_code,
        state,
        city,
        street,
        post_code,
    })
}

/// The shipping block of a payment, when it has a shipping address.
pub fn get_shipping(item: &PaymentsAuthorizeRouterData) -> (res: Option<UprimerpayShipping>)
    ensures
        shipping_matches(res, *item),
{
    let a = &item.address.shipping;
    match a {
        None => None,
        Some(_) => {
            let d = billing_details(a);
            let (first_name, last_name, country_code, state, city, street, street2, post_code) = match d {
                Some(x) => (
                    clone_opt_string(&x.first_name),
                    clone_opt_string(&x.last_name),
                    clone_opt_string(&x.country),
                    clone_opt_string(&x.state),
                    clone_opt_string(&x.city),
                    clone_opt_string(&x.line1),
                    clone_opt_string(&x.line2),
                    clone_opt_string(&x.zip),
                ),
                None => (None, None, None, None, None, None, None, None),
            };
            Some(UprimerpayShipping {
                company: None,
                first_name,
                last_name,
                phone_number: address_phone_number(a),
                country_code,
                state,
                city,
                street,
                street2,
                post_code,
            })
        },
    }
}

fn copy_billing(b: &UprimerpayBilling) -> (r: UprimerpayBilling)
    ensures
        r == *b,
{
    UprimerpayBilling {
        first_name: b.first_name.clone(),
        last_name: b.last_name.clone(),
        date_of_birth: clone_opt_string(&b.date_of_birth),
        phone_number: clone_opt_string(&b.phone_number),
        email: clone_opt_string(&b.email),
        country_code: clone_opt_string(&b.country_code),
        state: clone_opt_string(&b.state),
        city: clone_opt_string(&b.city),
        street: clone_opt_string(&b.street),
        post_code: clone_opt_string(&b.post_code),
    }
}

fn text_or(s: &Option<String>, default: &str) -> (r: String)
    ensures
        r@ == or_text(*s, default@),
{
    match s {
        Some(v) => v.clone(),
        None => String::from_str(default),
    }
}

/// The device data of a payment, when the browser reported its details.
/// This never fails.
pub fn get_device_data(browser_info: &Option<BrowserInformation>) -> (res: Result<Option<UprimerpayDeviceData>, ConnectorError>)
    ensures
        res matches Ok(d) && opt_device_data_matches(d, *browser_info),
{
    match browser_info {
        None => Ok(None),
        Some(b) => {
            let java = match b.java_enabled { Some(v) => v, None => false };
            let javascript = match b.java_script_enabled { Some(v) => v, None => true };
            let depth: u64 = match b.color_depth { Some(v) => v as u64, None => 24 };
            let height: u64 = match b.screen_height { Some(v) => v as u64, None => 1080 };
            let width: u64 = match b.screen_width { Some(v) => v as u64, None => 1920 };
            let zone: i64 = match b.time_zone { Some(v) => v as i64, None => 0 };
            Ok(Some(UprimerpayDeviceData {
                accept_header: text_or(&b.accept_header, "*/*"),
                browser_java_enabled: bool_to_string(java),
                browser_javascript_enabled: bool_to_string(javascript),
                browser_user_agent: text_or(&b.user_agent, "Hyperswitch"),
                challenge_window: String::from_str(DEFAULT_CHALLENGE_WINDOW),
                language: text_or(&b.language, "en-US"),
                screen_color_depth: u64_to_string(depth),
                screen_height: u64_to_string(height),
                screen_width: u64_to_string(width),
                timezone: i64_to_string(zone),
            }))
        },
    }
}

// ---------------------------------------------------------------------------
// The request time.

/// The format description of request times: UTC date and time, with the
/// offset written as the literal `+0000`.
pub const TIMESTAMP_FORMAT: &'static str = "[year]-[month]-[day]T[hour]:[minute]:[second]+0000";

/// `n` decimal digits from position `i` on.
pub open spec fn digits_at(s: Seq<char>, i: int, n: int) -> bool {
    forall|j: int| i <= j < i + n ==> is_digit(#[trigger] s[j])
}

/// Text of the form `YYYY-MM-DDTHH:MM:SS+0000`, the year possibly preceded
/// by `-`.
pub open spec fn is_timestamp(s: Seq<char>) -> bool {
    let k = s.len() - 20;
    &&& (s.len() == 24 && digits_at(s, 0, 4)) || (s.len() == 25 && s[0] == '-' && digits_at(s, 1, 4))
    &&& s[k] == '-'
    &&& digits_at(s, k + 1, 2)
    &&& s[k + 3] == '-'
    &&& digits_at(s, k + 4, 2)
    &&& s[k + 6] == 'T'
    &&& digits_at(s, k + 7, 2)
    &&& s[k + 9] == ':'
    &&& digits_at(s, k + 10, 2)
    &&& s[k + 12] == ':'
    &&& digits_at(s, k + 13, 2)
    &&& s.subrange(k + 15, s.len() as int) == "+0000"@
}

/// A present text of the form `is_timestamp` describes.
pub open spec fn is_some_timestamp(r: Option<String>) -> bool {
    r matches Some(s) && is_timestamp(s@)
}

/// `time::format_description::parse` of `description`, then
/// `time::OffsetDateTime::now_utc().format(..)` with it; `None` when either
/// fails. The text depends on the clock. For the request-time description,
/// which parses, and whose components an `OffsetDateTime` always has, the
/// formatting succeeds and gives the year (four zero-padded digits, `-`
/// before a negative year; this build has no years beyond 9999), then the
/// two-digit month, day, hour, minute and second with the literal
/// separators, then `+0000`.
#[verifier::external_body]
fn format_now_utc(description: &str) -> (r: Option<String>)
    ensures
        description@ == TIMESTAMP_FORMAT@ ==> is_some_timestamp(r),
{
    let format = time::format_description::parse(description).ok()?;
    time::OffsetDateTime::now_utc().format(&format).ok()
}

/// The current UTC time as the gateway expects it in requests,
/// `YYYY-MM-DDTHH:MM:SS+0000`.
pub fn get_uprimerpay_timestamp() -> (res: Result<String, ConnectorError>)
    ensures
        res matches Ok(s) && is_timestamp(s@),
{
    match format_now_utc(TIMESTAMP_FORMAT) {
        Some(t) => Ok(t),
        None => Err(ConnectorError::RequestEncodingFailed),
    }
}

// ---------------------------------------------------------------------------
// The payment request.

/// The checks a payment request makes, in order; the first that fails
/// decides the error.
#[derive(Clone, Copy, Debug, PartialEq, Eq, Structural)]
pub enum PaymentsRequestCheck {
    MissingAuth,
    MissingBillingFirstName,
    MissingBillingLastName,
    MissingReturnUrl,
    InvalidExpiryMonth,
    InvalidExpiryYear,
    TimestampFailed,
    Passed,
}

/// The first check a card payment request fails, given whether the request
/// time could be obtained.
pub open spec fn payments_request_check(rd: PaymentsAuthorizeRouterData, card: Card, time_ok: bool) -> PaymentsRequestCheck {
    if spec_auth(rd.connector_auth_type) is None {
        PaymentsRequestCheck::MissingAuth
    } else if billing_first_name(rd) is None {
        PaymentsRequestCheck::MissingBillingFirstName
    } else if billing_last_name(rd) is None {
        PaymentsRequestCheck::MissingBillingLastName
    } else if rd.request.router_return_url is None {
        PaymentsRequestCheck::MissingReturnUrl
    } else if two_digit_month(card.card_exp_month@) is None {
        PaymentsRequestCheck::InvalidExpiryMonth
    } else if two_digit_year(card.card_exp_year@) is None {
        PaymentsRequestCheck::InvalidExpiryYear
    } else if !time_ok {
        PaymentsRequestCheck::TimestampFailed
    } else {
        PaymentsRequestCheck::Passed
    }
}

/// The error each failed check raises (the request time's own error is
/// passed on unchanged).
pub open spec fn error_for_check(e: ConnectorError, c: PaymentsRequestCheck) -> bool {
    match c {
        PaymentsRequestCheck::MissingAuth => e is FailedToObtainAuthType,
        PaymentsRequestCheck::MissingBillingFirstName => e matches ConnectorError::MissingRequiredField { field_name }
            && field_name@ == "payment_method_data.billing.address.first_name"@,
        PaymentsRequestCheck::MissingBillingLastName => e matches ConnectorError::MissingRequiredField { field_name }
            && field_name@ == "payment_method_data.billing.address.last_name"@,
        PaymentsRequestCheck::MissingReturnUrl => e matches ConnectorError::MissingRequiredField { field_name }
            && field_name@ == "return_url"@,
        PaymentsRequestCheck::InvalidExpiryMonth => e matches ConnectorError::InvalidDataValue { field_name }
            && field_name@ == "payment_method_data.card.card_exp_month"@,
        PaymentsRequestCheck::InvalidExpiryYear => e is RequestEncodingFailed,
        PaymentsRequestCheck::TimestampFailed => true,
        PaymentsRequestCheck::Passed => false,
    }
}

/// The description of a payment: the merchant's, or `Payment`.
pub open spec fn payment_description(rd: PaymentsAuthorizeRouterData) -> Seq<char> {
    or_text(rd.description, "Payment"@)
}

/// The order id of a payment: the merchant's order reference, or the
/// connector request reference.
pub open spec fn merchant_order_id(rd: PaymentsAuthorizeRouterData) -> Seq<char> {
    or_text(rd.request.merchant_order_reference_id, rd.connector_request_reference_id@)
}

/// The statement descriptor the merchant asked for, if any.
pub open spec fn descriptor(rd: PaymentsAuthorizeRouterData) -> Option<Seq<char>> {
    match rd.request.billing_descriptor {
        Some(d) => opt_view(d.name),
        None => None,
    }
}

/// A card payment request for an amount, its flow data, a card and a
/// request time.
pub open spec fn payments_request_matches(
    r: UprimerpayPaymentsRequest,
    amount: i64,
    rd: PaymentsAuthorizeRouterData,
    card: Card,
    order_time: Seq<char>,
) -> bool {
    let request_id = rd.connector_request_reference_id@;
    let return_url = or_text(rd.request.router_return_url, Seq::empty());
    let pm = r.payment_method;
    &&& r.amount == amount
    &&& spec_auth(rd.connector_auth_type) matches Some((app_id, _, _)) && r.app_id@ == app_id
    &&& r.currency@ == rd.request.currency@
    &&& rd.request.router_return_url is Some
    &&& opt_view(r.descriptor) == descriptor(rd)
    &&& r.merchant_order_id@ == merchant_order_id(rd)
    &&& r.request_id@ == request_id
    &&& r.cancel_url@ == return_url
    &&& r.success_url@ == return_url
    &&& r.failure_url@ == return_url
    &&& opt_view(r.notification_url) == opt_view(rd.request.webhook_url)
    &&& r.order_time@ == order_time
    &&& pm.method_type == UprimerpayPaymentMethodType::Card
    &&& pm.card.number@ == card.card_number@
    &&& pm.card.cvv@ == card.card_cvc@
    &&& two_digit_month(card.card_exp_month@) == Some(pm.card.expiry_month@)
    &&& two_digit_year(card.card_exp_year@) == Some(vstd::utf8::encode_utf8(pm.card.expiry_year@))
    &&& pm.card.first_name@ == r.billing.first_name@
    &&& pm.card.last_name@ == r.billing.last_name@
    &&& billing_matches(pm.card.billing, rd)
    &&& billing_matches(r.billing, rd)
    &&& r.products@.len() == 1
    &&& r.products@[0].code@ == request_id
    &&& r.products@[0].name@ == payment_description(rd)
    &&& r.products@[0].quantity == 1
    &&& r.products@[0].sku@ == request_id
    &&& r.products@[0].unit_price == amount
    &&& r.products@[0].total_amount == amount
    &&& shipping_matches(r.shipping, rd)
    &&& opt_device_data_matches(r.device_data, rd.request.browser_info)
}

impl UprimerpayPaymentsRequest {
    /// Builds a card payment request from the flow data, the card and the
    /// request time (or the error that obtaining it gave).
    pub fn try_from_card(
        item: &UprimerpayRouterData<&PaymentsAuthorizeRouterData>,
        card: &Card,
        order_time: Result<String, ConnectorError>,
    ) -> (res: Result<UprimerpayPaymentsRequest, ConnectorError>)
        ensures
            ({
                let c = payments_request_check(*item.router_data, *card, order_time is Ok);
                &&& c == PaymentsRequestCheck::TimestampFailed ==> (order_time matches Err(e)
                    && res == Err::<UprimerpayPaymentsRequest, ConnectorError>(e))
                &&& c != PaymentsRequestCheck::TimestampFailed && c != PaymentsRequestCheck::Passed ==>
                    (res matches Err(e) && error_for_check(e, c))
                &&& c == PaymentsRequestCheck::Passed ==> (res matches Ok(r) && order_time matches Ok(t)
                    && payments_request_matches(r, item.amount, *item.router_data, *card, t@))
            }),
    {
        let router_data = item.router_data;
        let auth = UprimerpayAuthType::try_from(&router_data.connector_auth_type)?;
        let billing = get_billing(router_data)?;
        let return_url = match &router_data.request.router_return_url {
            Some(u) => u.clone(),
            None => return Err(ConnectorError::MissingRequiredField { field_name: String::from_str("return_url") }),
        };
        let merchant_order_id = match &router_data.request.merchant_order_reference_id {
            Some(m) => m.clone(),
            None => router_data.connector_request_reference_id.clone(),
        };
        let request_id = router_data.connector_request_reference_id.clone();
        let description = match &router_data.description {
            Some(d) => d.clone(),
            None => String::from_str("Payment"),
        };
        let expiry_month = card.get_card_expiry_month_2_digit()?;
        let expiry_year = card.get_card_expiry_year_2_digit()?;
        let payment_method = UprimerpayPaymentMethod {
            method_type: UprimerpayPaymentMethodType::Card,
            card: UprimerpayCard {
                number: card.card_number.clone(),
                cvv: card.card_cvc.clone(),
                expiry_month,
                expiry_year,
                first_name: billing.first_name.clone(),
                last_name: billing.last_name.clone(),
                billing: copy_billing(&billing),
            },
        };
        let descriptor = match &router_data.request.billing_descriptor {
            Some(d) => clone_opt_string(&d.name),
            None => None,
        };
        let order_time = match order_time {
            Ok(t) => t,
            Err(e) => return Err(e),
        };
        let device_data = get_device_data(&router_data.request.browser_info)?;
        let product = UprimerpayProduct {
            code: request_id.clone(),
            name: description,
            quantity: 1,
            sku: request_id.clone(),
            unit_price: item.amount,
            total_amount: item.amount,
        };
        Ok(UprimerpayPaymentsRequest {
            amount: item.amount,
            app_id: auth.app_id,
            currency: router_data.request.currency.clone(),
            descriptor,
            merchant_order_id,
            request_id,
            cancel_url: return_url.clone(),
            success_url: return_url.clone(),
            failure_url: return_url,
            notification_url: clone_opt_string(&router_data.request.webhook_url),
            order_time,
            payment_method,
            billing,
            products: vec![product],
            shipping: get_shipping(router_data),
            device_data,
        })
    }
}

impl UprimerpayPaymentsRequest {
    /// Builds the payment request of an authorization: card payments are
    /// built with the current time as order time; every other payment
    /// method is refused as not implemented.
    pub fn try_from(item: &UprimerpayRouterData<&PaymentsAuthorizeRouterData>) -> (res: Result<UprimerpayPaymentsRequest, ConnectorError>)
        ensures
            match item.router_data.request.payment_method_data {
                PaymentMethodData::Card(card) => {
                    let c = payments_request_check(*item.router_data, card, true);
                    &&& c != PaymentsRequestCheck::Passed ==> (res matches Err(e) && error_for_check(e, c))
                    &&& c == PaymentsRequestCheck::Passed ==> (
                        res matches Ok(r) && payments_request_matches(r, item.amount, *item.router_data, card, r.order_time@)
                            && is_timestamp(r.order_time@))
                },
                _ => res matches Err(ConnectorError::NotImplemented(m)) && m@ == "Selected payment method through Uprimerpay"@,
            },
    {
        match &item.router_data.request.payment_method_data {
            PaymentMethodData::Card(card) => {
                let order_time = get_uprimerpay_timestamp();
                Self::try_from_card(item, card, order_time)
            },
            _ => Err(ConnectorError::NotImplemented(String::from_str("Selected payment method through Uprimerpay"))),
        }
    }
}

// ---------------------------------------------------------------------------
// The refund request.

/// A refund request for an amount, its flow data and a request time: the
/// refund id serves as both request id and merchant order id.
pub open spec fn refund_request_matches(r: UprimerpayRefundRequest, amount: i64, rd: RefundsRouterData, refund_time: Seq<char>) -> bool {
    &&& r.request_id@ == rd.request.refund_id@
    &&& spec_auth(rd.connector_auth_type) matches Some((app_id, _, _)) && r.app_id@ == app_id
    &&& r.merchant_order_id@ == rd.request.refund_id@
    &&& r.amount == amount
    &&& r.currency@ == rd.request.currency@
    &&& opt_view(r.refund_reason) == opt_view(rd.request.reason)
    &&& r.refund_time@ == refund_time
    &&& opt_view(r.notification_url) == opt_view(rd.request.webhook_url)
}

impl UprimerpayRefundRequest {
    /// Builds a refund request from the flow data and the request time (or
    /// the error that obtaining it gave).
    pub fn try_from_with_time(
        item: &UprimerpayRouterData<&RefundsRouterData>,
        refund_time: Result<String, ConnectorError>,
    ) -> (res: Result<UprimerpayRefundRequest, ConnectorError>)
        ensures
            spec_auth(item.router_data.connector_auth_type) is None ==> res matches Err(ConnectorError::FailedToObtainAuthType),
            spec_auth(item.router_data.connector_auth_type) is Some ==> match refund_time {
                Ok(t) => res matches Ok(r) && refund_request_matches(r, item.amount, *item.router_data, t@),
                Err(e) => res == Err::<UprimerpayRefundRequest, ConnectorError>(e),
            },
    {
        let rd = item.router_data;
        let auth = UprimerpayAuthType::try_from(&rd.connector_auth_type)?;
        let refund_time = match refund_time {
            Ok(t) => t,
            Err(e) => return Err(e),
        };
        Ok(UprimerpayRefundRequest {
            request_id: rd.request.refund_id.clone(),
            app_id: auth.app_id,
            merchant_order_id: rd.request.refund_id.clone(),
            amount: item.amount,
            currency: rd.request.currency.clone(),
            refund_reason: clone_opt_string(&rd.request.reason),
            refund_time,
            notification_url: clone_opt_string(&rd.request.webhook_url),
        })
    }

    /// Builds a refund request with the current time as refund time.
    pub fn try_from(item: &UprimerpayRouterData<&RefundsRouterData>) -> (res: Result<UprimerpayRefundRequest, ConnectorError>)
        ensures
            spec_auth(item.router_data.connector_auth_type) is None ==> res matches Err(ConnectorError::FailedToObtainAuthType),
            spec_auth(item.router_data.connector_auth_type) is Some ==> (
                res matches Ok(r) && refund_request_matches(r, item.amount, *item.router_data, r.refund_time@)
                    && is_timestamp(r.refund_time@)),
    {
        let refund_time = get_uprimerpay_timestamp();
        Self::try_from_with_time(item, refund_time)
    }
}

} // verus!
