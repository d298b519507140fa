//! What the connector declares about itself: its description, the payment
//! methods it supports and the webhook flows it handles.
use vstd::prelude::*;
use crate::connector::Uprimerpay;
use crate::router_data::CaptureMethod;

verus! {

#[derive(Clone, Copy, Debug, PartialEq, Eq, Structural)]
pub enum PaymentMethod {
    Card,
    Wallet,
}

#[derive(Clone, Copy, Debug, PartialEq, Eq, Structural)]
pub enum PaymentMethodType {
    Credit,
    Debit,
    AliPay,
    AliPayHk,
    WeChatPay,
}

#[derive(Clone, Copy, Debug, PartialEq, Eq, Structural)]
pub enum FeatureStatus {
    Supported,
    NotSupported,
}

#[derive(Clone, Copy, Debug, PartialEq, Eq, Structural)]
pub enum CardNetwork {
    Mastercard,
    Visa,
}

/// Card features of a payment method.
#[derive(Clone, Debug)]
pub struct CardSpecificFeatures {
    pub three_ds: FeatureStatus,
    pub no_three_ds: FeatureStatus,
    pub supported_card_networks: Vec<CardNetwork>,
}

#[derive(Clone, Debug)]
pub enum PaymentMethodSpecificFeatures {
    Card(CardSpecificFeatures),
}

/// What the connector supports for one payment method type.
#[derive(Clone, Debug)]
pub struct PaymentMethodDetails {
    pub mandates: FeatureStatus,
    pub refunds: FeatureStatus,
    pub supported_capture_methods: Vec<CaptureMethod>,
    pub specific_features: Option<PaymentMethodSpecificFeatures>,
}

/// The supported payment method types with their details, in the order
/// they were added; each pair of method and type occurs once.
#[derive(Clone, Debug)]
pub struct SupportedPaymentMethods {
    pub entries: Vec<(PaymentMethod, PaymentMethodType, PaymentMethodDetails)>,
}

#[derive(Clone, Copy, Debug, PartialEq, Eq, Structural)]
pub enum HyperswitchConnectorCategory {
    PaymentGateway,
}

#[derive(Clone, Copy, Debug, PartialEq, Eq, Structural)]
pub enum ConnectorIntegrationStatus {
    Sandbox,
}

/// The connector's public description.
#[derive(Clone, Debug)]
pub struct ConnectorInfo {
    pub display_name: &'static str,
    pub description: &'static str,
    pub connector_type: HyperswitchConnectorCategory,
    pub integration_status: ConnectorIntegrationStatus,
}

/// The kinds of webhook flows.
#[derive(Clone, Copy, Debug, PartialEq, Eq, Structural)]
pub enum EventClass {
    Payments,
    Refunds,
}

pub const DISPLAY_NAME: &'static str = "UprimerPay";
pub const DESCRIPTION: &'static str = "UprimerPay provides acquiring, card, and wallet payment processing APIs.";

/// The capture methods every supported payment method type allows.
pub open spec fn supported_capture_methods() -> Seq<CaptureMethod> {
    seq![CaptureMethod::Automatic, CaptureMethod::SequentialAutomatic]
}

/// The payment method types supported, in order.
pub open spec fn supported_types() -> Seq<(PaymentMethod, PaymentMethodType)> {
    seq![
        (PaymentMethod::Card, PaymentMethodType::Credit),
        (PaymentMethod::Card, PaymentMethodType::Debit),
        (PaymentMethod::Wallet, PaymentMethodType::AliPay),
        (PaymentMethod::Wallet, PaymentMethodType::AliPayHk),
        (PaymentMethod::Wallet, PaymentMethodType::WeChatPay),
    ]
}

/// The details every supported type has: no mandates, refunds, the two
/// automatic capture methods, and for cards 3-D Secure with and without
/// challenge on Mastercard and Visa.
pub open spec fn details_match(pm: PaymentMethod, d: PaymentMethodDetails) -> bool {
    &&& d.mandates == FeatureStatus::NotSupported
    &&& d.refunds == FeatureStatus::Supported
    &&& d.supported_capture_methods@ == supported_capture_methods()
    &&& match pm {
        PaymentMethod::Card => d.specific_features matches Some(PaymentMethodSpecificFeatures::Card(f))
            && f.three_ds == FeatureStatus::Supported && f.no_three_ds == FeatureStatus::Supported
            && f.supported_card_networks@ == seq![CardNetwork::Mastercard, CardNetwork::Visa],
        PaymentMethod::Wallet => d.specific_features is None,
    }
}

fn details_for(pm: PaymentMethod) -> (d: PaymentMethodDetails)
    ensures
        details_match(pm, d),
{
    let specific_features = match pm {
        PaymentMethod::Card => Some(PaymentMethodSpecificFeatures::Card(CardSpecificFeatures {
            three_ds: FeatureStatus::Supported,
            no_three_ds: FeatureStatus::Supported,
            supported_card_networks: vec![CardNetwork::Mastercard, CardNetwork::Visa],
        })),
        PaymentMethod::Wallet => None,
    };
    PaymentMethodDetails {
        mandates: FeatureStatus::NotSupported,
        refunds: FeatureStatus::Supported,
        supported_capture_methods: vec![CaptureMethod::Automatic, CaptureMethod::SequentialAutomatic],
        specific_features,
    }
}

impl Uprimerpay {
    /// The connector's public description.
    pub fn get_connector_about(&self) -> (r: Option<ConnectorInfo>)
        ensures
            r matches Some(i) && i.display_name@ == DISPLAY_NAME@ && i.description@ == DESCRIPTION@
                && i.connector_type == HyperswitchConnectorCategory::PaymentGateway
                && i.integration_status == ConnectorIntegrationStatus::Sandbox,
    {
        Some(ConnectorInfo {
            display_name: DISPLAY_NAME,
            description: DESCRIPTION,
            connector_type: HyperswitchConnectorCategory::PaymentGateway,
            integration_status: ConnectorIntegrationStatus::Sandbox,
        })
    }

    /// Credit and debit cards, and the AliPay, AliPayHK and WeChat Pay
    /// wallets.
    pub fn get_supported_payment_methods(&self) -> (r: Option<SupportedPaymentMethods>)
        ensures
            r matches Some(s) && s.entries@.len() == supported_types().len()
                && forall|i: int| 0 <= i < s.entries@.len() ==> {
                    let e = #[trigger] s.entries@[i];
                    &&& (e.0, e.1) == supported_types()[i]
                    &&& details_match(e.0, e.2)
                },
    {
        let mut entries: Vec<(PaymentMethod, PaymentMethodType, PaymentMethodDetails)> = Vec::new();
        entries.push((PaymentMethod::Card, PaymentMethodType::Credit, details_for(PaymentMethod::Card)));
        entries.push((PaymentMethod::Card, PaymentMethodType::Debit, details_for(PaymentMethod::Card)));
        entries.push((PaymentMethod::Wallet, PaymentMethodType::AliPay, details_for(PaymentMethod::Wallet)));
        entries.push((PaymentMethod::Wallet, PaymentMethodType::AliPayHk, details_for(PaymentMethod::Wallet)));
        entries.push((PaymentMethod::Wallet, PaymentMethodType::WeChatPay, details_for(PaymentMethod::Wallet)));
        Some(SupportedPaymentMethods { entries })
    }

    /// Payment and refund webhooks are handled.
    pub fn get_supported_webhook_flows(&self) -> (r: Option<Vec<EventClass>>)
        ensures
            r matches Some(v) && v@ == seq![EventClass::Payments, EventClass::Refunds],
    {
        Some(vec![EventClass::Payments, EventClass::Refunds])
    }
}

} // verus!
