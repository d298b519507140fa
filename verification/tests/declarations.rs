use uprimerpay::connector::{CurrencyUnit, Uprimerpay};
use uprimerpay::router_data::{CaptureMethod, ConnectorParams, Connectors};
use uprimerpay::specifications::{
    CardNetwork, EventClass, FeatureStatus, PaymentMethod, PaymentMethodSpecificFeatures, PaymentMethodType,
};

#[test]
fn connector_identity() {
    let c = Uprimerpay::new();
    assert_eq!(c.id(), "uprimerpay");
    assert_eq!(c.common_get_content_type(), "application/json");
    assert_eq!(c.get_currency_unit(), CurrencyUnit::Minor);
    let conns = Connectors { uprimerpay: ConnectorParams { base_url: "https://b/".to_string() } };
    assert_eq!(c.base_url(&conns), "https://b/");
    let about = c.get_connector_about().unwrap();
    assert_eq!(about.display_name, "UprimerPay");
}

#[test]
fn supported_payment_methods_declared() {
    let s = Uprimerpay::new().get_supported_payment_methods().unwrap();
    let kinds: Vec<(PaymentMethod, PaymentMethodType)> = s.entries.iter().map(|e| (e.0, e.1)).collect();
    assert_eq!(
        kinds,
        vec![
            (PaymentMethod::Card, PaymentMethodType::Credit),
            (PaymentMethod::Card, PaymentMethodType::Debit),
            (PaymentMethod::Wallet, PaymentMethodType::AliPay),
            (PaymentMethod::Wallet, PaymentMethodType::AliPayHk),
            (PaymentMethod::Wallet, PaymentMethodType::WeChatPay),
        ]
    );
    for e in &s.entries {
        assert_eq!(e.2.mandates, FeatureStatus::NotSupported);
        assert_eq!(e.2.refunds, FeatureStatus::Supported);
        assert_eq!(e.2.supported_capture_methods, vec![CaptureMethod::Automatic, CaptureMethod::SequentialAutomatic]);
        match (&e.0, &e.2.specific_features) {
            (PaymentMethod::Card, Some(PaymentMethodSpecificFeatures::Card(f))) => {
                assert_eq!(f.supported_card_networks, vec![CardNetwork::Mastercard, CardNetwork::Visa]);
            }
            (PaymentMethod::Wallet, None) => {}
            _ => panic!("unexpected features"),
        }
    }
}

#[test]
fn declared_capture_methods_are_accepted() {
    let c = Uprimerpay::new();
    let s = c.get_supported_payment_methods().unwrap();
    for e in &s.entries {
        for m in &e.2.supported_capture_methods {
            assert!(c.validate_connector_against_payment_request(Some(*m)).is_ok());
        }
    }
}

#[test]
fn webhook_flows_declared() {
    assert_eq!(Uprimerpay::new().get_supported_webhook_flows().unwrap(), vec![EventClass::Payments, EventClass::Refunds]);
}
