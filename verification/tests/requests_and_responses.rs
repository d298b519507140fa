use uprimerpay::auth::{ConnectorAuthType, UprimerpayAuthType};
use uprimerpay::card::parse_u8_decimal;
use uprimerpay::connector::{Maskable, Uprimerpay};
use uprimerpay::error_response::{escape_ascii_to_string, UprimerpayErrorResponse};
use uprimerpay::errors::ConnectorError;
use uprimerpay::requests::{
    get_billing, get_device_data, get_shipping, UprimerpayPaymentMethodType, UprimerpayPaymentsRequest,
    UprimerpayRefundRequest, UprimerpayRouterData,
};
use uprimerpay::responses::{
    access_token_from_response, get_redirection_data, payments_authorize_from_response,
    payments_sync_from_response, refund_execute_from_response, PaymentsResponseData, RedirectForm,
    UprimerpayAccessTokenData, UprimerpayAccessTokenResponse, UprimerpayNextAction,
    UprimerpayNextActionType, UprimerpayPaymentData, UprimerpayPaymentsResponse, UprimerpayRefundData,
    UprimerpayRefundResponse,
};
use uprimerpay::router_data::{
    AccessToken, Address, AddressDetails, BillingDescriptor, BrowserInformation, CaptureMethod, Card,
    ConnectorParams, Connectors, Method, PaymentAddress, PaymentMethodData, PaymentsAuthorizeData,
    PaymentsAuthorizeRouterData, PaymentsSyncData, PaymentsSyncRouterData, RefreshTokenRouterData,
    RefundsData, RefundsRouterData, ResponseId, SyncRequestType,
};
use uprimerpay::status::{AttemptStatus, RefundStatus, UprimerpayPaymentStatus};
use uprimerpay::text::{i64_to_string, u64_to_string};

fn auth() -> ConnectorAuthType {
    ConnectorAuthType::SignatureKey {
        api_key: "app-1".to_string(),
        key1: "code-1".to_string(),
        api_secret: "sk_test".to_string(),
    }
}

fn card() -> Card {
    Card {
        card_number: "4111111111111111".to_string(),
        card_exp_month: "3".to_string(),
        card_exp_year: "2030".to_string(),
        card_cvc: "123".to_string(),
        card_holder_name: None,
    }
}

fn billing_address() -> Address {
    Address {
        address: Some(AddressDetails {
            city: Some("San Francisco".to_string()),
            country: Some("US".to_string()),
            line1: Some("123 Main Street".to_string()),
            line2: None,
            line3: None,
            zip: Some("94105".to_string()),
            state: Some("CA".to_string()),
            first_name: Some("John".to_string()),
            last_name: Some("Doe".to_string()),
        }),
        phone: Some(uprimerpay::router_data::PhoneDetails {
            number: Some("4155550100".to_string()),
            country_code: Some("+1".to_string()),
        }),
        email: None,
    }
}

fn authorize_data() -> PaymentsAuthorizeRouterData {
    PaymentsAuthorizeRouterData {
        connector_auth_type: auth(),
        connector_request_reference_id: "ref_1".to_string(),
        description: None,
        address: PaymentAddress { shipping: None, payment_method_billing: Some(billing_address()) },
        access_token: Some(AccessToken { token: "tok".to_string(), expires: 3600 }),
        request: PaymentsAuthorizeData {
            minor_amount: 1099,
            currency: "USD".to_string(),
            payment_method_data: PaymentMethodData::Card(card()),
            capture_method: Some(CaptureMethod::Automatic),
            merchant_order_reference_id: None,
            billing_descriptor: Some(BillingDescriptor { name: Some("SHOP".to_string()) }),
            router_return_url: Some("https://example.com/return".to_string()),
            webhook_url: Some("https://example.com/webhook".to_string()),
            email: Some("john.doe@example.com".to_string()),
            browser_info: None,
        },
    }
}

fn connectors() -> Connectors {
    Connectors { uprimerpay: ConnectorParams { base_url: "https://api.uprimer.test/".to_string() } }
}

fn refund_data() -> RefundsRouterData {
    RefundsRouterData {
        connector_auth_type: auth(),
        access_token: Some(AccessToken { token: "tok".to_string(), expires: 3600 }),
        request: RefundsData {
            refund_id: "rf_1".to_string(),
            connector_transaction_id: "txn_9".to_string(),
            connector_refund_id: Some("crf_3".to_string()),
            currency: "USD".to_string(),
            minor_refund_amount: 500,
            reason: Some("customer".to_string()),
            webhook_url: None,
        },
    }
}

fn payment_data(status: UprimerpayPaymentStatus) -> UprimerpayPaymentData {
    UprimerpayPaymentData {
        request_id: Some("ref_1".to_string()),
        merchant_order_id: None,
        id: "txn_9".to_string(),
        status,
        error_code: None,
        error_message: None,
        next_action: None,
    }
}

#[test]
fn auth_type_from_signature_key() {
    let a = UprimerpayAuthType::try_from(&auth()).unwrap();
    assert_eq!(a.app_id, "app-1");
    assert_eq!(a.access_code, "code-1");
    assert_eq!(a.secret_key, "sk_test");
    let r = UprimerpayAuthType::try_from(&ConnectorAuthType::BodyKey { api_key: "a".into(), key1: "b".into() });
    assert!(matches!(r, Err(ConnectorError::FailedToObtainAuthType)));
}

#[test]
fn request_signature_is_md5_hex_of_body_and_secret() {
    let sig = Uprimerpay::new().get_signature(&auth(), "{\"amount\":100}").unwrap();
    assert_eq!(sig, "6b68a28adf480475ba4bc5b4c93b84c5");
}

#[test]
fn headers_with_bearer_token() {
    let c = Uprimerpay::new();
    let token = Some(AccessToken { token: "abc".to_string(), expires: 10 });
    let h = c.build_uprimerpay_headers(&auth(), &token, true).unwrap();
    assert_eq!(h.len(), 4);
    assert_eq!(h[0].0, "Content-Type");
    assert!(matches!(h[0].1, Maskable::Normal(ref v) if v == "application/json"));
    assert_eq!(h[1].0, "X-AccessCode");
    assert!(matches!(h[1].1, Maskable::Masked(ref v) if v == "code-1"));
    assert_eq!(h[2].0, "X-SecretKey");
    assert!(matches!(h[2].1, Maskable::Masked(ref v) if v == "sk_test"));
    assert_eq!(h[3].0, "Authorization");
    assert!(matches!(h[3].1, Maskable::Masked(ref v) if v == "Bearer abc"));
    let h = c.build_uprimerpay_headers(&auth(), &None, false).unwrap();
    assert_eq!(h.len(), 3);
    assert!(matches!(c.build_uprimerpay_headers(&auth(), &None, true), Err(ConnectorError::FailedToObtainAuthType)));
    let h = c.get_auth_header(&auth()).unwrap();
    assert_eq!(h.len(), 2);
    assert_eq!(h[0].0, "X-AccessCode");
}

#[test]
fn signed_request_carries_signature() {
    let c = Uprimerpay::new();
    let token = Some(AccessToken { token: "abc".to_string(), expires: 10 });
    let r = c
        .build_signed_request(&auth(), &token, "https://x/".to_string(), "{\"amount\":100}".to_string())
        .unwrap()
        .unwrap();
    assert_eq!(r.method, Method::Post);
    assert_eq!(r.url, "https://x/");
    assert_eq!(r.headers.len(), 5);
    assert_eq!(r.headers[4].0, "X-Signature");
    assert!(matches!(r.headers[4].1, Maskable::Masked(ref v) if v == "6b68a28adf480475ba4bc5b4c93b84c5"));
    assert_eq!(r.body.as_deref(), Some("{\"amount\":100}"));
}

#[test]
fn urls_of_each_call() {
    let c = Uprimerpay::new();
    assert_eq!(c.get_access_token_url(&connectors()), "https://api.uprimer.test/authorize");
    assert_eq!(c.get_authorize_url(&connectors()), "https://api.uprimer.test/api/acquire/payment/create");
    assert_eq!(c.get_refund_url(&refund_data(), &connectors()), "https://api.uprimer.test/api/acquire/payment/txn_9/refund");
    assert_eq!(c.get_rsync_url(&refund_data(), &connectors()).unwrap(), "https://api.uprimer.test/api/acquire/payment/crf_3/get");
    let sync = PaymentsSyncRouterData {
        connector_auth_type: auth(),
        access_token: None,
        request: PaymentsSyncData {
            connector_transaction_id: ResponseId::ConnectorTransactionId("txn_9".to_string()),
            sync_type: SyncRequestType::SinglePaymentSync,
        },
    };
    assert_eq!(c.get_psync_url(&sync, &connectors()).unwrap(), "https://api.uprimer.test/api/acquire/payment/txn_9/get");
    let mut no_id = sync.clone();
    no_id.request.connector_transaction_id = ResponseId::NoResponseId;
    assert!(matches!(c.get_psync_url(&no_id, &connectors()), Err(ConnectorError::MissingConnectorTransactionID)));
    let mut no_refund_id = refund_data();
    no_refund_id.request.connector_refund_id = None;
    assert!(matches!(c.get_rsync_url(&no_refund_id, &connectors()), Err(ConnectorError::MissingConnectorTransactionID)));
}

#[test]
fn access_token_request_has_no_bearer() {
    let c = Uprimerpay::new();
    let r = c
        .build_access_token_request(&RefreshTokenRouterData { connector_auth_type: auth() }, &connectors())
        .unwrap()
        .unwrap();
    assert_eq!(r.method, Method::Get);
    assert_eq!(r.headers.len(), 3);
    assert!(r.body.is_none());
}

#[test]
fn capture_method_validation() {
    let c = Uprimerpay::new();
    assert!(c.validate_connector_against_payment_request(None).is_ok());
    assert!(c.validate_connector_against_payment_request(Some(CaptureMethod::Automatic)).is_ok());
    assert!(c.validate_connector_against_payment_request(Some(CaptureMethod::SequentialAutomatic)).is_ok());
    let r = c.validate_connector_against_payment_request(Some(CaptureMethod::ManualMultiple));
    assert!(matches!(r, Err(ConnectorError::NotSupported { ref message, ref connector })
        if message == "manual_multiple" && connector == "uprimerpay"));
    assert!(c.validate_connector_against_payment_request(Some(CaptureMethod::Manual)).is_err());
    assert!(c.validate_connector_against_payment_request(Some(CaptureMethod::Scheduled)).is_err());
    assert!(c.validate_psync_reference_id().is_ok());
}

#[test]
fn payments_request_from_card() {
    let rd = authorize_data();
    let item = UprimerpayRouterData::from((1099, &rd));
    let r = UprimerpayPaymentsRequest::try_from_card(&item, &card(), Ok("2026-05-07T10:30:00+0000".to_string())).unwrap();
    assert_eq!(r.amount, 1099);
    assert_eq!(r.app_id, "app-1");
    assert_eq!(r.currency, "USD");
    assert_eq!(r.descriptor.as_deref(), Some("SHOP"));
    assert_eq!(r.merchant_order_id, "ref_1");
    assert_eq!(r.request_id, "ref_1");
    assert_eq!(r.cancel_url, "https://example.com/return");
    assert_eq!(r.success_url, "https://example.com/return");
    assert_eq!(r.failure_url, "https://example.com/return");
    assert_eq!(r.notification_url.as_deref(), Some("https://example.com/webhook"));
    assert_eq!(r.order_time, "2026-05-07T10:30:00+0000");
    assert_eq!(r.payment_method.method_type, UprimerpayPaymentMethodType::Card);
    assert_eq!(r.payment_method.card.number, "4111111111111111");
    assert_eq!(r.payment_method.card.expiry_month, "03");
    assert_eq!(r.payment_method.card.expiry_year, "30");
    assert_eq!(r.payment_method.card.first_name, "John");
    assert_eq!(r.payment_method.card.last_name, "Doe");
    assert_eq!(r.billing.email.as_deref(), Some("john.doe@example.com"));
    assert_eq!(r.billing.phone_number.as_deref(), Some("4155550100"));
    assert_eq!(r.billing.street.as_deref(), Some("123 Main Street"));
    assert_eq!(r.products.len(), 1);
    assert_eq!(r.products[0].name, "Payment");
    assert_eq!(r.products[0].code, "ref_1");
    assert_eq!(r.products[0].sku, "ref_1");
    assert_eq!(r.products[0].quantity, 1);
    assert_eq!(r.products[0].unit_price, 1099);
    assert_eq!(r.products[0].total_amount, 1099);
    assert!(r.shipping.is_none());
    assert!(r.device_data.is_none());
}

#[test]
fn payments_request_errors_in_order() {
    let mut rd = authorize_data();
    rd.request.router_return_url = None;
    let item = UprimerpayRouterData::from((1099, &rd));
    let r = UprimerpayPaymentsRequest::try_from_card(&item, &card(), Ok("t".to_string()));
    assert!(matches!(r, Err(ConnectorError::MissingRequiredField { ref field_name }) if field_name == "return_url"));

    let mut rd = authorize_data();
    rd.address.payment_method_billing = None;
    let item = UprimerpayRouterData::from((1099, &rd));
    let r = UprimerpayPaymentsRequest::try_from_card(&item, &card(), Ok("t".to_string()));
    assert!(matches!(r, Err(ConnectorError::MissingRequiredField { ref field_name })
        if field_name == "payment_method_data.billing.address.first_name"));

    let rd = authorize_data();
    let item = UprimerpayRouterData::from((1099, &rd));
    let mut bad = card();
    bad.card_exp_month = "13".to_string();
    let r = UprimerpayPaymentsRequest::try_from_card(&item, &bad, Ok("t".to_string()));
    assert!(matches!(r, Err(ConnectorError::InvalidDataValue { ref field_name })
        if field_name == "payment_method_data.card.card_exp_month"));

    let r = UprimerpayPaymentsRequest::try_from_card(&item, &card(), Err(ConnectorError::RequestEncodingFailed));
    assert!(matches!(r, Err(ConnectorError::RequestEncodingFailed)));

    let mut rd = authorize_data();
    rd.connector_auth_type = ConnectorAuthType::NoKey;
    let item = UprimerpayRouterData::from((1099, &rd));
    let r = UprimerpayPaymentsRequest::try_from_card(&item, &card(), Ok("t".to_string()));
    assert!(matches!(r, Err(ConnectorError::FailedToObtainAuthType)));
}

#[test]
fn payments_request_refuses_non_card() {
    let mut rd = authorize_data();
    rd.request.payment_method_data = PaymentMethodData::Wallet;
    let item = UprimerpayRouterData::from((1099, &rd));
    let r = UprimerpayPaymentsRequest::try_from(&item);
    assert!(matches!(r, Err(ConnectorError::NotImplemented(ref m)) if m == "Selected payment method through Uprimerpay"));
}

#[test]
fn payments_request_with_current_time() {
    let rd = authorize_data();
    let r = Uprimerpay::new().get_authorize_request_body(&rd).unwrap();
    assert!(r.order_time.ends_with("+0000"));
    assert_eq!(r.order_time.len(), 24);
    let t: Vec<char> = r.order_time.chars().collect();
    assert_eq!((t[4], t[7], t[10], t[13], t[16]), ('-', '-', 'T', ':', ':'));
    assert!(uprimerpay::requests::get_uprimerpay_timestamp().is_ok());
    assert_eq!(r.amount, 1099);
}

#[test]
fn billing_falls_back_to_customer_email_and_requires_last_name() {
    let rd = authorize_data();
    let b = get_billing(&rd).unwrap();
    assert_eq!(b.email.as_deref(), Some("john.doe@example.com"));
    assert!(b.date_of_birth.is_none());
    let mut rd2 = authorize_data();
    if let Some(a) = rd2.address.payment_method_billing.as_mut() {
        a.email = Some("billing@example.com".to_string());
        a.address.as_mut().unwrap().last_name = None;
    }
    let r = get_billing(&rd2);
    assert!(matches!(r, Err(ConnectorError::MissingRequiredField { ref field_name })
        if field_name == "payment_method_data.billing.address.last_name"));
}

#[test]
fn shipping_present_only_with_shipping_address() {
    let mut rd = authorize_data();
    assert!(get_shipping(&rd).is_none());
    rd.address.shipping = Some(Address {
        address: Some(AddressDetails {
            city: Some("Oakland".to_string()),
            country: None,
            line1: Some("1 Dock".to_string()),
            line2: Some("Unit 2".to_string()),
            line3: None,
            zip: None,
            state: None,
            first_name: Some("Ann".to_string()),
            last_name: None,
        }),
        phone: None,
        email: None,
    });
    let s = get_shipping(&rd).unwrap();
    assert!(s.company.is_none());
    assert_eq!(s.first_name.as_deref(), Some("Ann"));
    assert_eq!(s.street2.as_deref(), Some("Unit 2"));
    assert_eq!(s.city.as_deref(), Some("Oakland"));
    assert!(s.phone_number.is_none());
}

#[test]
fn device_data_defaults() {
    let b = BrowserInformation {
        color_depth: None,
        java_enabled: None,
        java_script_enabled: None,
        language: None,
        screen_height: None,
        screen_width: None,
        time_zone: None,
        accept_header: None,
        user_agent: None,
    };
    let d = get_device_data(&Some(b)).unwrap().unwrap();
    assert_eq!(d.accept_header, "*/*");
    assert_eq!(d.browser_java_enabled, "false");
    assert_eq!(d.browser_javascript_enabled, "true");
    assert_eq!(d.browser_user_agent, "Hyperswitch");
    assert_eq!(d.challenge_window, "05");
    assert_eq!(d.language, "en-US");
    assert_eq!(d.screen_color_depth, "24");
    assert_eq!(d.screen_height, "1080");
    assert_eq!(d.screen_width, "1920");
    assert_eq!(d.timezone, "0");
    assert!(get_device_data(&None).unwrap().is_none());
}

#[test]
fn device_data_from_browser() {
    let b = BrowserInformation {
        color_depth: Some(32),
        java_enabled: Some(true),
        java_script_enabled: Some(false),
        language: Some("fr-FR".to_string()),
        screen_height: Some(768),
        screen_width: Some(1366),
        time_zone: Some(-330),
        accept_header: Some("text/html".to_string()),
        user_agent: Some("Mozilla/5.0".to_string()),
    };
    let d = get_device_data(&Some(b)).unwrap().unwrap();
    assert_eq!(d.browser_java_enabled, "true");
    assert_eq!(d.browser_javascript_enabled, "false");
    assert_eq!(d.screen_color_depth, "32");
    assert_eq!(d.screen_height, "768");
    assert_eq!(d.screen_width, "1366");
    assert_eq!(d.timezone, "-330");
    assert_eq!(d.language, "fr-FR");
}

#[test]
fn expiry_dates_in_two_digits() {
    let mut c = card();
    for (m, want) in [("3", "03"), ("03", "03"), ("+12", "12"), ("0011", "11")] {
        c.card_exp_month = m.to_string();
        assert_eq!(c.get_card_expiry_month_2_digit().unwrap(), want);
    }
    for m in ["0", "13", "", "+", "-1", "ab", "256", "1 "] {
        c.card_exp_month = m.to_string();
        assert!(matches!(c.get_card_expiry_month_2_digit(), Err(ConnectorError::InvalidDataValue { .. })));
    }
    c.card_exp_year = "2031".to_string();
    assert_eq!(c.get_card_expiry_year_2_digit().unwrap(), "31");
    c.card_exp_year = "7".to_string();
    assert!(matches!(c.get_card_expiry_year_2_digit(), Err(ConnectorError::RequestEncodingFailed)));
    c.card_exp_year = "20\u{e9}".to_string();
    assert_eq!(c.get_card_expiry_year_2_digit().unwrap(), "\u{e9}");
    c.card_exp_year = "2\u{20ac}".to_string();
    assert!(matches!(c.get_card_expiry_year_2_digit(), Err(ConnectorError::RequestEncodingFailed)));
    assert_eq!(parse_u8_decimal("255"), Some(255));
    assert_eq!(parse_u8_decimal("256"), None);
}

#[test]
fn decimal_rendering() {
    assert_eq!(u64_to_string(0), "0");
    assert_eq!(u64_to_string(18446744073709551615), "18446744073709551615");
    assert_eq!(i64_to_string(-9223372036854775808), "-9223372036854775808");
    assert_eq!(i64_to_string(42), "42");
}

#[test]
fn refund_request_uses_refund_id_twice() {
    let rd = refund_data();
    let item = UprimerpayRouterData::from((500, &rd));
    let r = UprimerpayRefundRequest::try_from_with_time(&item, Ok("T".to_string())).unwrap();
    assert_eq!(r.request_id, "rf_1");
    assert_eq!(r.merchant_order_id, "rf_1");
    assert_eq!(r.app_id, "app-1");
    assert_eq!(r.amount, 500);
    assert_eq!(r.refund_reason.as_deref(), Some("customer"));
    assert_eq!(r.refund_time, "T");
    assert!(r.notification_url.is_none());
    let r = Uprimerpay::new().get_refund_request_body(&rd).unwrap();
    assert!(r.refund_time.ends_with("+0000"));
    let mut bad = refund_data();
    bad.connector_auth_type = ConnectorAuthType::TemporaryAuth;
    let item = UprimerpayRouterData::from((500, &bad));
    assert!(matches!(UprimerpayRefundRequest::try_from(&item), Err(ConnectorError::FailedToObtainAuthType)));
}

#[test]
fn authorize_response_maps_status_and_reference() {
    let mut d = payment_data(UprimerpayPaymentStatus::Succeed);
    d.merchant_order_id = Some("mo_1".to_string());
    let resp = UprimerpayPaymentsResponse { code: "00000000".to_string(), msg: None, data: Some(d), success: Some(true) };
    let o = payments_authorize_from_response(&resp).unwrap();
    assert_eq!(o.status, AttemptStatus::Charged);
    let PaymentsResponseData::TransactionResponse { resource_id, redirection_data, connector_response_reference_id } = o.response;
    assert!(matches!(resource_id, ResponseId::ConnectorTransactionId(ref s) if s == "txn_9"));
    assert!(redirection_data.is_none());
    assert_eq!(connector_response_reference_id.as_deref(), Some("mo_1"));

    let resp = UprimerpayPaymentsResponse {
        code: "0".to_string(),
        msg: None,
        data: Some(payment_data(UprimerpayPaymentStatus::Pending)),
        success: None,
    };
    let o = payments_authorize_from_response(&resp).unwrap();
    assert_eq!(o.status, AttemptStatus::Authorizing);
    let PaymentsResponseData::TransactionResponse { connector_response_reference_id, .. } = o.response;
    assert_eq!(connector_response_reference_id.as_deref(), Some("ref_1"));

    let empty = UprimerpayPaymentsResponse { code: "1".to_string(), msg: None, data: None, success: Some(false) };
    assert!(matches!(payments_authorize_from_response(&empty), Err(ConnectorError::ResponseDeserializationFailed)));
    assert!(matches!(Uprimerpay::new().handle_authorize_response(None), Err(ConnectorError::ResponseDeserializationFailed)));
}

#[test]
fn sync_response_multiple_capture_not_implemented() {
    let resp = UprimerpayPaymentsResponse {
        code: "0".to_string(),
        msg: None,
        data: Some(payment_data(UprimerpayPaymentStatus::Failed)),
        success: None,
    };
    let r = payments_sync_from_response(&SyncRequestType::MultipleCaptureSync(vec!["c".to_string()]), &resp);
    assert!(matches!(r, Err(ConnectorError::NotImplemented(ref m)) if m == "manual multiple capture sync"));
    let o = payments_sync_from_response(&SyncRequestType::SinglePaymentSync, &resp).unwrap();
    assert_eq!(o.status, AttemptStatus::Failure);
}

#[test]
fn redirect_form_from_next_action() {
    let mut d = payment_data(UprimerpayPaymentStatus::RequestCustomerAction);
    d.next_action = Some(UprimerpayNextAction {
        action_type: Some(UprimerpayNextActionType::Redirect),
        url: Some("https://acs.example.com/3ds?token=a%20b&step=2".to_string()),
        method: Some("post".to_string()),
    });
    let RedirectForm::Form { endpoint, method, form_fields } = get_redirection_data(&d).unwrap();
    assert_eq!(endpoint, "https://acs.example.com/3ds");
    assert_eq!(method, Method::Post);
    assert_eq!(form_fields, vec![("token".to_string(), "a b".to_string()), ("step".to_string(), "2".to_string())]);

    d.next_action.as_mut().unwrap().url = Some("https://acs.example.com/3ds?a=1&b=2&a=3".to_string());
    let RedirectForm::Form { form_fields, .. } = get_redirection_data(&d).unwrap();
    assert_eq!(form_fields, vec![("a".to_string(), "3".to_string()), ("b".to_string(), "2".to_string())]);

    d.next_action.as_mut().unwrap().method = Some("GET".to_string());
    let RedirectForm::Form { method, .. } = get_redirection_data(&d).unwrap();
    assert_eq!(method, Method::Get);
    d.next_action.as_mut().unwrap().method = None;
    let RedirectForm::Form { method, .. } = get_redirection_data(&d).unwrap();
    assert_eq!(method, Method::Get);
    d.next_action.as_mut().unwrap().url = None;
    assert!(get_redirection_data(&d).is_none());
}

#[test]
fn refund_response_status() {
    let resp = UprimerpayRefundResponse {
        code: "0".to_string(),
        msg: None,
        data: Some(UprimerpayRefundData {
            request_id: None,
            merchant_order_id: None,
            id: "crf_3".to_string(),
            status: None,
            error_code: None,
            error_message: None,
        }),
        success: None,
    };
    let r = refund_execute_from_response(&resp).unwrap();
    assert_eq!(r.connector_refund_id, "crf_3");
    assert_eq!(r.refund_status, RefundStatus::Pending);
    let r = Uprimerpay::new().handle_rsync_response(Some(resp)).unwrap();
    assert_eq!(r.refund_status, RefundStatus::Pending);
}

#[test]
fn access_token_default_lifetime() {
    let resp = UprimerpayAccessTokenResponse {
        code: "0".to_string(),
        msg: None,
        data: Some(UprimerpayAccessTokenData { token: "tk".to_string(), expire_in: None }),
        success: Some(true),
    };
    let t = access_token_from_response(&resp).unwrap();
    assert_eq!(t.token, "tk");
    assert_eq!(t.expires, 3600);
    let resp = UprimerpayAccessTokenResponse {
        code: "0".to_string(),
        msg: None,
        data: Some(UprimerpayAccessTokenData { token: "tk".to_string(), expire_in: Some(60) }),
        success: Some(true),
    };
    assert_eq!(access_token_from_response(&resp).unwrap().expires, 60);
    let empty = UprimerpayAccessTokenResponse { code: "1".to_string(), msg: None, data: None, success: None };
    assert!(matches!(access_token_from_response(&empty), Err(ConnectorError::ResponseDeserializationFailed)));
}

#[test]
fn error_body_code_and_message_fallbacks() {
    let r = UprimerpayErrorResponse { code: None, msg: None, message: None, success: None, data: None };
    assert_eq!(r.error_code(), "00000000");
    assert_eq!(r.error_message(), "UprimerPay request failed");
    let r = UprimerpayErrorResponse {
        code: Some("E1".to_string()),
        msg: None,
        message: Some("bad card".to_string()),
        success: Some(false),
        data: None,
    };
    assert_eq!(r.error_code(), "E1");
    assert_eq!(r.error_message(), "bad card");
    let e = Uprimerpay::new().build_error_response(400, Some(r), b"ignored").unwrap();
    assert_eq!(e.status_code, 400);
    assert_eq!(e.code, "E1");
    assert_eq!(e.reason.as_deref(), Some("bad card"));
}

#[test]
fn unreadable_error_body_is_escaped() {
    let e = Uprimerpay::new().build_error_response(502, None, b"<h1>\"Bad\"\tGateway</h1>\n\x00\xff").unwrap();
    assert_eq!(e.status_code, 502);
    assert_eq!(e.code, "No error code");
    assert_eq!(e.message, "No error message");
    let expected = b"<h1>\"Bad\"\tGateway</h1>\n\x00\xff".escape_ascii().to_string();
    assert_eq!(e.reason.as_deref(), Some(expected.as_str()));
    assert_eq!(escape_ascii_to_string(b"a'\\\r"), "a\\'\\\\\\r");
}
