use uprimerpay::auth::ConnectorAuthType;
use uprimerpay::connector::Uprimerpay;
use uprimerpay::requests::{UprimerpayRefundRequest, UprimerpayRouterData};
use uprimerpay::responses::{
    payments_authorize_from_response, payments_sync_from_response, refund_execute_from_response,
    refund_sync_from_response, PaymentsResponseData, UprimerpayPaymentData, UprimerpayPaymentsResponse,
    UprimerpayRefundData, UprimerpayRefundResponse,
};
use uprimerpay::router_data::{AccessToken, RefundsData, RefundsRouterData, ResponseId, SyncRequestType};
use uprimerpay::status::{
    attempt_status_from, get_refund_status, AttemptStatus, RefundStatus, UprimerpayPaymentStatus,
};
use uprimerpay::webhook::{
    IncomingWebhookEvent, IncomingWebhookRequestDetails, ObjectReferenceId, RefundIdType,
    UprimerpayWebhookNotification, UprimerpayWebhookTransactionType,
};

const ALL_STATUSES: [UprimerpayPaymentStatus; 11] = [
    UprimerpayPaymentStatus::Succeed,
    UprimerpayPaymentStatus::RequestCustomerAction,
    UprimerpayPaymentStatus::Processing,
    UprimerpayPaymentStatus::Pending,
    UprimerpayPaymentStatus::RetryPending,
    UprimerpayPaymentStatus::Failed,
    UprimerpayPaymentStatus::Failure,
    UprimerpayPaymentStatus::Declined,
    UprimerpayPaymentStatus::Cancelled,
    UprimerpayPaymentStatus::Canceled,
    UprimerpayPaymentStatus::Unknown,
];

fn auth() -> ConnectorAuthType {
    ConnectorAuthType::SignatureKey {
        api_key: "app-1".to_string(),
        key1: "code-1".to_string(),
        api_secret: "merchant-secret".to_string(),
    }
}

fn notification(t: UprimerpayWebhookTransactionType, s: UprimerpayPaymentStatus, merchant_order_id: &str) -> UprimerpayWebhookNotification {
    UprimerpayWebhookNotification {
        request_id: "r".to_string(),
        app_id: "app-1".to_string(),
        merchant_order_id: merchant_order_id.to_string(),
        amount: 500,
        currency: "USD".to_string(),
        captured_amount: None,
        id: "gw-1".to_string(),
        transaction_type: t,
        status: s,
        payment_method: "CARD".to_string(),
        payment_acceptance: None,
        merchant_memo: None,
        error_code: None,
        error_message: None,
        create_time: None,
        update_time: None,
        raw_code: None,
        raw_refusal_description: None,
        auth_code: None,
        short_card_no: None,
        country_code: None,
        eci: None,
        three_ds: None,
        subscription_request_id: None,
        subscription_id: None,
        period_num: None,
        cancellation_reason: None,
        original_id: Some("gw-0".to_string()),
        refund_reason: None,
        retry_code: None,
        retry_msg: None,
    }
}

#[test]
fn signature_from_get_signature_verifies() {
    let c = Uprimerpay::new();
    let body = "{\"requestId\":\"20220313000001\",\"status\":\"SUCCEED\"}";
    let sig = c.get_signature(&auth(), body).unwrap();
    assert_eq!(sig.len(), 32);
    let req = IncomingWebhookRequestDetails {
        headers: vec![("X-Signature".to_string(), sig)],
        body: body.as_bytes().to_vec(),
    };
    assert!(c.verify_webhook_source(&req, Some(auth())).unwrap());
}

#[test]
fn refund_notification_refers_to_refund_sent() {
    let rd = RefundsRouterData {
        connector_auth_type: auth(),
        access_token: Some(AccessToken { token: "t".to_string(), expires: 1 }),
        request: RefundsData {
            refund_id: "refund_77".to_string(),
            connector_transaction_id: "gw-0".to_string(),
            connector_refund_id: None,
            currency: "USD".to_string(),
            minor_refund_amount: 500,
            reason: None,
            webhook_url: None,
        },
    };
    let item = UprimerpayRouterData::from((500, &rd));
    let request = UprimerpayRefundRequest::try_from_with_time(&item, Ok("T".to_string())).unwrap();
    let n = notification(UprimerpayWebhookTransactionType::Refund, UprimerpayPaymentStatus::Succeed, &request.merchant_order_id);
    let r = Uprimerpay::new().get_webhook_object_reference_id(Some(n)).unwrap();
    assert!(matches!(r, ObjectReferenceId::RefundId(RefundIdType::RefundId(ref s)) if s == "refund_77"));
}

#[test]
fn refund_events_refer_to_refunds_and_payment_events_to_payments() {
    let c = Uprimerpay::new();
    for t in [
        UprimerpayWebhookTransactionType::Sale,
        UprimerpayWebhookTransactionType::Refund,
        UprimerpayWebhookTransactionType::Authorize,
        UprimerpayWebhookTransactionType::Capture,
        UprimerpayWebhookTransactionType::Unknown,
    ] {
        for s in ALL_STATUSES {
            let e = c.get_webhook_event_type(Some(notification(t, s, "mo"))).unwrap();
            let r = c.get_webhook_object_reference_id(Some(notification(t, s, "mo"))).unwrap();
            match e {
                IncomingWebhookEvent::RefundSuccess | IncomingWebhookEvent::RefundFailure => {
                    assert!(matches!(r, ObjectReferenceId::RefundId(_)))
                }
                IncomingWebhookEvent::EventNotSupported => {}
                _ => assert!(matches!(r, ObjectReferenceId::PaymentId(_))),
            }
        }
    }
}

#[test]
fn webhook_events_agree_with_statuses() {
    let c = Uprimerpay::new();
    for s in ALL_STATUSES {
        let sale = c.get_webhook_event_type(Some(notification(UprimerpayWebhookTransactionType::Sale, s, "mo"))).unwrap();
        assert_eq!(sale == IncomingWebhookEvent::PaymentIntentSuccess, attempt_status_from(s) == AttemptStatus::Charged);
        assert_eq!(sale == IncomingWebhookEvent::PaymentIntentFailure, attempt_status_from(s) == AttemptStatus::Failure);
        let refund = c.get_webhook_event_type(Some(notification(UprimerpayWebhookTransactionType::Refund, s, "mo"))).unwrap();
        assert_eq!(refund == IncomingWebhookEvent::RefundSuccess, get_refund_status(Some(s)) == RefundStatus::Success);
        assert_eq!(refund == IncomingWebhookEvent::RefundFailure, get_refund_status(Some(s)) == RefundStatus::Failure);
        assert_eq!(refund == IncomingWebhookEvent::EventNotSupported, get_refund_status(Some(s)) == RefundStatus::Pending);
    }
}

#[test]
fn authorize_and_sync_read_a_reply_alike() {
    for s in ALL_STATUSES {
        let resp = UprimerpayPaymentsResponse {
            code: "00000000".to_string(),
            msg: None,
            data: Some(UprimerpayPaymentData {
                request_id: Some("req".to_string()),
                merchant_order_id: Some("mo".to_string()),
                id: "gw-9".to_string(),
                status: s,
                error_code: None,
                error_message: None,
                next_action: None,
            }),
            success: None,
        };
        let a = payments_authorize_from_response(&resp).unwrap();
        let b = payments_sync_from_response(&SyncRequestType::SinglePaymentSync, &resp).unwrap();
        assert_eq!(a.status, b.status);
        let PaymentsResponseData::TransactionResponse { resource_id: ra, connector_response_reference_id: fa, .. } = a.response;
        let PaymentsResponseData::TransactionResponse { resource_id: rb, connector_response_reference_id: fb, .. } = b.response;
        assert_eq!(fa, fb);
        match (ra, rb) {
            (ResponseId::ConnectorTransactionId(x), ResponseId::ConnectorTransactionId(y)) => assert_eq!(x, y),
            _ => panic!("transaction id missing"),
        }
    }
}

#[test]
fn refund_and_refund_sync_read_a_reply_alike() {
    for s in ALL_STATUSES.iter().map(|s| Some(*s)).chain([None]) {
        let resp = UprimerpayRefundResponse {
            code: "0".to_string(),
            msg: None,
            data: Some(UprimerpayRefundData {
                request_id: None,
                merchant_order_id: None,
                id: "rf-gw".to_string(),
                status: s,
                error_code: None,
                error_message: None,
            }),
            success: None,
        };
        let a = refund_execute_from_response(&resp).unwrap();
        let b = refund_sync_from_response(&resp).unwrap();
        assert_eq!(a.connector_refund_id, b.connector_refund_id);
        assert_eq!(a.refund_status, b.refund_status);
    }
}

#[test]
fn escaped_reason_is_printable_for_every_byte() {
    let all: Vec<u8> = (0..=255u8).collect();
    let e = Uprimerpay::new().build_error_response(500, None, &all).unwrap();
    let reason = e.reason.unwrap();
    assert!(reason.chars().all(|c| (' '..='~').contains(&c)));
    assert_eq!(reason, all.escape_ascii().to_string());
}
