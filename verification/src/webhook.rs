//! Transaction-result notifications that UprimerPay posts to the merchant's
//! notification URL, and how they are classified.
use vstd::prelude::*;
use crate::status::{spec_attempt_status, spec_refund_status, UprimerpayPaymentStatus};

verus! {

/// The kind of transaction a notification reports on. Any kind the gateway
/// sends that is not listed maps to `Unknown`.
#[derive(Clone, Copy, Debug, PartialEq, Eq, Structural)]
pub enum UprimerpayWebhookTransactionType {
    Sale,
    Refund,
    Authorize,
    Capture,
    Unknown,
}

/// A transaction-result notification.
#[derive(Clone, Debug)]
pub struct UprimerpayWebhookNotification {
    pub request_id: String,
    pub app_id: String,
    pub merchant_order_id: String,
    pub amount: i64,
    pub currency: String,
    pub captured_amount: Option<i64>,
    pub id: String,
    pub transaction_type: UprimerpayWebhookTransactionType,
    pub status: UprimerpayPaymentStatus,
    pub payment_method: String,
    pub payment_acceptance: Option<String>,
    pub merchant_memo: Option<String>,
    pub error_code: Option<String>,
    pub error_message: Option<String>,
    pub create_time: Option<String>,
    pub update_time: Option<String>,
    pub raw_code: Option<String>,
    pub raw_refusal_description: Option<String>,
    pub auth_code: Option<String>,
    pub short_card_no: Option<String>,
    pub country_code: Option<String>,
    pub eci: Option<String>,
    pub three_ds: Option<String>,
    pub subscription_request_id: Option<String>,
    pub subscription_id: Option<String>,
    pub period_num: Option<i64>,
    pub cancellation_reason: Option<String>,
    pub original_id: Option<String>,
    pub refund_reason: Option<String>,
    pub retry_code: Option<String>,
    pub retry_msg: Option<String>,
}

impl UprimerpayWebhookNotification {
    /// The notification reports on a refund.
    pub fn is_refund_event(&self) -> (r: bool)
        ensures
            r == (self.transaction_type is Refund),
    {
        match self.transaction_type {
            UprimerpayWebhookTransactionType::Refund => true,
            _ => false,
        }
    }
}

/// The incoming-webhook events this connector reports to the router.
#[derive(Clone, Copy, Debug, PartialEq, Eq, Structural)]
pub enum IncomingWebhookEvent {
    PaymentIntentSuccess,
    PaymentIntentFailure,
    PaymentIntentProcessing,
    PaymentIntentAuthorizationSuccess,
    PaymentIntentAuthorizationFailure,
    PaymentIntentCaptureSuccess,
    PaymentIntentCaptureFailure,
    RefundSuccess,
    RefundFailure,
    EventNotSupported,
}

/// How a refund is identified.
#[derive(Clone, Debug)]
pub enum RefundIdType {
    RefundId(String),
    ConnectorRefundId(String),
}

/// How a payment is identified.
#[derive(Clone, Debug)]
pub enum PaymentIdType {
    PaymentIntentId(String),
    ConnectorTransactionId(String),
    PaymentAttemptId(String),
    PreprocessingId(String),
}

/// The object a webhook refers to.
#[derive(Clone, Debug)]
pub enum ObjectReferenceId {
    PaymentId(PaymentIdType),
    RefundId(RefundIdType),
}

/// The event a notification of the given kind and status stands for.
pub open spec fn spec_webhook_event(
    transaction_type: UprimerpayWebhookTransactionType,
    status: UprimerpayPaymentStatus,
) -> IncomingWebhookEvent {
    match transaction_type {
        UprimerpayWebhookTransactionType::Refund => if status.is_success() {
            IncomingWebhookEvent::RefundSuccess
        } else if status.is_failure() {
            IncomingWebhookEvent::RefundFailure
        } else {
            IncomingWebhookEvent::EventNotSupported
        },
        UprimerpayWebhookTransactionType::Authorize => if status.is_success() {
            IncomingWebhookEvent::PaymentIntentAuthorizationSuccess
        } else if status.is_failure() {
            IncomingWebhookEvent::PaymentIntentAuthorizationFailure
        } else if status is Unknown {
            IncomingWebhookEvent::EventNotSupported
        } else {
            IncomingWebhookEvent::PaymentIntentProcessing
        },
        UprimerpayWebhookTransactionType::Capture => if status.is_success() {
            IncomingWebhookEvent::PaymentIntentCaptureSuccess
        } else if status.is_failure() {
            IncomingWebhookEvent::PaymentIntentCaptureFailure
        } else if status is Unknown {
            IncomingWebhookEvent::EventNotSupported
        } else {
            IncomingWebhookEvent::PaymentIntentProcessing
        },
        UprimerpayWebhookTransactionType::Sale => if status.is_success() {
            IncomingWebhookEvent::PaymentIntentSuccess
        } else if status.is_failure() {
            IncomingWebhookEvent::PaymentIntentFailure
        } else if status is Unknown {
            IncomingWebhookEvent::EventNotSupported
        } else {
            IncomingWebhookEvent::PaymentIntentProcessing
        },
        UprimerpayWebhookTransactionType::Unknown => IncomingWebhookEvent::EventNotSupported,
    }
}

/// Refund notifications are tied to the refund by the merchant order id;
/// payment notifications to the payment by the original transaction id, or
/// by the notification's own id when there is none.
pub open spec fn is_reference_of(r: ObjectReferenceId, n: UprimerpayWebhookNotification) -> bool {
    if n.transaction_type is Refund {
        r matches ObjectReferenceId::RefundId(RefundIdType::RefundId(s)) && s@ == n.merchant_order_id@
    } else {
        r matches ObjectReferenceId::PaymentId(PaymentIdType::ConnectorTransactionId(s)) && s@ == (
        match n.original_id {
            Some(o) => o@,
            None => n.id@,
        })
    }
}

} // verus!

verus! {

/// The parts of an incoming webhook request the connector reads.
#[derive(Clone, Debug)]
pub struct IncomingWebhookRequestDetails {
    /// Header names and values, in the order received.
    pub headers: Vec<(String, String)>,
    /// The raw request body.
    pub body: Vec<u8>,
}

/// The reply sent back to the gateway for a webhook.
#[derive(Clone, Debug)]
pub enum ApplicationResponse {
    TextPlain(String),
}

} // verus!

verus! {

/// Outcome events for refunds always come with a reference to a refund, and
/// outcome events for payments with a reference to a payment.
pub proof fn law_event_kind_matches_reference(n: UprimerpayWebhookNotification, r: ObjectReferenceId)
    requires
        is_reference_of(r, n),
    ensures
        ({
            let e = spec_webhook_event(n.transaction_type, n.status);
            e is RefundSuccess || e is RefundFailure
        }) ==> r is RefundId,
        ({
            let e = spec_webhook_event(n.transaction_type, n.status);
            !(e is RefundSuccess || e is RefundFailure || e is EventNotSupported)
        }) ==> r is PaymentId,
{
}

/// For every gateway status, the webhook event of a payment notification
/// agrees with the attempt status that the same status gives a payment
/// response, and the event of a refund notification with the refund status
/// that it gives a refund response.
pub proof fn law_events_agree_with_statuses(status: UprimerpayPaymentStatus)
    ensures
        (spec_webhook_event(UprimerpayWebhookTransactionType::Sale, status) is PaymentIntentSuccess)
            <==> (spec_attempt_status(status) is Charged),
        (spec_webhook_event(UprimerpayWebhookTransactionType::Sale, status) is PaymentIntentFailure)
            <==> (spec_attempt_status(status) is Failure),
        (spec_webhook_event(UprimerpayWebhookTransactionType::Authorize, status) is PaymentIntentAuthorizationSuccess)
            <==> (spec_attempt_status(status) is Charged),
        (spec_webhook_event(UprimerpayWebhookTransactionType::Authorize, status) is PaymentIntentAuthorizationFailure)
            <==> (spec_attempt_status(status) is Failure),
        (spec_webhook_event(UprimerpayWebhookTransactionType::Capture, status) is PaymentIntentCaptureSuccess)
            <==> (spec_attempt_status(status) is Charged),
        (spec_webhook_event(UprimerpayWebhookTransactionType::Capture, status) is PaymentIntentCaptureFailure)
            <==> (spec_attempt_status(status) is Failure),
        (spec_webhook_event(UprimerpayWebhookTransactionType::Refund, status) is RefundSuccess)
            <==> (spec_refund_status(Some(status)) is Success),
        (spec_webhook_event(UprimerpayWebhookTransactionType::Refund, status) is RefundFailure)
            <==> (spec_refund_status(Some(status)) is Failure),
        (spec_webhook_event(UprimerpayWebhookTransactionType::Refund, status) is EventNotSupported)
            <==> (spec_refund_status(Some(status)) is Pending),
{
}

} // verus!
