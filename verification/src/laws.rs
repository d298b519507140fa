//! Properties that tie several of the connector's functions together.
use vstd::prelude::*;
use crate::connector::accepts_capture_method;
use crate::error_response::{
    escape_ascii, escape_byte, spec_error_code, spec_error_message, spec_error_reason, UprimerpayErrorResponse,
    UPRIMERPAY_DEFAULT_ERROR_MESSAGE, UPRIMERPAY_SUCCESS_CODE,
};
use crate::status::{spec_attempt_status, spec_refund_status, AttemptStatus, RefundStatus, UprimerpayPaymentStatus};
use crate::requests::refund_request_matches;
use crate::responses::{outcome_redirect, outcome_reference, outcome_transaction_id, refund_matches, transaction_matches, PaymentsResponseOutcome, RefundsResponseData, UprimerpayPaymentData, UprimerpayRefundData};
use crate::router_data::{CaptureMethod, RefundsRouterData};
use crate::requests::UprimerpayRefundRequest;
use crate::specifications::supported_capture_methods;
use crate::text::hex_digit_char;
use crate::webhook::{is_reference_of, ObjectReferenceId, PaymentIdType, RefundIdType, UprimerpayWebhookNotification};
use crate::auth::ConnectorAuthType;
use crate::connector::{headers_outcome, Maskable, AUTHORIZATION, CONTENT_TYPE, CONTENT_TYPE_JSON, X_ACCESS_CODE, X_SECRET_KEY};
use crate::requests::{payments_request_matches, UprimerpayPaymentsRequest};
use crate::responses::{redirection_matches, url_query_pairs, url_without_query, RedirectForm};
use crate::router_data::{opt_view, AccessToken, Card, Method, PaymentsAuthorizeRouterData};
use crate::text::{ascii_lower, ascii_lowercase};

verus! {

/// The capture methods the connector declares as supported are exactly the
/// ones a payment request is accepted with.
pub proof fn law_declared_capture_methods_are_accepted(m: CaptureMethod)
    ensures
        supported_capture_methods().contains(m) <==> accepts_capture_method(Some(m)),
{
    if accepts_capture_method(Some(m)) {
        if m == CaptureMethod::Automatic {
            assert(supported_capture_methods()[0] == m);
        } else {
            assert(supported_capture_methods()[1] == m);
        }
    }
}

/// A refund notification that carries the merchant order id of a refund
/// request this connector sent refers to that refund by its refund id.
pub proof fn law_refund_notification_finds_its_refund(
    request: UprimerpayRefundRequest,
    amount: i64,
    rd: RefundsRouterData,
    refund_time: Seq<char>,
    n: UprimerpayWebhookNotification,
    r: ObjectReferenceId,
)
    requires
        refund_request_matches(request, amount, rd, refund_time),
        n.transaction_type is Refund,
        n.merchant_order_id@ == request.merchant_order_id@,
        is_reference_of(r, n),
    ensures
        r matches ObjectReferenceId::RefundId(RefundIdType::RefundId(s)) && s@ == rd.request.refund_id@,
{
}

/// An authorization and a payment status query that read replies with the
/// same transaction record the same status, transaction id, reference and
/// redirect form (endpoint, method and fields).
pub proof fn law_payment_replies_read_alike(
    a: PaymentsResponseOutcome,
    b: PaymentsResponseOutcome,
    d: UprimerpayPaymentData,
)
    requires
        transaction_matches(a, d),
        transaction_matches(b, d),
    ensures
        a.status == b.status,
        outcome_transaction_id(a) == outcome_transaction_id(b),
        outcome_reference(a) == outcome_reference(b),
        outcome_redirect(a) == outcome_redirect(b),
{
}

/// A refund and a refund status query that read replies with the same refund
/// record the same refund id and status.
pub proof fn law_refund_replies_read_alike(a: RefundsResponseData, b: RefundsResponseData, d: UprimerpayRefundData)
    requires
        refund_matches(a, d),
        refund_matches(b, d),
    ensures
        a.connector_refund_id@ == b.connector_refund_id@,
        a.refund_status == b.refund_status,
{
}

/// The escaped form of a byte is printable ASCII.
proof fn lemma_escape_byte_printable(b: u8)
    ensures
        forall|i: int| 0 <= i < escape_byte(b).len() ==> ' ' <= #[trigger] escape_byte(b)[i] && escape_byte(b)[i] <= '~',
{
    let hi = hex_digit_char((b / 16) as nat);
    let lo = hex_digit_char((b % 16) as nat);
    assert(('0' <= hi && hi <= '9') || ('a' <= hi && hi <= 'f'));
    assert(('0' <= lo && lo <= '9') || ('a' <= lo && lo <= 'f'));
    if 0x20 <= b && b <= 0x7e {
        assert((b as char) as u32 == b as u32);
    }
}

/// The reason recorded for an unreadable error body is printable ASCII,
/// whatever bytes the body held.
pub proof fn law_escaped_reason_is_printable(data: Seq<u8>)
    ensures
        forall|i: int| 0 <= i < escape_ascii(data).len() ==> ' ' <= #[trigger] escape_ascii(data)[i] && escape_ascii(data)[i] <= '~',
    decreases data.len(),
{
    if data.len() > 0 {
        law_escaped_reason_is_printable(data.drop_last());
        lemma_escape_byte_printable(data.last());
        let front = escape_ascii(data.drop_last());
        let back = escape_byte(data.last());
        assert(escape_ascii(data) == front + back);
        assert forall|i: int| 0 <= i < escape_ascii(data).len() implies ' ' <= #[trigger] escape_ascii(data)[i] && escape_ascii(data)[i] <= '~' by {
            if i < front.len() {
                assert(escape_ascii(data)[i] == front[i]);
            } else {
                assert(escape_ascii(data)[i] == back[i - front.len()]);
            }
        }
    }
}

/// A notification about a payment (any kind but a refund) refers to the
/// payment by its `originalId` when it has one and by its own `id` otherwise,
/// whatever the kind of transaction.
pub proof fn law_payment_notification_refers_to_its_transaction(n: UprimerpayWebhookNotification, r: ObjectReferenceId)
    requires
        is_reference_of(r, n),
        !(n.transaction_type is Refund),
    ensures
        r matches ObjectReferenceId::PaymentId(PaymentIdType::ConnectorTransactionId(s))
            && (n.original_id is Some ==> s@ == n.original_id.unwrap()@)
            && (n.original_id is None ==> s@ == n.id@),
{
}

/// A refund notification refers to the refund by its merchant order id,
/// whatever its status or other ids.
pub proof fn law_refund_notification_refers_to_merchant_order(n: UprimerpayWebhookNotification, r: ObjectReferenceId)
    requires
        is_reference_of(r, n),
        n.transaction_type is Refund,
    ensures
        r matches ObjectReferenceId::RefundId(RefundIdType::RefundId(s)) && s@ == n.merchant_order_id@,
{
}

/// A refund request carries the refund's own amount, currency, reason and
/// notification URL, the refund id as both request id and merchant order id,
/// the account's application id and the time it was built at.
pub proof fn law_refund_request_carries_the_refund(
    r: UprimerpayRefundRequest,
    amount: i64,
    rd: RefundsRouterData,
    t: Seq<char>,
)
    requires
        refund_request_matches(r, amount, rd, t),
    ensures
        r.currency@ == rd.request.currency@,
        r.amount == amount,
        r.request_id@ == rd.request.refund_id@,
        r.merchant_order_id@ == rd.request.refund_id@,
        opt_view(r.refund_reason) == opt_view(rd.request.reason),
        opt_view(r.notification_url) == opt_view(rd.request.webhook_url),
        r.refund_time@ == t,
        rd.connector_auth_type matches ConnectorAuthType::SignatureKey { api_key, .. } && r.app_id@ == api_key@,
{
}

/// A card payment request carries the payment's amount (as the single
/// product's unit and total price too) and currency, the merchant's return
/// URL as cancel, success and failure URL, its webhook URL, the account's
/// application id, the connector reference as request id and product code,
/// the card's number and security code, and the billing names on both the
/// card and the billing block.
pub proof fn law_payment_request_carries_the_payment(
    r: UprimerpayPaymentsRequest,
    amount: i64,
    rd: PaymentsAuthorizeRouterData,
    card: Card,
    t: Seq<char>,
)
    requires
        payments_request_matches(r, amount, rd, card, t),
    ensures
        r.amount == amount,
        r.currency@ == rd.request.currency@,
        rd.request.router_return_url is Some,
        r.cancel_url@ == rd.request.router_return_url.unwrap()@,
        r.success_url@ == rd.request.router_return_url.unwrap()@,
        r.failure_url@ == rd.request.router_return_url.unwrap()@,
        opt_view(r.notification_url) == opt_view(rd.request.webhook_url),
        rd.connector_auth_type matches ConnectorAuthType::SignatureKey { api_key, .. } && r.app_id@ == api_key@,
        r.request_id@ == rd.connector_request_reference_id@,
        r.order_time@ == t,
        r.payment_method.card.number@ == card.card_number@,
        r.payment_method.card.cvv@ == card.card_cvc@,
        r.products@.len() == 1,
        r.products@[0].unit_price == amount,
        r.products@[0].total_amount == amount,
        r.products@[0].quantity == 1,
        r.products@[0].code@ == rd.connector_request_reference_id@,
        rd.address.payment_method_billing is Some,
        rd.address.payment_method_billing.unwrap().address is Some,
        Some(r.billing.first_name@) == opt_view(rd.address.payment_method_billing.unwrap().address.unwrap().first_name),
        Some(r.billing.last_name@) == opt_view(rd.address.payment_method_billing.unwrap().address.unwrap().last_name),
        r.payment_method.card.first_name@ == r.billing.first_name@,
        r.payment_method.card.last_name@ == r.billing.last_name@,
{
}

/// `POST` in the gateway's spelling: upper case.
pub open spec fn post_text() -> Seq<char> {
    seq!['P', 'O', 'S', 'T']
}

/// When the gateway asks for a redirect to a URL, the form is posted
/// exactly when the requested method lower-cases to `post` (`POST`, `Post`,
/// `post` all do), and fetched otherwise; its endpoint is the URL without
/// its query.
pub proof fn law_redirect_method_ignores_case(f: Option<RedirectForm>, d: UprimerpayPaymentData)
    requires
        redirection_matches(f, d),
        d.next_action is Some,
        d.next_action.unwrap().url is Some,
        url_without_query(d.next_action.unwrap().url.unwrap()@) is Some,
        url_query_pairs(d.next_action.unwrap().url.unwrap()@) is Some,
    ensures
        f matches Some(RedirectForm::Form { endpoint, method, .. })
            && endpoint@ == url_without_query(d.next_action.unwrap().url.unwrap()@).unwrap()
            && (method == Method::Post <==> (d.next_action.unwrap().method is Some
                && ascii_lowercase(d.next_action.unwrap().method.unwrap()@) == seq!['p', 'o', 's', 't']))
            && (method == Method::Post || method == Method::Get),
{
    reveal_strlit("POST");
    assert("POST"@ =~= post_text());
    assert(ascii_lowercase(post_text()) =~= seq!['p', 'o', 's', 't']) by {
        assert(ascii_lower('P') == 'p');
        assert(ascii_lower('O') == 'o');
        assert(ascii_lower('S') == 's');
        assert(ascii_lower('T') == 't');
    }
}

/// The text of a header value, masked or not.
pub open spec fn header_value(m: Maskable) -> Seq<char> {
    match m {
        Maskable::Masked(v) => v@,
        Maskable::Normal(v) => v@,
    }
}

/// The credential headers are the same with or without the bearer token:
/// the access-token request sends exactly the first three headers of every
/// other call, the JSON content type, `X-AccessCode` with the account's
/// `key1` and `X-SecretKey` with its `api_secret`, both masked; the other
/// calls add `Authorization: Bearer <token>`.
pub proof fn law_credential_headers(
    without_bearer: Vec<(String, Maskable)>,
    with_bearer: Vec<(String, Maskable)>,
    auth_type: ConnectorAuthType,
    access_token: Option<AccessToken>,
)
    requires
        headers_outcome(Ok(without_bearer), auth_type, access_token, false),
        headers_outcome(Ok(with_bearer), auth_type, access_token, true),
    ensures
        auth_type is SignatureKey,
        without_bearer@.len() == 3,
        with_bearer@.len() == 4,
        forall|i: int| 0 <= i < 3 ==> #[trigger] without_bearer@[i].0@ == with_bearer@[i].0@,
        forall|i: int| 0 <= i < 3 ==> #[trigger] header_value(without_bearer@[i].1) == header_value(with_bearer@[i].1),
        without_bearer@[0].0@ == CONTENT_TYPE@,
        without_bearer@[0].1 is Normal,
        header_value(without_bearer@[0].1) == CONTENT_TYPE_JSON@,
        without_bearer@[1].0@ == X_ACCESS_CODE@,
        without_bearer@[1].1 is Masked,
        header_value(without_bearer@[1].1) == auth_type->SignatureKey_key1@,
        without_bearer@[2].0@ == X_SECRET_KEY@,
        without_bearer@[2].1 is Masked,
        header_value(without_bearer@[2].1) == auth_type->SignatureKey_api_secret@,
        access_token is Some,
        with_bearer@[3].0@ == AUTHORIZATION@,
        with_bearer@[3].1 is Masked,
        header_value(with_bearer@[3].1) == "Bearer "@ + access_token.unwrap().token@,
{
}

/// A payment counts as charged exactly when the gateway reports success,
/// and as failed exactly when it reports it failed, was declined or was
/// cancelled (either spelling); a refund succeeds exactly on a reported
/// success, fails on the same failure statuses, and is pending when no
/// status is given.
pub proof fn law_status_meanings(s: UprimerpayPaymentStatus)
    ensures
        (spec_attempt_status(s) == AttemptStatus::Charged) <==> (s == UprimerpayPaymentStatus::Succeed),
        (spec_attempt_status(s) == AttemptStatus::Failure) <==> (s == UprimerpayPaymentStatus::Failed
            || s == UprimerpayPaymentStatus::Failure || s == UprimerpayPaymentStatus::Declined
            || s == UprimerpayPaymentStatus::Cancelled || s == UprimerpayPaymentStatus::Canceled),
        (spec_attempt_status(s) == AttemptStatus::AuthenticationPending) <==> (s == UprimerpayPaymentStatus::RequestCustomerAction),
        (spec_refund_status(Some(s)) == RefundStatus::Success) <==> (s == UprimerpayPaymentStatus::Succeed),
        (spec_refund_status(Some(s)) == RefundStatus::Failure) <==> (spec_attempt_status(s) == AttemptStatus::Failure),
        spec_refund_status(None) == RefundStatus::Pending,
{
}

/// An error body's code is its own when it has one and `00000000`
/// otherwise; its message is `msg`, else `message`, else the fallback text,
/// and the recorded reason is `msg`, else `message`.
pub proof fn law_error_body_fallbacks(r: UprimerpayErrorResponse)
    ensures
        r.code is Some ==> spec_error_code(r) == r.code.unwrap()@,
        r.code is None ==> spec_error_code(r) == UPRIMERPAY_SUCCESS_CODE@,
        r.msg is Some ==> spec_error_message(r) == r.msg.unwrap()@ && spec_error_reason(r) == Some(r.msg.unwrap()@),
        r.msg is None && r.message is Some ==> spec_error_message(r) == r.message.unwrap()@
            && spec_error_reason(r) == Some(r.message.unwrap()@),
        r.msg is None && r.message is None ==> spec_error_message(r) == UPRIMERPAY_DEFAULT_ERROR_MESSAGE@
            && spec_error_reason(r) is None,
{
}

} // verus!
