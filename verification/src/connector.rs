//! The UprimerPay connector: identity, webhook handling and signing.
use vstd::prelude::*;
use crate::auth::{spec_auth, ConnectorAuthType, UprimerpayAuthType};
use crate::errors::ConnectorError;
use crate::signature::{get_header_key_value, header_text, headers_view, sign_payload, spec_signature};
use crate::status::UprimerpayPaymentStatus;
use crate::text::{eq_ignore_ascii_case, str_eq_ignore_ascii_case};
use crate::router_data::{opt_view, AccessToken, CaptureMethod, Connectors, Method};
use crate::webhook::{
    is_reference_of, spec_webhook_event, ApplicationResponse, IncomingWebhookEvent,
    IncomingWebhookRequestDetails, ObjectReferenceId, PaymentIdType, RefundIdType,
    UprimerpayWebhookNotification, UprimerpayWebhookTransactionType,
};

verus! {

/// The header that carries a request's or a webhook's signature.
pub const X_SIGNATURE: &'static str = "X-Signature";

/// The UprimerPay connector. Amounts are passed to the gateway in minor
/// units, unchanged.
#[derive(Clone, Debug)]
pub struct Uprimerpay {}

impl Uprimerpay {
    pub fn new() -> (r: &'static Uprimerpay) {
        &Uprimerpay {}
    }

    /// Checks a webhook's `X-Signature` header against the MD5 signature of
    /// the raw body under the merchant's secret key, ignoring ASCII case.
    /// `connector_account_details` is `None` when the stored account details
    /// could not be read as credentials.
    pub fn verify_webhook_source(
        &self,
        request: &IncomingWebhookRequestDetails,
        connector_account_details: Option<ConnectorAuthType>,
    ) -> (res: Result<bool, ConnectorError>)
        ensures
            match connector_account_details {
                None => res matches Err(ConnectorError::WebhookSourceVerificationFailed),
                Some(account) => match spec_auth(account) {
                    None => res matches Err(ConnectorError::FailedToObtainAuthType),
                    Some((_, _, secret)) => match header_text(headers_view(request.headers@), X_SIGNATURE@) {
                        None => res matches Err(ConnectorError::WebhookSignatureNotFound),
                        Some(sig) => res == Ok::<bool, ConnectorError>(
                            eq_ignore_ascii_case(spec_signature(request.body@, secret), sig)),
                    },
                },
            },
    {
        let account = match connector_account_details {
            Some(a) => a,
            None => return Err(ConnectorError::WebhookSourceVerificationFailed),
        };
        let auth = UprimerpayAuthType::try_from(&account)?;
        let signature = match get_header_key_value(X_SIGNATURE, &request.headers) {
            Some(s) => s,
            None => return Err(ConnectorError::WebhookSignatureNotFound),
        };
        let expected = sign_payload(request.body.as_slice(), auth.secret_key.as_str());
        Ok(str_eq_ignore_ascii_case(expected.as_str(), signature.as_str()))
    }

    /// The payment or refund a notification refers to. `notification` is
    /// `None` when the webhook body is not a notification.
    pub fn get_webhook_object_reference_id(
        &self,
        notification: Option<UprimerpayWebhookNotification>,
    ) -> (res: Result<ObjectReferenceId, ConnectorError>)
        ensures
            match notification {
                None => res matches Err(ConnectorError::WebhookReferenceIdNotFound),
                Some(n) => res matches Ok(r) && is_reference_of(r, n),
            },
    {
        let notification = match notification {
            Some(n) => n,
            None => return Err(ConnectorError::WebhookReferenceIdNotFound),
        };
        if notification.is_refund_event() {
            Ok(ObjectReferenceId::RefundId(RefundIdType::RefundId(notification.merchant_order_id)))
        } else {
            let id = match notification.original_id {
                Some(o) => o,
                None => notification.id,
            };
            Ok(ObjectReferenceId::PaymentId(PaymentIdType::ConnectorTransactionId(id)))
        }
    }

    /// The event a notification stands for. `notification` is `None` when the
    /// webhook body is not a notification.
    pub fn get_webhook_event_type(
        &self,
        notification: Option<UprimerpayWebhookNotification>,
    ) -> (res: Result<IncomingWebhookEvent, ConnectorError>)
        ensures
            match notification {
                None => res matches Err(ConnectorError::WebhookEventTypeNotFound),
                Some(n) => res == Ok::<IncomingWebhookEvent, ConnectorError>(
                    spec_webhook_event(n.transaction_type, n.status)),
            },
    {
        let notification = match notification {
            Some(n) => n,
            None => return Err(ConnectorError::WebhookEventTypeNotFound),
        };
        let event = match notification.transaction_type {
            UprimerpayWebhookTransactionType::Refund => match notification.status {
                UprimerpayPaymentStatus::Succeed => IncomingWebhookEvent::RefundSuccess,
                UprimerpayPaymentStatus::Failed
                | UprimerpayPaymentStatus::Failure
                | UprimerpayPaymentStatus::Declined
                | UprimerpayPaymentStatus::Cancelled
                | UprimerpayPaymentStatus::Canceled => IncomingWebhookEvent::RefundFailure,
                UprimerpayPaymentStatus::Pending
                | UprimerpayPaymentStatus::Processing
                | UprimerpayPaymentStatus::RetryPending
                | UprimerpayPaymentStatus::RequestCustomerAction
                | UprimerpayPaymentStatus::Unknown => IncomingWebhookEvent::EventNotSupported,
            },
            UprimerpayWebhookTransactionType::Authorize => match notification.status {
                UprimerpayPaymentStatus::Succeed => IncomingWebhookEvent::PaymentIntentAuthorizationSuccess,
                UprimerpayPaymentStatus::Failed
                | UprimerpayPaymentStatus::Failure
                | UprimerpayPaymentStatus::Declined
                | UprimerpayPaymentStatus::Cancelled
                | UprimerpayPaymentStatus::Canceled => IncomingWebhookEvent::PaymentIntentAuthorizationFailure,
                UprimerpayPaymentStatus::Pending
                | UprimerpayPaymentStatus::Processing
                | UprimerpayPaymentStatus::RetryPending
                | UprimerpayPaymentStatus::RequestCustomerAction => IncomingWebhookEvent::PaymentIntentProcessing,
                UprimerpayPaymentStatus::Unknown => IncomingWebhookEvent::EventNotSupported,
            },
            UprimerpayWebhookTransactionType::Capture => match notification.status {
                UprimerpayPaymentStatus::Succeed => IncomingWebhookEvent::PaymentIntentCaptureSuccess,
                UprimerpayPaymentStatus::Failed
                | UprimerpayPaymentStatus::Failure
                | UprimerpayPaymentStatus::Declined
                | UprimerpayPaymentStatus::Cancelled
                | UprimerpayPaymentStatus::Canceled => IncomingWebhookEvent::PaymentIntentCaptureFailure,
                UprimerpayPaymentStatus::Pending
                | UprimerpayPaymentStatus::Processing
                | UprimerpayPaymentStatus::RetryPending
                | UprimerpayPaymentStatus::RequestCustomerAction => IncomingWebhookEvent::PaymentIntentProcessing,
                UprimerpayPaymentStatus::Unknown => IncomingWebhookEvent::EventNotSupported,
            },
            UprimerpayWebhookTransactionType::Sale => match notification.status {
                UprimerpayPaymentStatus::Succeed => IncomingWebhookEvent::PaymentIntentSuccess,
                UprimerpayPaymentStatus::Failed
                | UprimerpayPaymentStatus::Failure
                | UprimerpayPaymentStatus::Declined
                | UprimerpayPaymentStatus::Cancelled
                | UprimerpayPaymentStatus::Canceled => IncomingWebhookEvent::PaymentIntentFailure,
                UprimerpayPaymentStatus::Pending
                | UprimerpayPaymentStatus::Processing
                | UprimerpayPaymentStatus::RetryPending
                | UprimerpayPaymentStatus::RequestCustomerAction => IncomingWebhookEvent::PaymentIntentProcessing,
                UprimerpayPaymentStatus::Unknown => IncomingWebhookEvent::EventNotSupported,
            },
            UprimerpayWebhookTransactionType::Unknown => IncomingWebhookEvent::EventNotSupported,
        };
        Ok(event)
    }

    /// The notification itself, as the webhook's resource object.
    /// `notification` is `None` when the webhook body is not a notification.
    pub fn get_webhook_resource_object(
        &self,
        notification: Option<UprimerpayWebhookNotification>,
    ) -> (res: Result<UprimerpayWebhookNotification, ConnectorError>)
        ensures
            match notification {
                None => res matches Err(ConnectorError::WebhookResourceObjectNotFound),
                Some(n) => res == Ok::<UprimerpayWebhookNotification, ConnectorError>(n),
            },
    {
        match notification {
            Some(n) => Ok(n),
            None => Err(ConnectorError::WebhookResourceObjectNotFound),
        }
    }

    /// Every webhook is acknowledged with the plain text `SUCCESS`.
    pub fn get_webhook_api_response(&self) -> (res: ApplicationResponse)
        ensures
            res matches ApplicationResponse::TextPlain(s) && s@ == "SUCCESS"@,
    {
        ApplicationResponse::TextPlain(String::from_str("SUCCESS"))
    }

    /// Webhook signatures must always be checked.
    pub fn is_webhook_source_verification_mandatory(&self) -> (r: bool)
        ensures
            r,
    {
        true
    }
}

/// Header names the connector sends.
pub const CONTENT_TYPE: &'static str = "Content-Type";
pub const AUTHORIZATION: &'static str = "Authorization";
pub const X_ACCESS_CODE: &'static str = "X-AccessCode";
pub const X_SECRET_KEY: &'static str = "X-SecretKey";
/// The connector's name.
pub const CONNECTOR_ID: &'static str = "uprimerpay";
/// The content type of request bodies.
pub const CONTENT_TYPE_JSON: &'static str = "application/json";

/// A header value, marked when it must be masked in logs.
#[derive(Clone, Debug)]
pub enum Maskable {
    Masked(String),
    Normal(String),
}

/// An outgoing HTTP request. `default_headers` asks the client to add its
/// default headers.
#[derive(Clone, Debug)]
pub struct Request {
    pub method: Method,
    pub url: String,
    pub default_headers: bool,
    pub headers: Vec<(String, Maskable)>,
    pub body: Option<String>,
}

/// The unit amounts are given in.
#[derive(Clone, Copy, Debug, PartialEq, Eq, Structural)]
pub enum CurrencyUnit {
    Base,
    Minor,
}

/// A header with the given name and value, masked or not.
pub open spec fn header_is(h: (String, Maskable), name: Seq<char>, value: Seq<char>, masked: bool) -> bool {
    &&& h.0@ == name
    &&& if masked {
        h.1 matches Maskable::Masked(v) && v@ == value
    } else {
        h.1 matches Maskable::Normal(v) && v@ == value
    }
}

/// The credential headers: the access code and the secret key, both masked.
pub open spec fn auth_headers_match(h: Seq<(String, Maskable)>, access_code: Seq<char>, secret: Seq<char>) -> bool {
    &&& h.len() == 2
    &&& header_is(h[0], X_ACCESS_CODE@, access_code, true)
    &&& header_is(h[1], X_SECRET_KEY@, secret, true)
}

/// The headers of a call: the JSON content type, the credential headers and,
/// when asked for, the bearer token.
pub open spec fn headers_match(
    h: Seq<(String, Maskable)>,
    access_code: Seq<char>,
    secret: Seq<char>,
    bearer: Option<Seq<char>>,
) -> bool {
    &&& h.len() == (if bearer is Some { 4int } else { 3int })
    &&& header_is(h[0], CONTENT_TYPE@, CONTENT_TYPE_JSON@, false)
    &&& header_is(h[1], X_ACCESS_CODE@, access_code, true)
    &&& header_is(h[2], X_SECRET_KEY@, secret, true)
    &&& bearer matches Some(t) ==> header_is(h[3], AUTHORIZATION@, "Bearer "@ + t, true)
}

/// A signed POST of a body to a URL: the call's headers with the bearer
/// token, then the body's signature under the secret, masked.
pub open spec fn signed_request_matches(
    r: Request,
    access_code: Seq<char>,
    secret: Seq<char>,
    token: Seq<char>,
    url: Seq<char>,
    body: Seq<char>,
) -> bool {
    &&& r.method == Method::Post
    &&& r.url@ == url
    &&& r.default_headers
    &&& opt_view(r.body) == Some(body)
    &&& r.headers@.len() == 5
    &&& headers_match(r.headers@.take(4), access_code, secret, Some(token))
    &&& header_is(r.headers@[4], X_SIGNATURE@, spec_signature(vstd::utf8::encode_utf8(body), secret), true)
}

/// The outcome of building the headers of a call from the merchant's
/// credentials and access token.
pub open spec fn headers_outcome(
    res: Result<Vec<(String, Maskable)>, ConnectorError>,
    auth_type: ConnectorAuthType,
    access_token: Option<AccessToken>,
    include_bearer_token: bool,
) -> bool {
    match spec_auth(auth_type) {
        None => res matches Err(ConnectorError::FailedToObtainAuthType),
        Some((_, code, secret)) => if include_bearer_token {
            match access_token {
                None => res matches Err(ConnectorError::FailedToObtainAuthType),
                Some(t) => res matches Ok(h) && headers_match(h@, code, secret, Some(t.token@)),
            }
        } else {
            res matches Ok(h) && headers_match(h@, code, secret, None)
        },
    }
}

impl Uprimerpay {
    /// The connector's name.
    pub fn id(&self) -> (r: &'static str)
        ensures
            r@ == CONNECTOR_ID@,
    {
        CONNECTOR_ID
    }

    /// Amounts go to the gateway in minor units.
    pub fn get_currency_unit(&self) -> (r: CurrencyUnit)
        ensures
            r == CurrencyUnit::Minor,
    {
        CurrencyUnit::Minor
    }

    /// Request bodies are JSON.
    pub fn common_get_content_type(&self) -> (r: &'static str)
        ensures
            r@ == CONTENT_TYPE_JSON@,
    {
        CONTENT_TYPE_JSON
    }

    /// The gateway's base URL from the connector settings.
    pub fn base_url<'a>(&self, connectors: &'a Connectors) -> (r: &'a str)
        ensures
            r@ == connectors.uprimerpay.base_url@,
    {
        connectors.uprimerpay.base_url.as_str()
    }

    /// The credential headers of the merchant's account.
    pub fn get_auth_header(&self, auth_type: &ConnectorAuthType) -> (res: Result<Vec<(String, Maskable)>, ConnectorError>)
        ensures
            match spec_auth(*auth_type) {
                None => res matches Err(ConnectorError::FailedToObtainAuthType),
                Some((_, code, secret)) => res matches Ok(h) && auth_headers_match(h@, code, secret),
            },
    {
        let auth = UprimerpayAuthType::try_from(auth_type)?;
        let mut headers: Vec<(String, Maskable)> = Vec::new();
        headers.push((String::from_str(X_ACCESS_CODE), Maskable::Masked(auth.access_code)));
        headers.push((String::from_str(X_SECRET_KEY), Maskable::Masked(auth.secret_key)));
        Ok(headers)
    }

    /// The headers of a call; a bearer-token header is added when asked for,
    /// and then an access token is required.
    pub fn build_uprimerpay_headers(
        &self,
        auth_type: &ConnectorAuthType,
        access_token: &Option<AccessToken>,
        include_bearer_token: bool,
    ) -> (res: Result<Vec<(String, Maskable)>, ConnectorError>)
        ensures
            headers_outcome(res, *auth_type, *access_token, include_bearer_token),
    {
        let auth = UprimerpayAuthType::try_from(auth_type)?;
        let mut headers: Vec<(String, Maskable)> = Vec::new();
        headers.push((String::from_str(CONTENT_TYPE), Maskable::Normal(String::from_str(CONTENT_TYPE_JSON))));
        headers.push((String::from_str(X_ACCESS_CODE), Maskable::Masked(auth.access_code)));
        headers.push((String::from_str(X_SECRET_KEY), Maskable::Masked(auth.secret_key)));
        if include_bearer_token {
            let token = match access_token {
                Some(t) => t,
                None => return Err(ConnectorError::FailedToObtainAuthType),
            };
            let mut bearer = String::from_str("Bearer ");
            bearer.append(token.token.as_str());
            headers.push((String::from_str(AUTHORIZATION), Maskable::Masked(bearer)));
        }
        Ok(headers)
    }

    /// The headers of every call but the access-token request.
    pub fn build_headers(&self, auth_type: &ConnectorAuthType, access_token: &Option<AccessToken>) -> (res: Result<Vec<(String, Maskable)>, ConnectorError>)
        ensures
            headers_outcome(res, *auth_type, *access_token, true),
    {
        self.build_uprimerpay_headers(auth_type, access_token, true)
    }

    /// The signature of a request body under the merchant's secret key.
    pub fn get_signature(&self, auth_type: &ConnectorAuthType, body: &str) -> (res: Result<String, ConnectorError>)
        ensures
            match spec_auth(*auth_type) {
                None => res matches Err(ConnectorError::FailedToObtainAuthType),
                Some((_, _, secret)) => res matches Ok(s)
                    && s@ == spec_signature(vstd::utf8::encode_utf8(body@), secret) && s@.len() == 32,
            },
    {
        let auth = UprimerpayAuthType::try_from(auth_type)?;
        Ok(sign_payload(body.as_bytes(), auth.secret_key.as_str()))
    }

    /// A signed POST request: the call's headers with the bearer token, then
    /// the body's signature, and the body.
    pub fn build_signed_request(
        &self,
        auth_type: &ConnectorAuthType,
        access_token: &Option<AccessToken>,
        url: String,
        body: String,
    ) -> (res: Result<Option<Request>, ConnectorError>)
        ensures
            match spec_auth(*auth_type) {
                None => res matches Err(ConnectorError::FailedToObtainAuthType),
                Some((_, code, secret)) => match access_token {
                    None => res matches Err(ConnectorError::FailedToObtainAuthType),
                    Some(t) => res matches Ok(Some(r)) && signed_request_matches(r, code, secret, t.token@, url@, body@),
                },
            },
    {
        let mut headers = self.build_uprimerpay_headers(auth_type, access_token, true)?;
        let signature = self.get_signature(auth_type, body.as_str())?;
        let ghost before = headers@;
        headers.push((String::from_str(X_SIGNATURE), Maskable::Masked(signature)));
        assert(headers@.take(4) =~= before);
        Ok(Some(Request { method: Method::Post, url, default_headers: true, headers, body: Some(body) }))
    }

    /// Only automatic capture (also when unspecified) and sequential
    /// automatic capture are supported.
    pub fn validate_connector_against_payment_request(
        &self,
        capture_method: Option<CaptureMethod>,
    ) -> (res: Result<(), ConnectorError>)
        ensures
            accepts_capture_method(capture_method) ==> res is Ok,
            !accepts_capture_method(capture_method) ==> (capture_method matches Some(m)
                && res matches Err(ConnectorError::NotSupported { message, connector })
                && message@ == capture_method_name(m) && connector@ == CONNECTOR_ID@),
    {
        let method = match capture_method {
            Some(m) => m,
            None => CaptureMethod::Automatic,
        };
        match method {
            CaptureMethod::Automatic | CaptureMethod::SequentialAutomatic => Ok(()),
            _ => Err(ConnectorError::NotSupported {
                message: capture_method_to_string(method),
                connector: String::from_str(self.id()),
            }),
        }
    }

    /// Status queries need no reference id check.
    pub fn validate_psync_reference_id(&self) -> (res: Result<(), ConnectorError>)
        ensures
            res is Ok,
    {
        Ok(())
    }
}

/// The capture methods a payment may ask for: automatic (also when none is
/// given) and sequential automatic.
pub open spec fn accepts_capture_method(m: Option<CaptureMethod>) -> bool {
    match m {
        None => true,
        Some(m) => m == CaptureMethod::Automatic || m == CaptureMethod::SequentialAutomatic,
    }
}

/// The snake-case name of a capture method.
pub open spec fn capture_method_name(m: CaptureMethod) -> Seq<char> {
    match m {
        CaptureMethod::Automatic => "automatic"@,
        CaptureMethod::Manual => "manual"@,
        CaptureMethod::ManualMultiple => "manual_multiple"@,
        CaptureMethod::Scheduled => "scheduled"@,
        CaptureMethod::SequentialAutomatic => "sequential_automatic"@,
    }
}

/// The snake-case name of a capture method.
pub fn capture_method_to_string(m: CaptureMethod) -> (s: String)
    ensures
        s@ == capture_method_name(m),
{
    match m {
        CaptureMethod::Automatic => String::from_str("automatic"),
        CaptureMethod::Manual => String::from_str("manual"),
        CaptureMethod::ManualMultiple => String::from_str("manual_multiple"),
        CaptureMethod::Scheduled => String::from_str("scheduled"),
        CaptureMethod::SequentialAutomatic => String::from_str("sequential_automatic"),
    }
}

} // verus!
