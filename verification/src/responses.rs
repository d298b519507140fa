//! Gateway replies to payment, refund and access-token calls, and what the
//! router records from them.
use vstd::prelude::*;
use crate::errors::ConnectorError;
use crate::router_data::{clone_opt_string, opt_view, AccessToken, Method, ResponseId, SyncRequestType};
use crate::status::{
    attempt_status_from, get_refund_status, spec_attempt_status, spec_refund_status, AttemptStatus,
    RefundStatus, UprimerpayPaymentStatus,
};
use crate::text::{eq_ignore_ascii_case, str_eq_ignore_ascii_case};

verus! {

/// The reply to an access-token request.
#[derive(Clone, Debug)]
pub struct UprimerpayAccessTokenResponse {
    pub code: String,
    pub msg: Option<String>,
    pub data: Option<UprimerpayAccessTokenData>,
    pub success: Option<bool>,
}

/// The token in an access-token reply, with its lifetime in seconds.
#[derive(Clone, Debug)]
pub struct UprimerpayAccessTokenData {
    pub token: String,
    pub expire_in: Option<i64>,
}

/// The kind of follow-up a payment needs. Any kind the gateway sends that
/// is not listed maps to `Unknown`.
#[derive(Clone, Copy, Debug, PartialEq, Eq, Structural)]
pub enum UprimerpayNextActionType {
    Redirect,
    Unknown,
}

/// A follow-up the customer must take, such as a 3-D Secure redirect. Its
/// url, as text, gives a redirect form only when it parses as a URL.
#[derive(Clone, Debug)]
pub struct UprimerpayNextAction {
    pub action_type: Option<UprimerpayNextActionType>,
    pub url: Option<String>,
    pub method: Option<String>,
}

/// The transaction in a payment reply.
#[derive(Clone, Debug)]
pub struct UprimerpayPaymentData {
    pub request_id: Option<String>,
    pub merchant_order_id: Option<String>,
    pub id: String,
    pub status: UprimerpayPaymentStatus,
    pub error_code: Option<String>,
    pub error_message: Option<String>,
    pub next_action: Option<UprimerpayNextAction>,
}

/// The reply to a payment request or a payment status query.
#[derive(Clone, Debug)]
pub struct UprimerpayPaymentsResponse {
    pub code: String,
    pub msg: Option<String>,
    pub data: Option<UprimerpayPaymentData>,
    pub success: Option<bool>,
}

/// The refund in a refund reply.
#[derive(Clone, Debug)]
pub struct UprimerpayRefundData {
    pub request_id: Option<String>,
    pub merchant_order_id: Option<String>,
    pub id: String,
    pub status: Option<UprimerpayPaymentStatus>,
    pub error_code: Option<String>,
    pub error_message: Option<String>,
}

/// The reply to a refund request or a refund status query.
#[derive(Clone, Debug)]
pub struct UprimerpayRefundResponse {
    pub code: String,
    pub msg: Option<String>,
    pub data: Option<UprimerpayRefundData>,
    pub success: Option<bool>,
}

/// A form the customer's browser is sent to: the URL without its query, the
/// method, and the query's fields, each key once with the last value the
/// query gives it, in the order the keys first appear.
#[derive(Clone, Debug)]
pub enum RedirectForm {
    Form { endpoint: String, method: Method, form_fields: Vec<(String, String)> },
}

/// What the router records from a payment reply.
#[derive(Clone, Debug)]
pub enum PaymentsResponseData {
    TransactionResponse {
        resource_id: ResponseId,
        redirection_data: Option<RedirectForm>,
        connector_response_reference_id: Option<String>,
    },
}

/// The attempt status and the recorded data of a payment reply.
#[derive(Clone, Debug)]
pub struct PaymentsResponseOutcome {
    pub status: AttemptStatus,
    pub response: PaymentsResponseData,
}

/// What the router records from a refund reply.
#[derive(Clone, Debug)]
pub struct RefundsResponseData {
    pub connector_refund_id: String,
    pub refund_status: RefundStatus,
}

// ---------------------------------------------------------------------------
// URLs.

/// The query of a URL as key/value pairs, decoded, in order, as the `url`
/// crate reads it; `None` when the text is not a URL.
pub uninterp spec fn url_query_pairs(url: Seq<char>) -> Option<Seq<(Seq<char>, Seq<char>)>>;

/// A URL with its query removed, as the `url` crate serializes it; `None`
/// when the text is not a URL.
pub uninterp spec fn url_without_query(url: Seq<char>) -> Option<Seq<char>>;

/// The view of a list of string pairs.
pub open spec fn pairs_view(v: Seq<(String, String)>) -> Seq<(Seq<char>, Seq<char>)> {
    v.map_values(|p: (String, String)| (p.0@, p.1@))
}

/// `url::Url::parse` then `query_pairs`: the decoded query pairs of a URL.
#[verifier::external_body]
fn parse_query_pairs(url: &str) -> (r: Option<Vec<(String, String)>>)
    ensures
        match r {
            Some(v) => url_query_pairs(url@) == Some(pairs_view(v@)),
            None => url_query_pairs(url@) is None,
        },
{
    let parsed = url::Url::parse(url).ok()?;
    Some(parsed.query_pairs().map(|(k, v)| (k.to_string(), v.to_string())).collect())
}

/// `url::Url::parse` then `set_query(None)`: the URL without its query.
#[verifier::external_body]
fn parse_without_query(url: &str) -> (r: Option<String>)
    ensures
        opt_view(r) == url_without_query(url@),
{
    let mut parsed = url::Url::parse(url).ok()?;
    parsed.set_query(None);
    Some(parsed.to_string())
}

// ---------------------------------------------------------------------------
// Form fields.

/// No key occurs twice.
pub open spec fn distinct_keys(p: Seq<(Seq<char>, Seq<char>)>) -> bool {
    forall|i: int, j: int| 0 <= i < p.len() && 0 <= j < p.len() && i != j ==> #[trigger] p[i].0 != #[trigger] p[j].0
}

/// Key/value pairs read into a map in order: a later value for a key
/// replaces an earlier one.
pub open spec fn pairs_map(p: Seq<(Seq<char>, Seq<char>)>) -> Map<Seq<char>, Seq<char>>
    decreases p.len(),
{
    if p.len() == 0 {
        Map::empty()
    } else {
        pairs_map(p.drop_last()).insert(p.last().0, p.last().1)
    }
}

proof fn lemma_pairs_map_update(p: Seq<(Seq<char>, Seq<char>)>, j: int, v: Seq<char>)
    requires
        distinct_keys(p),
        0 <= j < p.len(),
    ensures
        pairs_map(p.update(j, (p[j].0, v))) == pairs_map(p).insert(p[j].0, v),
    decreases p.len(),
{
    let q = p.update(j, (p[j].0, v));
    if j == p.len() - 1 {
        assert(q.drop_last() =~= p.drop_last());
        assert(pairs_map(q) =~= pairs_map(p).insert(p[j].0, v));
    } else {
        let d = p.drop_last();
        assert(distinct_keys(d)) by {
            assert forall|a: int, b: int| 0 <= a < d.len() && 0 <= b < d.len() && a != b implies #[trigger] d[a].0 != #[trigger] d[b].0 by {
                assert(d[a] == p[a] && d[b] == p[b]);
            }
        }
        lemma_pairs_map_update(d, j, v);
        assert(q.drop_last() =~= d.update(j, (d[j].0, v)));
        assert(q.last() == p.last());
        assert(p[j].0 != p[p.len() - 1].0);
        assert(pairs_map(q) =~= pairs_map(p).insert(p[j].0, v));
    }
}

/// Keeps one field per key: its last value, at its key's first place.
fn last_value_per_key(fields: Vec<(String, String)>) -> (r: Vec<(String, String)>)
    ensures
        distinct_keys(pairs_view(r@)),
        pairs_map(pairs_view(r@)) == pairs_map(pairs_view(fields@)),
{
    let mut out: Vec<(String, String)> = Vec::new();
    let n = fields.len();
    let mut i: usize = 0;
    while i < n
        invariant
            n == fields@.len(),
            i <= n,
            distinct_keys(pairs_view(out@)),
            pairs_map(pairs_view(out@)) == pairs_map(pairs_view(fields@.take(i as int))),
        decreases n - i,
    {
        let key = fields[i].0.clone();
        let value = fields[i].1.clone();
        let ghost before = pairs_view(out@);
        proof {
            assert(pairs_view(fields@.take(i + 1)).drop_last() =~= pairs_view(fields@.take(i as int)));
            assert(pairs_view(fields@.take(i + 1)).last() == (key@, value@));
        }
        let m = out.len();
        let mut j: usize = 0;
        let mut found = false;
        while j < m && !found
            invariant
                m == out@.len(),
                j <= m,
                before == pairs_view(out@),
                !found ==> forall|t: int| 0 <= t < j ==> before[t].0 != key@,
                found ==> j < m && before[j as int].0 == key@,
            decreases m - j + (if found { 0int } else { 1int }),
        {
            if out[j].0 == key {
                found = true;
            } else {
                j = j + 1;
            }
        }
        if found {
            proof {
                lemma_pairs_map_update(before, j as int, value@);
            }
            out.set(j, (key, value));
            proof {
                assert(pairs_view(out@) =~= before.update(j as int, (before[j as int].0, value@)));
                assert forall|a: int, b: int| 0 <= a < out@.len() && 0 <= b < out@.len() && a != b
                    implies #[trigger] pairs_view(out@)[a].0 != #[trigger] pairs_view(out@)[b].0 by {
                    assert(pairs_view(out@)[a].0 == before[a].0);
                    assert(pairs_view(out@)[b].0 == before[b].0);
                }
            }
        } else {
            out.push((key, value));
            proof {
                assert(pairs_view(out@) =~= before.push((key@, value@)));
                assert(pairs_view(out@).drop_last() =~= before);
                assert forall|a: int, b: int| 0 <= a < out@.len() && 0 <= b < out@.len() && a != b
                    implies #[trigger] pairs_view(out@)[a].0 != #[trigger] pairs_view(out@)[b].0 by {
                    if a < m && b < m {
                        assert(pairs_view(out@)[a] == before[a]);
                        assert(pairs_view(out@)[b] == before[b]);
                    } else if a < m {
                        assert(pairs_view(out@)[a] == before[a]);
                    } else {
                        assert(pairs_view(out@)[b] == before[b]);
                    }
                }
            }
        }
        i = i + 1;
    }
    proof {
        assert(fields@.take(n as int) =~= fields@);
    }
    out
}

// ---------------------------------------------------------------------------
// Payments.

/// The redirect form of a payment: present when the gateway gave a next
/// action with a URL; posted when the action's method is `POST` in any
/// case, fetched otherwise.
pub open spec fn redirection_matches(r: Option<RedirectForm>, d: UprimerpayPaymentData) -> bool {
    match d.next_action {
        Some(a) => match a.url {
            Some(u) => match (url_without_query(u@), url_query_pairs(u@)) {
                (Some(endpoint), Some(fields)) => r matches Some(RedirectForm::Form { endpoint: e, method: m, form_fields: f })
                    && e@ == endpoint
                    && distinct_keys(pairs_view(f@)) && pairs_map(pairs_view(f@)) == pairs_map(fields)
                    && m == (if (a.method matches Some(x) && eq_ignore_ascii_case(x@, "POST"@)) {
                        Method::Post
                    } else {
                        Method::Get
                    }),
                _ => r is None,
            },
            None => r is None,
        },
        None => r is None,
    }
}

/// The redirect form of a payment, if the gateway asks for one.
pub fn get_redirection_data(payment_data: &UprimerpayPaymentData) -> (r: Option<RedirectForm>)
    ensures
        redirection_matches(r, *payment_data),
{
    match &payment_data.next_action {
        None => None,
        Some(action) => match &action.url {
            None => None,
            Some(u) => {
                let method = match &action.method {
                    Some(m) => if str_eq_ignore_ascii_case(m.as_str(), "POST") {
                        Method::Post
                    } else {
                        Method::Get
                    },
                    None => Method::Get,
                };
                let endpoint = parse_without_query(u.as_str());
                let fields = parse_query_pairs(u.as_str());
                match (endpoint, fields) {
                    (Some(endpoint), Some(fields)) => Some(RedirectForm::Form {
                        endpoint,
                        method,
                        form_fields: last_value_per_key(fields),
                    }),
                    _ => None,
                }
            },
        },
    }
}

/// The recorded data of a payment reply's transaction: its id, its redirect
/// form, and the merchant order id (else the request id) as reference.
pub open spec fn transaction_matches(o: PaymentsResponseOutcome, d: UprimerpayPaymentData) -> bool {
    &&& o.status == spec_attempt_status(d.status)
    &&& o.response matches PaymentsResponseData::TransactionResponse {
        resource_id, redirection_data, connector_response_reference_id }
        && resource_id matches ResponseId::ConnectorTransactionId(id) && id@ == d.id@
        && redirection_matches(redirection_data, d)
        && opt_view(connector_response_reference_id) == (match d.merchant_order_id {
            Some(m) => Some(m@),
            None => opt_view(d.request_id),
        })
}

/// The gateway transaction id recorded from a payment reply.
pub open spec fn outcome_transaction_id(o: PaymentsResponseOutcome) -> Option<Seq<char>> {
    match o.response {
        PaymentsResponseData::TransactionResponse { resource_id, .. } => match resource_id {
            ResponseId::ConnectorTransactionId(id) => Some(id@),
            _ => None,
        },
    }
}

/// A redirect form as values: endpoint, method, and fields as a map.
pub open spec fn redirect_view(r: Option<RedirectForm>) -> Option<(Seq<char>, Method, Map<Seq<char>, Seq<char>>)> {
    match r {
        Some(RedirectForm::Form { endpoint, method, form_fields }) =>
            Some((endpoint@, method, pairs_map(pairs_view(form_fields@)))),
        None => None,
    }
}

/// The redirect form recorded from a payment reply.
pub open spec fn outcome_redirect(o: PaymentsResponseOutcome) -> Option<(Seq<char>, Method, Map<Seq<char>, Seq<char>>)> {
    match o.response {
        PaymentsResponseData::TransactionResponse { redirection_data, .. } => redirect_view(redirection_data),
    }
}

/// The reference recorded from a payment reply.
pub open spec fn outcome_reference(o: PaymentsResponseOutcome) -> Option<Seq<char>> {
    match o.response {
        PaymentsResponseData::TransactionResponse { connector_response_reference_id, .. } =>
            opt_view(connector_response_reference_id),
    }
}

/// The transaction of a payment reply; a reply without one cannot be read.
pub fn get_payment_response_data(response: &UprimerpayPaymentsResponse) -> (res: Result<&UprimerpayPaymentData, ConnectorError>)
    ensures
        match response.data {
            Some(d) => res matches Ok(x) && *x == d,
            None => res matches Err(ConnectorError::ResponseDeserializationFailed),
        },
{
    match &response.data {
        Some(d) => Ok(d),
        None => Err(ConnectorError::ResponseDeserializationFailed),
    }
}

fn transaction_outcome(payment_data: &UprimerpayPaymentData) -> (o: PaymentsResponseOutcome)
    ensures
        transaction_matches(o, *payment_data),
{
    let status = attempt_status_from(payment_data.status);
    let reference = match &payment_data.merchant_order_id {
        Some(m) => Some(m.clone()),
        None => clone_opt_string(&payment_data.request_id),
    };
    PaymentsResponseOutcome {
        status,
        response: PaymentsResponseData::TransactionResponse {
            resource_id: ResponseId::ConnectorTransactionId(payment_data.id.clone()),
            redirection_data: get_redirection_data(payment_data),
            connector_response_reference_id: reference,
        },
    }
}

/// What an authorization records from the gateway's reply.
pub fn payments_authorize_from_response(response: &UprimerpayPaymentsResponse) -> (res: Result<PaymentsResponseOutcome, ConnectorError>)
    ensures
        match response.data {
            Some(d) => res matches Ok(o) && transaction_matches(o, d),
            None => res matches Err(ConnectorError::ResponseDeserializationFailed),
        },
{
    let payment_data = get_payment_response_data(response)?;
    Ok(transaction_outcome(payment_data))
}

/// What a status query records from the gateway's reply; only single
/// payment queries are supported.
pub fn payments_sync_from_response(
    sync_type: &SyncRequestType,
    response: &UprimerpayPaymentsResponse,
) -> (res: Result<PaymentsResponseOutcome, ConnectorError>)
    ensures
        match sync_type {
            SyncRequestType::MultipleCaptureSync(_) => res matches Err(ConnectorError::NotImplemented(m))
                && m@ == "manual multiple capture sync"@,
            SyncRequestType::SinglePaymentSync => match response.data {
                Some(d) => res matches Ok(o) && transaction_matches(o, d),
                None => res matches Err(ConnectorError::ResponseDeserializationFailed),
            },
        },
{
    match sync_type {
        SyncRequestType::SinglePaymentSync => {
            let payment_data = get_payment_response_data(response)?;
            Ok(transaction_outcome(payment_data))
        },
        SyncRequestType::MultipleCaptureSync(_) => Err(ConnectorError::NotImplemented(
            String::from_str("manual multiple capture sync"),
        )),
    }
}

// ---------------------------------------------------------------------------
// Refunds.

/// The refund of a refund reply; a reply without one cannot be read.
pub fn get_refund_response_data(response: &UprimerpayRefundResponse) -> (res: Result<&UprimerpayRefundData, ConnectorError>)
    ensures
        match response.data {
            Some(d) => res matches Ok(x) && *x == d,
            None => res matches Err(ConnectorError::ResponseDeserializationFailed),
        },
{
    match &response.data {
        Some(d) => Ok(d),
        None => Err(ConnectorError::ResponseDeserializationFailed),
    }
}

/// The recorded data of a refund: the gateway's id and the refund status.
pub open spec fn refund_matches(r: RefundsResponseData, d: UprimerpayRefundData) -> bool {
    &&& r.connector_refund_id@ == d.id@
    &&& r.refund_status == spec_refund_status(d.status)
}

/// What a refund records from the gateway's reply.
pub fn refund_execute_from_response(response: &UprimerpayRefundResponse) -> (res: Result<RefundsResponseData, ConnectorError>)
    ensures
        match response.data {
            Some(d) => res matches Ok(r) && refund_matches(r, d),
            None => res matches Err(ConnectorError::ResponseDeserializationFailed),
        },
{
    let refund_data = get_refund_response_data(response)?;
    Ok(RefundsResponseData {
        connector_refund_id: refund_data.id.clone(),
        refund_status: get_refund_status(refund_data.status),
    })
}

/// What a refund status query records from the gateway's reply.
pub fn refund_sync_from_response(response: &UprimerpayRefundResponse) -> (res: Result<RefundsResponseData, ConnectorError>)
    ensures
        match response.data {
            Some(d) => res matches Ok(r) && refund_matches(r, d),
            None => res matches Err(ConnectorError::ResponseDeserializationFailed),
        },
{
    let refund_data = get_refund_response_data(response)?;
    Ok(RefundsResponseData {
        connector_refund_id: refund_data.id.clone(),
        refund_status: get_refund_status(refund_data.status),
    })
}

// ---------------------------------------------------------------------------
// Access tokens.

/// The lifetime assumed for a token whose reply gives none, in seconds.
pub const DEFAULT_TOKEN_EXPIRY: i64 = 3600;

/// The access token of a reply: its token, valid for the reply's lifetime or
/// for an hour; a reply without token data cannot be read.
pub fn access_token_from_response(response: &UprimerpayAccessTokenResponse) -> (res: Result<AccessToken, ConnectorError>)
    ensures
        match response.data {
            Some(d) => res matches Ok(t) && t.token@ == d.token@
                && t.expires == (match d.expire_in { Some(e) => e, None => DEFAULT_TOKEN_EXPIRY }),
            None => res matches Err(ConnectorError::ResponseDeserializationFailed),
        },
{
    match &response.data {
        Some(d) => Ok(AccessToken {
            token: d.token.clone(),
            expires: match d.expire_in {
                Some(e) => e,
                None => DEFAULT_TOKEN_EXPIRY,
            },
        }),
        None => Err(ConnectorError::ResponseDeserializationFailed),
    }
}

} // verus!
