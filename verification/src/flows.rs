//! The connector's calls: access token, authorization, payment status,
//! refund and refund status. Each builds its request and reads its reply.
use vstd::prelude::*;
use crate::auth::spec_auth;
use crate::connector::{headers_outcome, signed_request_matches, Maskable, Request, Uprimerpay};
use crate::errors::ConnectorError;
use crate::requests::{
    is_timestamp,
    payments_request_check, payments_request_matches, refund_request_matches, error_for_check,
    PaymentsRequestCheck, UprimerpayPaymentsRequest, UprimerpayRefundRequest, UprimerpayRouterData,
};
use crate::responses::{
    access_token_from_response, payments_authorize_from_response, payments_sync_from_response,
    refund_execute_from_response, refund_matches, refund_sync_from_response, transaction_matches,
    PaymentsResponseOutcome, RefundsResponseData, UprimerpayAccessTokenResponse,
    UprimerpayPaymentsResponse, UprimerpayRefundResponse,
};
use crate::router_data::{
    AccessToken, Connectors, Method, PaymentMethodData, PaymentsAuthorizeRouterData,
    PaymentsSyncRouterData, RefreshTokenRouterData, RefundsRouterData, ResponseId, SyncRequestType,
};

verus! {

/// A request without a body: the method, the URL, the client's default
/// headers, and the call's headers as built from the credentials.
pub open spec fn plain_request_matches(
    r: Request,
    method: Method,
    url: Seq<char>,
    auth_type: crate::auth::ConnectorAuthType,
    access_token: Option<AccessToken>,
    include_bearer_token: bool,
) -> bool {
    &&& r.method == method
    &&& r.url@ == url
    &&& r.default_headers
    &&& r.body is None
    &&& headers_outcome(Ok::<Vec<(String, Maskable)>, ConnectorError>(r.headers), auth_type, access_token, include_bearer_token)
}

fn concat(a: &str, b: &str) -> (r: String)
    ensures
        r@ == a@ + b@,
{
    let mut s = String::from_str(a);
    s.append(b);
    s
}

fn concat3(a: &str, b: &str, c: &str) -> (r: String)
    ensures
        r@ == a@ + b@ + c@,
{
    let mut s = String::from_str(a);
    s.append(b);
    s.append(c);
    s
}

impl Uprimerpay {
    // -- Access token ------------------------------------------------------

    /// The access-token endpoint.
    pub fn get_access_token_url(&self, connectors: &Connectors) -> (r: String)
        ensures
            r@ == connectors.uprimerpay.base_url@ + "authorize"@,
    {
        concat(self.base_url(connectors), "authorize")
    }

    /// The access-token request: a GET with the credential headers and no
    /// bearer token.
    pub fn build_access_token_request(
        &self,
        req: &RefreshTokenRouterData,
        connectors: &Connectors,
    ) -> (res: Result<Option<Request>, ConnectorError>)
        ensures
            match spec_auth(req.connector_auth_type) {
                None => res matches Err(ConnectorError::FailedToObtainAuthType),
                Some(_) => res matches Ok(Some(r)) && plain_request_matches(r, Method::Get,
                    connectors.uprimerpay.base_url@ + "authorize"@, req.connector_auth_type, None, false),
            },
    {
        let url = self.get_access_token_url(connectors);
        let headers = self.build_uprimerpay_headers(&req.connector_auth_type, &None, false)?;
        Ok(Some(Request { method: Method::Get, url, default_headers: true, headers, body: None }))
    }

    /// The access token from the gateway's reply. `response` is `None` when
    /// the reply could not be read.
    pub fn handle_access_token_response(
        &self,
        response: Option<UprimerpayAccessTokenResponse>,
    ) -> (res: Result<AccessToken, ConnectorError>)
        ensures
            match response {
                None => res matches Err(ConnectorError::ResponseDeserializationFailed),
                Some(r) => match r.data {
                    Some(d) => res matches Ok(t) && t.token@ == d.token@
                        && t.expires == (match d.expire_in { Some(e) => e, None => 3600 }),
                    None => res matches Err(ConnectorError::ResponseDeserializationFailed),
                },
            },
    {
        match response {
            Some(r) => access_token_from_response(&r),
            None => Err(ConnectorError::ResponseDeserializationFailed),
        }
    }

    // -- Authorization -----------------------------------------------------

    /// The payment-creation endpoint.
    pub fn get_authorize_url(&self, connectors: &Connectors) -> (r: String)
        ensures
            r@ == connectors.uprimerpay.base_url@ + "api/acquire/payment/create"@,
    {
        concat(self.base_url(connectors), "api/acquire/payment/create")
    }

    /// The body of an authorization: the payment request for the payment's
    /// minor amount, which goes to the gateway unchanged.
    pub fn get_authorize_request_body(&self, req: &PaymentsAuthorizeRouterData) -> (res: Result<UprimerpayPaymentsRequest, ConnectorError>)
        ensures
            match req.request.payment_method_data {
                PaymentMethodData::Card(card) => {
                    let c = payments_request_check(*req, card, true);
                    &&& c != PaymentsRequestCheck::Passed ==> (res matches Err(e) && error_for_check(e, c))
                    &&& c == PaymentsRequestCheck::Passed ==> (
                        res matches Ok(r) && payments_request_matches(r, req.request.minor_amount, *req, card, r.order_time@)
                            && is_timestamp(r.order_time@))
                },
                _ => res matches Err(ConnectorError::NotImplemented(m)) && m@ == "Selected payment method through Uprimerpay"@,
            },
    {
        let amount = req.request.minor_amount;
        let connector_router_data = UprimerpayRouterData::from((amount, req));
        UprimerpayPaymentsRequest::try_from(&connector_router_data)
    }

    /// The authorization request: a signed POST of the serialized body.
    pub fn build_authorize_request(
        &self,
        req: &PaymentsAuthorizeRouterData,
        connectors: &Connectors,
        body: String,
    ) -> (res: Result<Option<Request>, ConnectorError>)
        ensures
            match spec_auth(req.connector_auth_type) {
                None => res matches Err(ConnectorError::FailedToObtainAuthType),
                Some((_, code, secret)) => match req.access_token {
                    None => res matches Err(ConnectorError::FailedToObtainAuthType),
                    Some(t) => res matches Ok(Some(r)) && signed_request_matches(r, code, secret, t.token@,
                        connectors.uprimerpay.base_url@ + "api/acquire/payment/create"@, body@),
                },
            },
    {
        let url = self.get_authorize_url(connectors);
        self.build_signed_request(&req.connector_auth_type, &req.access_token, url, body)
    }

    /// What an authorization records from the gateway's reply. `response` is
    /// `None` when the reply could not be read.
    pub fn handle_authorize_response(
        &self,
        response: Option<UprimerpayPaymentsResponse>,
    ) -> (res: Result<PaymentsResponseOutcome, ConnectorError>)
        ensures
            match response {
                None => res matches Err(ConnectorError::ResponseDeserializationFailed),
                Some(r) => match r.data {
                    Some(d) => res matches Ok(o) && transaction_matches(o, d),
                    None => res matches Err(ConnectorError::ResponseDeserializationFailed),
                },
            },
    {
        match response {
            Some(r) => payments_authorize_from_response(&r),
            None => Err(ConnectorError::ResponseDeserializationFailed),
        }
    }

    // -- Payment status ----------------------------------------------------

    /// The status endpoint of the payment the gateway knows by the stored
    /// transaction id.
    pub fn get_psync_url(&self, req: &PaymentsSyncRouterData, connectors: &Connectors) -> (res: Result<String, ConnectorError>)
        ensures
            match req.request.connector_transaction_id {
                ResponseId::ConnectorTransactionId(id) => res matches Ok(u)
                    && u@ == connectors.uprimerpay.base_url@ + "api/acquire/payment/"@ + id@ + "/get"@,
                _ => res matches Err(ConnectorError::MissingConnectorTransactionID),
            },
    {
        let id = match &req.request.connector_transaction_id {
            ResponseId::ConnectorTransactionId(id) => id,
            _ => return Err(ConnectorError::MissingConnectorTransactionID),
        };
        let prefix = concat(self.base_url(connectors), "api/acquire/payment/");
        Ok(concat3(prefix.as_str(), id.as_str(), "/get"))
    }

    /// The payment status request: a GET with the call's headers.
    pub fn build_psync_request(&self, req: &PaymentsSyncRouterData, connectors: &Connectors) -> (res: Result<Option<Request>, ConnectorError>)
        ensures
            match req.request.connector_transaction_id {
                ResponseId::ConnectorTransactionId(id) => match spec_auth(req.connector_auth_type) {
                    None => res matches Err(ConnectorError::FailedToObtainAuthType),
                    Some(_) => match req.access_token {
                        None => res matches Err(ConnectorError::FailedToObtainAuthType),
                        Some(_) => res matches Ok(Some(r)) && plain_request_matches(r, Method::Get,
                            connectors.uprimerpay.base_url@ + "api/acquire/payment/"@ + id@ + "/get"@,
                            req.connector_auth_type, req.access_token, true),
                    },
                },
                _ => res matches Err(ConnectorError::MissingConnectorTransactionID),
            },
    {
        let url = self.get_psync_url(req, connectors)?;
        let headers = self.build_headers(&req.connector_auth_type, &req.access_token)?;
        Ok(Some(Request { method: Method::Get, url, default_headers: true, headers, body: None }))
    }

    /// What a payment status query records from the gateway's reply.
    /// `response` is `None` when the reply could not be read.
    pub fn handle_psync_response(
        &self,
        data: &PaymentsSyncRouterData,
        response: Option<UprimerpayPaymentsResponse>,
    ) -> (res: Result<PaymentsResponseOutcome, ConnectorError>)
        ensures
            match response {
                None => res matches Err(ConnectorError::ResponseDeserializationFailed),
                Some(r) => match data.request.sync_type {
                    SyncRequestType::MultipleCaptureSync(_) => res matches Err(ConnectorError::NotImplemented(m))
                        && m@ == "manual multiple capture sync"@,
                    SyncRequestType::SinglePaymentSync => match r.data {
                        Some(d) => res matches Ok(o) && transaction_matches(o, d),
                        None => res matches Err(ConnectorError::ResponseDeserializationFailed),
                    },
                },
            },
    {
        match response {
            Some(r) => payments_sync_from_response(&data.request.sync_type, &r),
            None => Err(ConnectorError::ResponseDeserializationFailed),
        }
    }

    // -- Refund ------------------------------------------------------------

    /// The refund endpoint of the payment being refunded.
    pub fn get_refund_url(&self, req: &RefundsRouterData, connectors: &Connectors) -> (r: String)
        ensures
            r@ == connectors.uprimerpay.base_url@ + "api/acquire/payment/"@ + req.request.connector_transaction_id@ + "/refund"@,
    {
        let prefix = concat(self.base_url(connectors), "api/acquire/payment/");
        concat3(prefix.as_str(), req.request.connector_transaction_id.as_str(), "/refund")
    }

    /// The body of a refund: the refund request for the refund's minor
    /// amount.
    pub fn get_refund_request_body(&self, req: &RefundsRouterData) -> (res: Result<UprimerpayRefundRequest, ConnectorError>)
        ensures
            spec_auth(req.connector_auth_type) is None ==> res matches Err(ConnectorError::FailedToObtainAuthType),
            spec_auth(req.connector_auth_type) is Some ==> (
                res matches Ok(r) && refund_request_matches(r, req.request.minor_refund_amount, *req, r.refund_time@)
                    && is_timestamp(r.refund_time@)),
    {
        let amount = req.request.minor_refund_amount;
        let connector_router_data = UprimerpayRouterData::from((amount, req));
        UprimerpayRefundRequest::try_from(&connector_router_data)
    }

    /// The refund request: a signed POST of the serialized body.
    pub fn build_refund_request(
        &self,
        req: &RefundsRouterData,
        connectors: &Connectors,
        body: String,
    ) -> (res: Result<Option<Request>, ConnectorError>)
        ensures
            match spec_auth(req.connector_auth_type) {
                None => res matches Err(ConnectorError::FailedToObtainAuthType),
                Some((_, code, secret)) => match req.access_token {
                    None => res matches Err(ConnectorError::FailedToObtainAuthType),
                    Some(t) => res matches Ok(Some(r)) && signed_request_matches(r, code, secret, t.token@,
                        connectors.uprimerpay.base_url@ + "api/acquire/payment/"@
                            + req.request.connector_transaction_id@ + "/refund"@, body@),
                },
            },
    {
        let url = self.get_refund_url(req, connectors);
        self.build_signed_request(&req.connector_auth_type, &req.access_token, url, body)
    }

    /// What a refund records from the gateway's reply. `response` is `None`
    /// when the reply could not be read.
    pub fn handle_refund_response(
        &self,
        response: Option<UprimerpayRefundResponse>,
    ) -> (res: Result<RefundsResponseData, ConnectorError>)
        ensures
            match response {
                None => res matches Err(ConnectorError::ResponseDeserializationFailed),
                Some(r) => match r.data {
                    Some(d) => res matches Ok(x) && refund_matches(x, d),
                    None => res matches Err(ConnectorError::ResponseDeserializationFailed),
                },
            },
    {
        match response {
            Some(r) => refund_execute_from_response(&r),
            None => Err(ConnectorError::ResponseDeserializationFailed),
        }
    }

    // -- Refund status -----------------------------------------------------

    /// The status endpoint of the refund the gateway knows by the stored
    /// refund id.
    pub fn get_rsync_url(&self, req: &RefundsRouterData, connectors: &Connectors) -> (res: Result<String, ConnectorError>)
        ensures
            match req.request.connector_refund_id {
                Some(id) => res matches Ok(u)
                    && u@ == connectors.uprimerpay.base_url@ + "api/acquire/payment/"@ + id@ + "/get"@,
                None => res matches Err(ConnectorError::MissingConnectorTransactionID),
            },
    {
        let id = match &req.request.connector_refund_id {
            Some(id) => id,
            None => return Err(ConnectorError::MissingConnectorTransactionID),
        };
        let prefix = concat(self.base_url(connectors), "api/acquire/payment/");
        Ok(concat3(prefix.as_str(), id.as_str(), "/get"))
    }

    /// The refund status request: a GET with the call's headers.
    pub fn build_rsync_request(&self, req: &RefundsRouterData, connectors: &Connectors) -> (res: Result<Option<Request>, ConnectorError>)
        ensures
            match req.request.connector_refund_id {
                Some(id) => match spec_auth(req.connector_auth_type) {
                    None => res matches Err(ConnectorError::FailedToObtainAuthType),
                    Some(_) => match req.access_token {
                        None => res matches Err(ConnectorError::FailedToObtainAuthType),
                        Some(_) => res matches Ok(Some(r)) && plain_request_matches(r, Method::Get,
                            connectors.uprimerpay.base_url@ + "api/acquire/payment/"@ + id@ + "/get"@,
                            req.connector_auth_type, req.access_token, true),
                    },
                },
                None => res matches Err(ConnectorError::MissingConnectorTransactionID),
            },
    {
        let url = self.get_rsync_url(req, connectors)?;
        let headers = self.build_headers(&req.connector_auth_type, &req.access_token)?;
        Ok(Some(Request { method: Method::Get, url, default_headers: true, headers, body: None }))
    }

    /// What a refund status query records from the gateway's reply.
    /// `response` is `None` when the reply could not be read.
    pub fn handle_rsync_response(
        &self,
        response: Option<UprimerpayRefundResponse>,
    ) -> (res: Result<RefundsResponseData, ConnectorError>)
        ensures
            match response {
                None => res matches Err(ConnectorError::ResponseDeserializationFailed),
                Some(r) => match r.data {
                    Some(d) => res matches Ok(x) && refund_matches(x, d),
                    None => res matches Err(ConnectorError::ResponseDeserializationFailed),
                },
            },
    {
        match response {
            Some(r) => refund_sync_from_response(&r),
            None => Err(ConnectorError::ResponseDeserializationFailed),
        }
    }
}

} // verus!
