//! Merchant credentials and the authentication headers built from them.
use vstd::prelude::*;
use crate::errors::ConnectorError;

verus! {

/// The shapes of connector credentials a merchant account can hold.
#[derive(Clone, Debug)]
pub enum ConnectorAuthType {
    HeaderKey { api_key: String },
    BodyKey { api_key: String, key1: String },
    SignatureKey { api_key: String, key1: String, api_secret: String },
    MultiAuthKey { api_key: String, key1: String, api_secret: String, key2: String },
    TemporaryAuth,
    NoKey,
}

/// UprimerPay credentials: application id, access code and signing secret.
#[derive(Clone, Debug)]
pub struct UprimerpayAuthType {
    pub app_id: String,
    pub access_code: String,
    pub secret_key: String,
}

/// The credentials a merchant account yields, if it holds a signature key.
pub open spec fn spec_auth(auth_type: ConnectorAuthType) -> Option<(Seq<char>, Seq<char>, Seq<char>)> {
    match auth_type {
        ConnectorAuthType::SignatureKey { api_key, key1, api_secret } => Some((api_key@, key1@, api_secret@)),
        _ => None,
    }
}

impl UprimerpayAuthType {
    /// Reads the application id from `api_key`, the access code from `key1`
    /// and the signing secret from `api_secret` of a signature-key account;
    /// any other credential shape is refused.
    pub fn try_from(auth_type: &ConnectorAuthType) -> (res: Result<UprimerpayAuthType, ConnectorError>)
        ensures
            match spec_auth(*auth_type) {
                Some((app_id, access_code, secret_key)) => res matches Ok(a) && a.app_id@ == app_id
                    && a.access_code@ == access_code && a.secret_key@ == secret_key,
                None => res matches Err(ConnectorError::FailedToObtainAuthType),
            },
    {
        match auth_type {
            ConnectorAuthType::SignatureKey { api_key, key1, api_secret } => Ok(UprimerpayAuthType {
                app_id: api_key.clone(),
                access_code: key1.clone(),
                secret_key: api_secret.clone(),
            }),
            _ => Err(ConnectorError::FailedToObtainAuthType),
        }
    }
}

} // verus!
