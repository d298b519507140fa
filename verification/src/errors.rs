use vstd::prelude::*;

verus! {

/// The connector errors this integration can raise.
#[derive(Clone, Debug)]
pub enum ConnectorError {
    FailedToObtainAuthType,
    RequestEncodingFailed,
    ResponseDeserializationFailed,
    NotImplemented(String),
    NotSupported { message: String, connector: String },
    MissingRequiredField { field_name: String },
    InvalidDataValue { field_name: String },
    MissingConnectorTransactionID,
    WebhookSourceVerificationFailed,
    WebhookSignatureNotFound,
    WebhookReferenceIdNotFound,
    WebhookEventTypeNotFound,
    WebhookResourceObjectNotFound,
}

} // verus!
