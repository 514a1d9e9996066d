//! The router's view of a payment or a refund as it passes through a
//! connector: the data that the connector transformations read and write.
use vstd::prelude::*;
use std::collections::HashMap;

verus! {

/// Failures of a connector transformation.
#[derive(Debug)]
pub enum ConnectorError {
    FailedToObtainAuthType,
    MissingRequiredField { field_name: String },
    NotImplemented(String),
    ResponseHandlingFailed,
    ResponseDeserializationFailed,
    RequestEncodingFailed,
}

/// Status of a payment attempt.
#[derive(Clone, Copy, Debug, PartialEq, Eq, Hash, Structural)]
pub enum AttemptStatus {
    Started,
    AuthenticationFailed,
    RouterDeclined,
    AuthenticationPending,
    AuthenticationSuccessful,
    Authorized,
    AuthorizationFailed,
    Charged,
    Authorizing,
    CodInitiated,
    Voided,
    VoidInitiated,
    CaptureInitiated,
    CaptureFailed,
    VoidFailed,
    AutoRefunded,
    PartialCharged,
    Unresolved,
    Pending,
    Failure,
    PaymentMethodAwaited,
    ConfirmationAwaited,
    DeviceDataCollectionPending,
}

/// Status of a refund.
#[derive(Clone, Copy, Debug, PartialEq, Eq, Hash, Structural)]
pub enum RefundStatus {
    Failure,
    ManualReview,
    Pending,
    Success,
    TransactionFailure,
}

/// Credentials of a merchant's account with a connector.
pub enum ConnectorAuthType {
    HeaderKey { api_key: String },
    BodyKey { api_key: String, key1: String },
    SignatureKey { api_key: String, key1: String, api_secret: String },
    NoKey,
}

/// Parts of a postal address.
pub struct AddressDetails {
    pub city: Option<String>,
    pub country: Option<String>,
    pub line1: Option<String>,
    pub line2: Option<String>,
    pub line3: Option<String>,
    pub zip: Option<String>,
    pub state: Option<String>,
    pub first_name: Option<String>,
    pub last_name: Option<String>,
}

/// A phone number.
pub struct PhoneDetails {
    pub number: Option<String>,
    pub country_code: Option<String>,
}

/// An address with its phone number.
pub struct Address {
    pub address: Option<AddressDetails>,
    pub phone: Option<PhoneDetails>,
}

/// The shipping and billing addresses of a payment.
pub struct PaymentAddress {
    pub shipping: Option<Address>,
    pub billing: Option<Address>,
}

/// The request of an authorization: the amount in minor units and the
/// currency's ISO code.
pub struct PaymentsAuthorizeData {
    pub amount: i64,
    pub currency: String,
    pub confirm: bool,
    pub email: Option<String>,
}

/// The request of a refund.
pub struct RefundsData {
    pub refund_id: String,
    pub connector_transaction_id: String,
    pub refund_amount: i64,
    pub currency: String,
}

/// How a customer is sent on to a page.
#[derive(Clone, Copy, Debug, PartialEq, Eq, Structural)]
pub enum Method {
    Get,
    Post,
    Put,
    Delete,
}

/// Where the customer is redirected to finish a payment.
pub struct RedirectForm {
    pub endpoint: String,
    pub method: Method,
    pub form_fields: HashMap<String, String>,
}

/// How a payment is known to the connector.
pub enum ResponseId {
    ConnectorTransactionId(String),
    EncodedData(String),
    NoResponseId,
}

/// A connector's answer to a payment request.
pub enum PaymentsResponseData {
    TransactionResponse {
        resource_id: ResponseId,
        redirection_data: Option<RedirectForm>,
        mandate_reference: Option<String>,
        connector_metadata: Option<serde_json::Value>,
    },
    TokenizationResponse { token: String },
}

/// A connector's answer to a refund request.
pub struct RefundsResponseData {
    pub connector_refund_id: String,
    pub refund_status: RefundStatus,
}

/// An error answer from a connector.
pub struct ErrorResponse {
    pub code: String,
    pub message: String,
    pub reason: Option<String>,
    pub status_code: u16,
}

/// The flow of an authorization.
pub struct Authorize;

/// The flow of a refund.
pub struct Execute;

/// The flow of a refund status check.
pub struct RSync;

/// A payment or refund on its way through a connector: flow `F`, request
/// `T`, connector answer `R`.
pub struct RouterData<F, T, R> {
    pub flow: F,
    pub merchant_id: String,
    pub connector: String,
    pub payment_id: String,
    pub attempt_id: String,
    pub status: AttemptStatus,
    pub description: Option<String>,
    pub return_url: Option<String>,
    pub address: PaymentAddress,
    pub connector_meta_data: Option<serde_json::Value>,
    pub request: T,
    pub response: Result<R, ErrorResponse>,
}

/// An authorization on its way through a connector.
pub type PaymentsAuthorizeRouterData = RouterData<Authorize, PaymentsAuthorizeData, PaymentsResponseData>;

/// A refund on its way through a connector.
pub type RefundsRouterData<F> = RouterData<F, RefundsData, RefundsResponseData>;

/// A connector's decoded answer `R` with the router data it answers.
pub struct ResponseRouterData<F, R, T, Resp> {
    pub response: R,
    pub data: RouterData<F, T, Resp>,
    pub http_code: u16,
}

/// A refund answer with the refund it answers.
pub type RefundsResponseRouterData<F, R> = ResponseRouterData<F, R, RefundsData, RefundsResponseData>;

/// `a` and `b` differ at most in their status and connector answer.
pub open spec fn same_but_status_and_response<F, T, R1, R2>(a: RouterData<F, T, R1>, b: RouterData<F, T, R2>) -> bool {
    &&& a.flow == b.flow
    &&& a.merchant_id == b.merchant_id
    &&& a.connector == b.connector
    &&& a.payment_id == b.payment_id
    &&& a.attempt_id == b.attempt_id
    &&& a.description == b.description
    &&& a.return_url == b.return_url
    &&& a.address == b.address
    &&& a.connector_meta_data == b.connector_meta_data
    &&& a.request == b.request
}

} // verus!
