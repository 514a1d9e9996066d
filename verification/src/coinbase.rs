//! Coinbase Commerce: the charge request built from an authorization, the
//! charge answer turned into the payment's status, refunds (which the
//! connector does not support), and the shapes of its webhooks.
use vstd::prelude::*;
use std::collections::HashMap;
use crate::decimal::{decimal_text, i64_to_decimal};
use crate::router_types::{
    AttemptStatus, ConnectorAuthType, ConnectorError, Method, PaymentsAuthorizeRouterData,
    PaymentsResponseData, RedirectForm, RefundsData, RefundsResponseData, ResponseId,
    ResponseRouterData, RouterData, same_but_status_and_response,
};
use crate::router_types;

verus! {

/// The price of a charge in the merchant's currency.
#[derive(Debug)]
pub struct LocalPrice {
    pub amount: String,
    pub currency: String,
}

/// Customer data attached to a charge.
#[derive(Debug)]
pub struct Metadata {
    pub customer_id: String,
    pub customer_name: String,
}

/// A charge request. It has no `Debug`: the customer's name is not to be
/// written out.
pub struct CoinbasePaymentsRequest {
    pub name: String,
    pub description: String,
    pub pricing_type: String,
    pub local_price: LocalPrice,
    pub metadata: Metadata,
    pub redirect_url: String,
    pub cancel_url: String,
}

/// The merchant's API key with Coinbase. It has no `Debug`: the key is not
/// to be written out.
pub struct CoinbaseAuthType {
    pub api_key: String,
}

/// Status of a charge as Coinbase reports it.
#[derive(Clone, Copy, Debug, PartialEq, Eq, Structural)]
pub enum CoinbasePaymentStatus {
    New,
    Pending,
    Completed,
    Expired,
    Unresolved,
    Resolved,
    Cancelled,
    PendingRefund,
    Refunded,
}

impl Default for CoinbasePaymentStatus {
    fn default() -> (status: Self)
        ensures
            status == CoinbasePaymentStatus::Pending,
    {
        CoinbasePaymentStatus::Pending
    }
}

/// The payment status that a charge status stands for: completed and
/// resolved charges are charged, expired and unresolved ones failed, a new
/// one awaits the customer, and the rest are pending.
pub open spec fn attempt_status_of(item: CoinbasePaymentStatus) -> AttemptStatus {
    match item {
        CoinbasePaymentStatus::Completed | CoinbasePaymentStatus::Resolved => AttemptStatus::Charged,
        CoinbasePaymentStatus::Expired | CoinbasePaymentStatus::Unresolved => AttemptStatus::Failure,
        CoinbasePaymentStatus::New => AttemptStatus::AuthenticationPending,
        _ => AttemptStatus::Pending,
    }
}

/// What every charge status means for the payment.
pub proof fn lemma_attempt_status_table()
    ensures
        attempt_status_of(CoinbasePaymentStatus::New) == AttemptStatus::AuthenticationPending,
        attempt_status_of(CoinbasePaymentStatus::Pending) == AttemptStatus::Pending,
        attempt_status_of(CoinbasePaymentStatus::Completed) == AttemptStatus::Charged,
        attempt_status_of(CoinbasePaymentStatus::Expired) == AttemptStatus::Failure,
        attempt_status_of(CoinbasePaymentStatus::Unresolved) == AttemptStatus::Failure,
        attempt_status_of(CoinbasePaymentStatus::Resolved) == AttemptStatus::Charged,
        attempt_status_of(CoinbasePaymentStatus::Cancelled) == AttemptStatus::Pending,
        attempt_status_of(CoinbasePaymentStatus::PendingRefund) == AttemptStatus::Pending,
        attempt_status_of(CoinbasePaymentStatus::Refunded) == AttemptStatus::Pending,
{
}

impl From<CoinbasePaymentStatus> for AttemptStatus {
    fn from(item: CoinbasePaymentStatus) -> (status: AttemptStatus) {
        match item {
            CoinbasePaymentStatus::Completed | CoinbasePaymentStatus::Resolved => AttemptStatus::Charged,
            CoinbasePaymentStatus::Expired | CoinbasePaymentStatus::Unresolved => AttemptStatus::Failure,
            CoinbasePaymentStatus::New => AttemptStatus::AuthenticationPending,
            _ => AttemptStatus::Pending,
        }
    }
}

impl vstd::std_specs::convert::FromSpecImpl<CoinbasePaymentStatus> for AttemptStatus {
    open spec fn obeys_from_spec() -> bool {
        true
    }

    open spec fn from_spec(item: CoinbasePaymentStatus) -> AttemptStatus {
        attempt_status_of(item)
    }
}

/// A step in the history of a charge.
#[derive(Debug)]
pub struct Timeline {
    pub status: CoinbasePaymentStatus,
    pub time: String,
    pub payment: Option<TimelinePayment>,
}

/// Coinbase's answer to a charge request.
#[derive(Debug)]
pub struct CoinbasePaymentsResponse {
    pub data: CoinbasePaymentResponseData,
}

/// A refund request (refunds are not supported by the connector).
#[derive(Debug)]
pub struct CoinbaseRefundRequest {}

/// Status of a refund as the connector reports it.
#[derive(Clone, Copy, Debug, PartialEq, Eq, Structural)]
pub enum RefundStatus {
    Succeeded,
    Failed,
    Processing,
}

impl Default for RefundStatus {
    fn default() -> (status: Self)
        ensures
            status == RefundStatus::Processing,
    {
        RefundStatus::Processing
    }
}

/// The router's refund status for a connector refund status.
pub open spec fn refund_status_of(item: RefundStatus) -> router_types::RefundStatus {
    match item {
        RefundStatus::Succeeded => router_types::RefundStatus::Success,
        RefundStatus::Failed => router_types::RefundStatus::Failure,
        RefundStatus::Processing => router_types::RefundStatus::Pending,
    }
}

/// What every connector refund status means for the refund.
pub proof fn lemma_refund_status_table()
    ensures
        refund_status_of(RefundStatus::Succeeded) == router_types::RefundStatus::Success,
        refund_status_of(RefundStatus::Failed) == router_types::RefundStatus::Failure,
        refund_status_of(RefundStatus::Processing) == router_types::RefundStatus::Pending,
{
}

impl From<RefundStatus> for router_types::RefundStatus {
    fn from(item: RefundStatus) -> (status: router_types::RefundStatus) {
        match item {
            RefundStatus::Succeeded => router_types::RefundStatus::Success,
            RefundStatus::Failed => router_types::RefundStatus::Failure,
            RefundStatus::Processing => router_types::RefundStatus::Pending,
        }
    }
}

impl vstd::std_specs::convert::FromSpecImpl<RefundStatus> for router_types::RefundStatus {
    open spec fn obeys_from_spec() -> bool {
        true
    }

    open spec fn from_spec(item: RefundStatus) -> router_types::RefundStatus {
        refund_status_of(item)
    }
}

/// Coinbase's answer to a refund request.
#[derive(Debug)]
pub struct RefundResponse {}

/// An error answer from Coinbase.
#[derive(Debug)]
pub struct CoinbaseErrorResponse {
    pub code: String,
    pub message: String,
    pub reason: Option<String>,
}

/// The merchant's Coinbase configuration: the pricing type of its charges.
#[derive(Debug)]
pub struct CoinbaseConnectorMeta {
    pub pricing_type: String,
}

/// A webhook delivery.
#[derive(Debug)]
pub struct CoinbaseWebhookDetails {
    pub attempt_number: i64,
    pub event: Event,
    pub id: String,
    pub scheduled_for: String,
}

/// The event a webhook reports.
#[derive(Debug)]
pub struct Event {
    pub api_version: String,
    pub created_at: String,
    pub data: CoinbasePaymentResponseData,
    pub id: String,
    pub resource: String,
    pub event_type: WebhookEventType,
}

/// Kinds of charge events.
#[derive(Clone, Copy, Debug, PartialEq, Eq, Structural)]
pub enum WebhookEventType {
    Confirmed,
    Created,
    Pending,
    Failed,
    Resolved,
}

/// A charge. `fee_rate` holds the bits of the IEEE-754 double that
/// Coinbase sends (`f64::to_bits`).
#[derive(Debug)]
pub struct CoinbasePaymentResponseData {
    pub id: String,
    pub code: String,
    pub name: String,
    pub utxo: bool,
    pub pricing: HashMap<String, OverpaymentAbsoluteThreshold>,
    pub fee_rate: u64,
    pub logo_url: String,
    pub metadata: Metadata,
    pub payments: Vec<PaymentElement>,
    pub resource: String,
    pub timeline: Vec<Timeline>,
    pub pwcb_only: bool,
    pub cancel_url: String,
    pub created_at: String,
    pub expires_at: String,
    pub hosted_url: String,
    pub brand_color: String,
    pub description: String,
    pub confirmed_at: Option<String>,
    pub fees_settled: bool,
    pub pricing_type: String,
    pub redirect_url: String,
    pub support_email: String,
    pub brand_logo_url: String,
    pub offchain_eligible: bool,
    pub organization_name: String,
    pub payment_threshold: PaymentThreshold,
    pub coinbase_managed_merchant: bool,
}

/// How far a payment may miss the price.
#[derive(Debug)]
pub struct PaymentThreshold {
    pub overpayment_absolute_threshold: OverpaymentAbsoluteThreshold,
    pub overpayment_relative_threshold: String,
    pub underpayment_absolute_threshold: OverpaymentAbsoluteThreshold,
    pub underpayment_relative_threshold: String,
}

/// An amount in a currency.
#[derive(Debug)]
pub struct OverpaymentAbsoluteThreshold {
    pub amount: String,
    pub currency: String,
}

/// A payment made towards a charge.
#[derive(Debug)]
pub struct PaymentElement {
    pub net: CoinbaseProcessingFee,
    pub block: Block,
    pub value: CoinbaseProcessingFee,
    pub status: String,
    pub network: String,
    pub deposited: Deposited,
    pub payment_id: String,
    pub detected_at: String,
    pub transaction_id: String,
    pub coinbase_processing_fee: CoinbaseProcessingFee,
}

/// The block of a payment.
#[derive(Debug)]
pub struct Block {
    pub hash: String,
    pub height: i64,
    pub confirmations: i64,
    pub confirmations_required: i64,
}

/// An amount in local and in crypto currency.
#[derive(Debug)]
pub struct CoinbaseProcessingFee {
    pub local: Option<OverpaymentAbsoluteThreshold>,
    pub crypto: OverpaymentAbsoluteThreshold,
}

/// Where a payment was deposited.
#[derive(Debug)]
pub struct Deposited {
    pub amount: Amount,
    pub status: String,
    pub destination: String,
    pub exchange_rate: Option<serde_json::Value>,
    pub autoconversion_status: String,
    pub autoconversion_enabled: bool,
}

/// Net, gross and fee of a deposit.
#[derive(Debug)]
pub struct Amount {
    pub net: CoinbaseProcessingFee,
    pub gross: CoinbaseProcessingFee,
    pub coinbase_fee: CoinbaseProcessingFee,
}

/// The payment recorded in a timeline step.
#[derive(Debug)]
pub struct TimelinePayment {
    pub value: OverpaymentAbsoluteThreshold,
    pub network: String,
    pub transaction_id: String,
}

/// The error for a field that the request needs and the payment lacks.
pub open spec fn is_missing_field(e: ConnectorError, name: Seq<char>) -> bool {
    e matches ConnectorError::MissingRequiredField { field_name } && field_name@ == name
}

fn missing_field_err(name: &str) -> (e: ConnectorError)
    ensures
        is_missing_field(e, name@),
{
    ConnectorError::MissingRequiredField { field_name: String::from_str(name) }
}

impl CoinbaseAuthType {
    /// The API key of a header-key credential; any other kind of credential
    /// is refused.
    pub fn try_from(auth_type: &ConnectorAuthType) -> (r: Result<CoinbaseAuthType, ConnectorError>)
        ensures
            match auth_type {
                ConnectorAuthType::HeaderKey { api_key } => r matches Ok(auth) && auth.api_key@ == api_key@,
                _ => r matches Err(ConnectorError::FailedToObtainAuthType),
            },
    {
        if let ConnectorAuthType::HeaderKey { api_key } = auth_type {
            Ok(CoinbaseAuthType { api_key: api_key.clone() })
        } else {
            Err(ConnectorError::FailedToObtainAuthType)
        }
    }
}

/// The first field, in the order the request reads them, that the
/// authorization lacks and the charge request needs.
pub open spec fn first_missing_field(item: PaymentsAuthorizeRouterData) -> Option<Seq<char>> {
    match item.address.billing {
        None => Some("billing"@),
        Some(billing) => match billing.address {
            None => Some("billing.address"@),
            Some(details) => match details.first_name {
                None => Some("address.first_name"@),
                Some(_) => match item.description {
                    None => Some("description"@),
                    Some(_) => match item.connector_meta_data {
                        None => Some("connector_meta_data"@),
                        Some(_) => None,
                    },
                },
            },
        },
    }
}

/// `request` is the charge request for `item` under the connector
/// configuration `meta`.
pub open spec fn is_charge_request(
    request: CoinbasePaymentsRequest,
    item: PaymentsAuthorizeRouterData,
    meta: CoinbaseConnectorMeta,
) -> bool {
    &&& item.address.billing matches Some(billing) && billing.address matches Some(details)
        && details.first_name matches Some(name) && request.name@ == name@
    &&& item.description matches Some(description) && request.description@ == description@
    &&& request.pricing_type@ == meta.pricing_type@
    &&& is_local_price(request.local_price, item)
    &&& is_fixed_metadata(request.metadata)
    &&& item.return_url matches Some(url) && request.redirect_url@ == url@ && request.cancel_url@ == url@
}

/// The price of the authorization: its amount in decimal and its currency code.
pub open spec fn is_local_price(price: LocalPrice, item: PaymentsAuthorizeRouterData) -> bool {
    &&& price.amount@ == decimal_text(item.request.amount as int)
    &&& price.currency@ == item.request.currency@
}

/// The customer data sent with every charge.
pub open spec fn is_fixed_metadata(metadata: Metadata) -> bool {
    &&& metadata.customer_id@ == "112"@
    &&& metadata.customer_name@ == "John"@
}

/// The price of an authorization.
pub fn get_local_price(item: &PaymentsAuthorizeRouterData) -> (price: LocalPrice)
    ensures
        is_local_price(price, *item),
{
    LocalPrice {
        amount: i64_to_decimal(item.request.amount),
        currency: item.request.currency.clone(),
    }
}

/// The customer data sent with every charge.
pub fn get_metadata(_item: &PaymentsAuthorizeRouterData) -> (metadata: Metadata)
    ensures
        is_fixed_metadata(metadata),
{
    Metadata {
        customer_id: String::from_str("112"),
        customer_name: String::from_str("John"),
    }
}

/// The charge request for an authorization. `parsed_meta` is the
/// connector configuration decoded from `item.connector_meta_data`, or
/// `None` where that could not be decoded. The billing first name, the
/// description, the configuration and the return URL must be present.
pub fn get_crypto_specific_payment_data(
    item: &PaymentsAuthorizeRouterData,
    parsed_meta: Option<CoinbaseConnectorMeta>,
) -> (r: Result<CoinbasePaymentsRequest, ConnectorError>)
    ensures
        match first_missing_field(*item) {
            Some(field) => r matches Err(e) && is_missing_field(e, field),
            None => match parsed_meta {
                None => r matches Err(ConnectorError::ResponseDeserializationFailed),
                Some(meta) => match item.return_url {
                    None => r matches Err(e) && is_missing_field(e, "return_url"@),
                    Some(_) => r matches Ok(request) && is_charge_request(request, *item, meta),
                },
            },
        },
{
    let billing = match &item.address.billing {
        Some(billing) => billing,
        None => return Err(missing_field_err("billing")),
    };
    let billing_address = match &billing.address {
        Some(details) => details,
        None => return Err(missing_field_err("billing.address")),
    };
    let name = match &billing_address.first_name {
        Some(first_name) => first_name.clone(),
        None => return Err(missing_field_err("address.first_name")),
    };
    let description = match &item.description {
        Some(description) => description.clone(),
        None => return Err(missing_field_err("description")),
    };
    if item.connector_meta_data.is_none() {
        return Err(missing_field_err("connector_meta_data"));
    }
    let connector_meta = match parsed_meta {
        Some(meta) => meta,
        None => return Err(ConnectorError::ResponseDeserializationFailed),
    };
    let pricing_type = connector_meta.pricing_type;
    let local_price = get_local_price(item);
    let metadata = get_metadata(item);
    let redirect_url = match &item.return_url {
        Some(url) => url.clone(),
        None => return Err(missing_field_err("return_url")),
    };
    let cancel_url = match &item.return_url {
        Some(url) => url.clone(),
        None => return Err(missing_field_err("return_url")),
    };
    Ok(CoinbasePaymentsRequest {
        name,
        description,
        pricing_type,
        local_price,
        metadata,
        redirect_url,
        cancel_url,
    })
}

impl CoinbasePaymentsRequest {
    /// The charge request for an authorization (see
    /// `get_crypto_specific_payment_data`).
    pub fn try_from(
        item: &PaymentsAuthorizeRouterData,
        parsed_meta: Option<CoinbaseConnectorMeta>,
    ) -> (r: Result<CoinbasePaymentsRequest, ConnectorError>)
        ensures
            match first_missing_field(*item) {
                Some(field) => r matches Err(e) && is_missing_field(e, field),
                None => match parsed_meta {
                    None => r matches Err(ConnectorError::ResponseDeserializationFailed),
                    Some(meta) => match item.return_url {
                        None => r matches Err(e) && is_missing_field(e, "return_url"@),
                        Some(_) => r matches Ok(request) && is_charge_request(request, *item, meta),
                    },
                },
            },
    {
        get_crypto_specific_payment_data(item, parsed_meta)
    }
}

/// The answer that a charge gives to the router: the charge's id as the
/// transaction id, and a redirection (by GET, with no form fields) to its
/// hosted page.
pub open spec fn is_charge_answer(answer: PaymentsResponseData, charge: CoinbasePaymentResponseData) -> bool {
    answer matches PaymentsResponseData::TransactionResponse {
        resource_id: ResponseId::ConnectorTransactionId(transaction_id),
        redirection_data: Some(form),
        mandate_reference: None,
        connector_metadata: None,
    } && transaction_id@ == charge.id@ && form.endpoint@ == charge.hosted_url@
        && form.method == Method::Get && form.form_fields@ == Map::<String, String>::empty()
}

impl<F, T> RouterData<F, T, PaymentsResponseData> {
    /// The payment after Coinbase answered a charge request: its status is
    /// the one of the charge's latest timeline step, and its answer points
    /// to the charge. A charge without a timeline cannot be handled.
    pub fn try_from(
        item: ResponseRouterData<F, CoinbasePaymentsResponse, T, PaymentsResponseData>,
    ) -> (r: Result<RouterData<F, T, PaymentsResponseData>, ConnectorError>)
        ensures
            item.response.data.timeline@.len() == 0 ==> r matches Err(ConnectorError::ResponseHandlingFailed),
            item.response.data.timeline@.len() > 0 ==> (r matches Ok(data) && {
                &&& data.status == attempt_status_of(item.response.data.timeline@.last().status)
                &&& data.response matches Ok(answer) && is_charge_answer(answer, item.response.data)
                &&& same_but_status_and_response(data, item.data)
            }),
    {
        let form_fields: HashMap<String, String> = HashMap::new();
        let redirection_data = RedirectForm {
            endpoint: item.response.data.hosted_url.clone(),
            method: Method::Get,
            form_fields,
        };
        let timeline_len = item.response.data.timeline.len();
        if timeline_len == 0 {
            return Err(ConnectorError::ResponseHandlingFailed);
        }
        let attempt_status = item.response.data.timeline[timeline_len - 1].status;
        let data = item.data;
        Ok(RouterData {
            flow: data.flow,
            merchant_id: data.merchant_id,
            connector: data.connector,
            payment_id: data.payment_id,
            attempt_id: data.attempt_id,
            status: AttemptStatus::from(attempt_status),
            description: data.description,
            return_url: data.return_url,
            address: data.address,
            connector_meta_data: data.connector_meta_data,
            request: data.request,
            response: Ok(PaymentsResponseData::TransactionResponse {
                resource_id: ResponseId::ConnectorTransactionId(item.response.data.id),
                redirection_data: Some(redirection_data),
                mandate_reference: None,
                connector_metadata: None,
            }),
        })
    }
}

impl CoinbaseRefundRequest {
    /// Refund requests are not supported by the connector.
    pub fn try_from<F>(_item: &RouterData<F, RefundsData, RefundsResponseData>) -> (r: Result<CoinbaseRefundRequest, ConnectorError>)
        ensures
            r matches Err(ConnectorError::NotImplemented(message)) && message@ == "try_from RefundsRouterData"@,
    {
        Err(ConnectorError::NotImplemented(String::from_str("try_from RefundsRouterData")))
    }
}

impl<F> RouterData<F, RefundsData, RefundsResponseData> {
    /// Refund answers are not supported by the connector, for refunds
    /// (`Execute`) and refund checks (`RSync`) alike.
    pub fn try_from(
        _item: ResponseRouterData<F, RefundResponse, RefundsData, RefundsResponseData>,
    ) -> (r: Result<RouterData<F, RefundsData, RefundsResponseData>, ConnectorError>)
        ensures
            r matches Err(ConnectorError::NotImplemented(message)) && message@ == "try_from RefundsResponseRouterData"@,
    {
        Err(ConnectorError::NotImplemented(String::from_str("try_from RefundsResponseRouterData")))
    }
}

} // verus!
