use std::collections::HashMap;

use router_scheduler::coinbase::{
    get_crypto_specific_payment_data, get_local_price, get_metadata, CoinbaseAuthType,
    CoinbaseConnectorMeta, CoinbasePaymentResponseData, CoinbasePaymentStatus,
    CoinbasePaymentsRequest, CoinbasePaymentsResponse, CoinbaseRefundRequest, Metadata,
    OverpaymentAbsoluteThreshold, PaymentThreshold, RefundResponse, RefundStatus, Timeline,
};
use router_scheduler::router_types::{
    self, Address, AddressDetails, AttemptStatus, Authorize, ConnectorAuthType, ConnectorError,
    ErrorResponse, Execute, Method, PaymentAddress, PaymentsAuthorizeData,
    PaymentsAuthorizeRouterData, PaymentsResponseData, RSync, RefundsData, RefundsResponseData,
    ResponseId, ResponseRouterData, RouterData,
};

fn details(first_name: Option<&str>) -> AddressDetails {
    AddressDetails {
        city: None,
        country: None,
        line1: None,
        line2: None,
        line3: None,
        zip: None,
        state: None,
        first_name: first_name.map(String::from),
        last_name: None,
    }
}

fn meta_value() -> serde_json::Value {
    let mut map = serde_json::Map::new();
    map.insert("pricing_type".to_string(), serde_json::Value::String("fixed_price".to_string()));
    serde_json::Value::Object(map)
}

fn no_answer() -> ErrorResponse {
    ErrorResponse { code: String::new(), message: String::new(), reason: None, status_code: 0 }
}

fn router_data<F, T, R>(flow: F, request: T) -> RouterData<F, T, R> {
    RouterData {
        flow,
        merchant_id: "merchant_1".to_string(),
        connector: "coinbase".to_string(),
        payment_id: "pay_1".to_string(),
        attempt_id: "att_1".to_string(),
        status: AttemptStatus::Started,
        description: Some("a coffee".to_string()),
        return_url: Some("https://shop.example/return".to_string()),
        address: PaymentAddress {
            shipping: None,
            billing: Some(Address { address: Some(details(Some("Ada"))), phone: None }),
        },
        connector_meta_data: Some(meta_value()),
        request,
        response: Err(no_answer()),
    }
}

fn authorize(amount: i64) -> PaymentsAuthorizeRouterData {
    router_data(
        Authorize,
        PaymentsAuthorizeData { amount, currency: "USD".to_string(), confirm: true, email: None },
    )
}

fn fixed_price() -> Option<CoinbaseConnectorMeta> {
    Some(CoinbaseConnectorMeta { pricing_type: "fixed_price".to_string() })
}

fn missing(r: Result<CoinbasePaymentsRequest, ConnectorError>) -> String {
    match r {
        Err(ConnectorError::MissingRequiredField { field_name }) => field_name,
        Err(other) => panic!("expected a missing field, got {other:?}"),
        Ok(_) => panic!("expected a missing field, got a request"),
    }
}

fn money(amount: &str) -> OverpaymentAbsoluteThreshold {
    OverpaymentAbsoluteThreshold { amount: amount.to_string(), currency: "USD".to_string() }
}

fn charge(timeline: Vec<CoinbasePaymentStatus>) -> CoinbasePaymentResponseData {
    CoinbasePaymentResponseData {
        id: "charge_1".to_string(),
        code: "ABCD".to_string(),
        name: "Ada".to_string(),
        utxo: false,
        pricing: HashMap::new(),
        fee_rate: 0.01f64.to_bits(),
        logo_url: String::new(),
        metadata: Metadata { customer_id: "112".to_string(), customer_name: "John".to_string() },
        payments: vec![],
        resource: "charge".to_string(),
        timeline: timeline
            .into_iter()
            .map(|status| Timeline { status, time: "2023-01-01T00:00:00Z".to_string(), payment: None })
            .collect(),
        pwcb_only: false,
        cancel_url: String::new(),
        created_at: String::new(),
        expires_at: String::new(),
        hosted_url: "https://commerce.coinbase.com/charges/ABCD".to_string(),
        brand_color: String::new(),
        description: "a coffee".to_string(),
        confirmed_at: None,
        fees_settled: true,
        pricing_type: "fixed_price".to_string(),
        redirect_url: String::new(),
        support_email: String::new(),
        brand_logo_url: String::new(),
        offchain_eligible: false,
        organization_name: String::new(),
        payment_threshold: PaymentThreshold {
            overpayment_absolute_threshold: money("5.00"),
            overpayment_relative_threshold: "0.045".to_string(),
            underpayment_absolute_threshold: money("5.00"),
            underpayment_relative_threshold: "0.005".to_string(),
        },
        coinbase_managed_merchant: false,
    }
}

#[test]
fn charge_status_to_attempt_status() {
    type S = CoinbasePaymentStatus;
    let cases = [
        (S::New, AttemptStatus::AuthenticationPending),
        (S::Pending, AttemptStatus::Pending),
        (S::Completed, AttemptStatus::Charged),
        (S::Expired, AttemptStatus::Failure),
        (S::Unresolved, AttemptStatus::Failure),
        (S::Resolved, AttemptStatus::Charged),
        (S::Cancelled, AttemptStatus::Pending),
        (S::PendingRefund, AttemptStatus::Pending),
        (S::Refunded, AttemptStatus::Pending),
    ];
    for (status, expected) in cases {
        assert_eq!(AttemptStatus::from(status), expected);
    }
    assert_eq!(CoinbasePaymentStatus::default(), S::Pending);
}

#[test]
fn refund_status_to_router_refund_status() {
    assert_eq!(router_types::RefundStatus::from(RefundStatus::Succeeded), router_types::RefundStatus::Success);
    assert_eq!(router_types::RefundStatus::from(RefundStatus::Failed), router_types::RefundStatus::Failure);
    assert_eq!(router_types::RefundStatus::from(RefundStatus::Processing), router_types::RefundStatus::Pending);
    assert_eq!(RefundStatus::default(), RefundStatus::Processing);
}

#[test]
fn auth_type_needs_a_header_key() {
    let ok = CoinbaseAuthType::try_from(&ConnectorAuthType::HeaderKey { api_key: "key_123".to_string() });
    assert_eq!(ok.unwrap().api_key, "key_123");
    let body = ConnectorAuthType::BodyKey { api_key: "a".to_string(), key1: "b".to_string() };
    assert!(matches!(CoinbaseAuthType::try_from(&body), Err(ConnectorError::FailedToObtainAuthType)));
    assert!(matches!(
        CoinbaseAuthType::try_from(&ConnectorAuthType::NoKey),
        Err(ConnectorError::FailedToObtainAuthType)
    ));
}

#[test]
fn local_price_and_metadata() {
    let item = authorize(1050);
    let price = get_local_price(&item);
    assert_eq!(price.amount, "1050");
    assert_eq!(price.currency, "USD");
    assert_eq!(get_local_price(&authorize(-3)).amount, "-3");
    let metadata = get_metadata(&item);
    assert_eq!(metadata.customer_id, "112");
    assert_eq!(metadata.customer_name, "John");
}

#[test]
fn charge_request_from_authorization() {
    let item = authorize(2500);
    let request = CoinbasePaymentsRequest::try_from(&item, fixed_price()).unwrap();
    assert_eq!(request.name, "Ada");
    assert_eq!(request.description, "a coffee");
    assert_eq!(request.pricing_type, "fixed_price");
    assert_eq!(request.local_price.amount, "2500");
    assert_eq!(request.local_price.currency, "USD");
    assert_eq!(request.metadata.customer_id, "112");
    assert_eq!(request.redirect_url, "https://shop.example/return");
    assert_eq!(request.cancel_url, "https://shop.example/return");
}

#[test]
fn charge_request_names_the_missing_field() {
    let mut no_billing = authorize(1);
    no_billing.address.billing = None;
    assert_eq!(missing(get_crypto_specific_payment_data(&no_billing, fixed_price())), "billing");

    let mut no_address = authorize(1);
    no_address.address.billing = Some(Address { address: None, phone: None });
    assert_eq!(missing(get_crypto_specific_payment_data(&no_address, fixed_price())), "billing.address");

    let mut no_name = authorize(1);
    no_name.address.billing = Some(Address { address: Some(details(None)), phone: None });
    assert_eq!(missing(get_crypto_specific_payment_data(&no_name, fixed_price())), "address.first_name");

    let mut no_description = authorize(1);
    no_description.description = None;
    assert_eq!(missing(get_crypto_specific_payment_data(&no_description, fixed_price())), "description");

    let mut no_meta = authorize(1);
    no_meta.connector_meta_data = None;
    assert_eq!(missing(get_crypto_specific_payment_data(&no_meta, None)), "connector_meta_data");

    let mut no_url = authorize(1);
    no_url.return_url = None;
    assert_eq!(missing(get_crypto_specific_payment_data(&no_url, fixed_price())), "return_url");
}

#[test]
fn charge_request_needs_a_readable_configuration() {
    let mut item = authorize(1);
    item.return_url = None;
    assert!(matches!(
        get_crypto_specific_payment_data(&item, None),
        Err(ConnectorError::ResponseDeserializationFailed)
    ));
}

#[test]
fn charge_answer_sets_status_and_redirection() {
    let item = ResponseRouterData {
        response: CoinbasePaymentsResponse {
            data: charge(vec![CoinbasePaymentStatus::New, CoinbasePaymentStatus::Completed]),
        },
        data: authorize(100),
        http_code: 201,
    };
    let data = RouterData::<Authorize, PaymentsAuthorizeData, PaymentsResponseData>::try_from(item).unwrap();
    assert_eq!(data.status, AttemptStatus::Charged);
    assert_eq!(data.payment_id, "pay_1");
    assert_eq!(data.request.amount, 100);
    match data.response {
        Ok(PaymentsResponseData::TransactionResponse {
            resource_id: ResponseId::ConnectorTransactionId(id),
            redirection_data: Some(form),
            mandate_reference: None,
            connector_metadata: None,
        }) => {
            assert_eq!(id, "charge_1");
            assert_eq!(form.endpoint, "https://commerce.coinbase.com/charges/ABCD");
            assert_eq!(form.method, Method::Get);
            assert!(form.form_fields.is_empty());
        }
        _ => panic!("expected a transaction answer"),
    }
}

#[test]
fn charge_answer_without_timeline_is_refused() {
    let item = ResponseRouterData {
        response: CoinbasePaymentsResponse { data: charge(vec![]) },
        data: authorize(100),
        http_code: 201,
    };
    assert!(matches!(
        RouterData::<Authorize, PaymentsAuthorizeData, PaymentsResponseData>::try_from(item),
        Err(ConnectorError::ResponseHandlingFailed)
    ));
}

fn refund_data<F>(flow: F) -> RouterData<F, RefundsData, RefundsResponseData> {
    router_data(
        flow,
        RefundsData {
            refund_id: "ref_1".to_string(),
            connector_transaction_id: "charge_1".to_string(),
            refund_amount: 100,
            currency: "USD".to_string(),
        },
    )
}

#[test]
fn refunds_are_not_implemented() {
    match CoinbaseRefundRequest::try_from(&refund_data(Execute)) {
        Err(ConnectorError::NotImplemented(m)) => assert_eq!(m, "try_from RefundsRouterData"),
        _ => panic!("expected not implemented"),
    }
    let execute = ResponseRouterData { response: RefundResponse {}, data: refund_data(Execute), http_code: 200 };
    match RouterData::<Execute, RefundsData, RefundsResponseData>::try_from(execute) {
        Err(ConnectorError::NotImplemented(m)) => assert_eq!(m, "try_from RefundsResponseRouterData"),
        _ => panic!("expected not implemented"),
    }
    let sync = ResponseRouterData { response: RefundResponse {}, data: refund_data(RSync), http_code: 200 };
    match RouterData::<RSync, RefundsData, RefundsResponseData>::try_from(sync) {
        Err(ConnectorError::NotImplemented(m)) => assert_eq!(m, "try_from RefundsResponseRouterData"),
        _ => panic!("expected not implemented"),
    }
}
