use std::cell::RefCell;

use qiwi::Client;
use qiwi::models::PaymentHistoryData;
use qiwi::models::QiwiCurrency;
use qiwi::models::QiwiUser;
use qiwi::models::ProviderId;
use qiwi::models::TransferDirection;
use qiwi::transfer_id;
use qiwi::transport::ApiError;
use qiwi::transport::Method;
use qiwi::transport::Rsp;
use qiwi::transport::Transport;
use qiwi::transport::decode_response;

struct MockTransport {
    responses: RefCell<Vec<Result<String, ApiError>>>,
    calls: RefCell<Vec<(String, Vec<(String, String)>, Option<String>)>>,
}

impl MockTransport {
    fn new(responses: Vec<Result<String, ApiError>>) -> MockTransport {
        MockTransport { responses: RefCell::new(responses), calls: RefCell::new(Vec::new()) }
    }
}

impl Transport for MockTransport {
    fn call(
        &self,
        endpoint: &str,
        _method: Method,
        params: &Vec<(String, String)>,
        body: Option<&str>,
    ) -> Result<String, ApiError> {
        self.calls.borrow_mut().push((
            endpoint.to_string(),
            params.clone(),
            body.map(|s| s.to_string()),
        ));
        self.responses.borrow_mut().remove(0)
    }
}

fn user() -> QiwiUser {
    QiwiUser::new(7, 9991234567).unwrap()
}

fn entry_json(txn_id: u64) -> String {
    format!(
        "{{\"txnId\":{},\"personId\":79,\"date\":\"2024-01-01T00:00:00Z\",\"errorCode\":0,\"error\":\"\",\"type\":\"OUT\",\"status\":\"SUCCESS\",\"statusText\":\"ok\",\"trmTxnId\":\"t\",\"account\":\"acc\",\"sum\":{{\"amount\":10.5,\"currency\":\"643\"}},\"commission\":{{\"amount\":0,\"currency\":\"643\"}},\"total\":{{\"amount\":10.5,\"currency\":\"643\"}},\"provider\":{{\"id\":7,\"shortName\":\"s\",\"longName\":\"l\",\"logoUrl\":\"u\",\"description\":\"d\",\"keys\":\"k\",\"siteUrl\":\"w\"}},\"comment\":\"c\",\"currencyRate\":1,\"extras\":{{}},\"chequeReady\":false,\"bankDocumentAvailable\":false,\"bankDocumentReady\":false,\"repeatPaymentEnabled\":false,\"favoritePaymentEnabled\":false,\"regularPaymentEnabled\":true}}",
        txn_id
    )
}

fn page_json(entries: &[String], cursor: Option<(&str, u64)>) -> String {
    let data = entries.join(",");
    match cursor {
        Some((d, i)) => format!(
            "{{\"data\":[{}],\"nextTxnId\":{},\"nextTxnDate\":\"{}\"}}",
            data, i, d
        ),
        None => format!("{{\"data\":[{}]}}", data),
    }
}

#[test]
fn envelope_success_shape_decodes_to_success() {
    let r = decode_response::<PaymentHistoryData>(&page_json(&[entry_json(1)], None));
    match r {
        Ok(Rsp::OK(page)) => {
            assert_eq!(page.data.len(), 1);
            assert_eq!(page.data[0].txn_id, 1);
            assert_eq!(page.next_txn_id, None);
            assert_eq!(page.next_txn_date, None);
        },
        other => panic!("expected success variant, got {:?}", other),
    }
}

#[test]
fn envelope_error_code_decodes_to_error() {
    let r = decode_response::<PaymentHistoryData>("{\"errorCode\":\"E1\"}");
    match r {
        Ok(Rsp::Error { error }) => assert_eq!(error, "E1"),
        other => panic!("expected error variant, got {:?}", other),
    }
}

#[test]
fn envelope_error_code_wins_over_success_shape() {
    // A payload that also satisfies the success shape must still decode as
    // the error variant: the matching order is the authority.
    let mut text = page_json(&[entry_json(1)], None);
    text.insert_str(1, "\"errorCode\":\"BUSY\",");
    let r = decode_response::<PaymentHistoryData>(&text);
    match r {
        Ok(Rsp::Error { error }) => assert_eq!(error, "BUSY"),
        other => panic!("expected error variant, got {:?}", other),
    }
}

#[test]
fn envelope_neither_variant_is_decode_error() {
    assert_eq!(
        decode_response::<PaymentHistoryData>("{\"data\":\"nope\"}"),
        Err(ApiError::Decode)
    );
    assert_eq!(decode_response::<PaymentHistoryData>("not json"), Err(ApiError::Decode));
}

#[test]
fn pagination_terminates_without_extra_request() {
    let pages = vec![
        Ok(page_json(&[entry_json(1), entry_json(2)], Some(("D1", 77)))),
        Ok(page_json(&[entry_json(3)], None)),
    ];
    let transport = MockTransport::new(pages);
    let client = Client::new(user(), transport);
    let mut stream = client.payment_history();
    let mut total = 0;
    while let Some(step) = stream.next_page() {
        total += step.unwrap().data.len();
    }
    assert_eq!(total, 3);
    assert!(stream.next_page().is_none());
    assert_eq!(client.caller.transport.calls.borrow().len(), 2);
}

#[test]
fn pagination_passes_cursor_to_next_request() {
    let pages = vec![
        Ok(page_json(&[entry_json(1)], Some(("2024-02-03T04:05:06Z", 4242)))),
        Ok(page_json(&[entry_json(2)], None)),
    ];
    let transport = MockTransport::new(pages);
    let client = Client::new(user(), transport);
    let mut stream = client.payment_history();
    while let Some(step) = stream.next_page() {
        step.unwrap();
    }
    let calls = client.caller.transport.calls.borrow();
    assert_eq!(calls.len(), 2);
    assert_eq!(calls[0].0, "payment-history/v2/persons/79991234567/payments");
    assert_eq!(calls[0].1, vec![("rows".to_string(), "50".to_string())]);
    assert_eq!(
        calls[1].1,
        vec![
            ("rows".to_string(), "50".to_string()),
            ("nextTxnDate".to_string(), "2024-02-03T04:05:06Z".to_string()),
            ("nextTxnId".to_string(), "4242".to_string()),
        ]
    );
}

#[test]
fn pagination_failure_aborts_stream() {
    let pages = vec![Ok("not json".to_string())];
    let transport = MockTransport::new(pages);
    let client = Client::new(user(), transport);
    let mut stream = client.payment_history();
    assert_eq!(stream.next_page(), Some(Err(ApiError::Decode)));
    assert_eq!(stream.next_page(), None);
    assert_eq!(client.caller.transport.calls.borrow().len(), 1);
}

#[test]
fn transfer_round_trip() {
    let transport = MockTransport::new(vec![Ok(
        "{\"transaction\":{\"id\":\"abc\",\"state\":{\"code\":\"Accepted\"}}}".to_string(),
    )]);
    let client = Client::new(user(), transport);
    let direction = TransferDirection::Qiwi {
        to_phone: QiwiUser::new(7, 9991234567).unwrap(),
        to_currency: QiwiCurrency(643),
    };
    let out = client.transfer(Some(5), "10.5", direction, "hi").unwrap();
    assert_eq!(out.transaction.id, "abc");
    assert_eq!(out.transaction.state.code, "Accepted");
    let calls = client.caller.transport.calls.borrow();
    assert_eq!(calls[0].0, "sinap/api/v2/terms/99/payments");
    assert_eq!(
        calls[0].2.as_deref(),
        Some("{\"id\":\"5\",\"sum\":{\"amount\":10.5,\"currency\":\"643\"},\"paymentMethod\":{\"type\":\"Account\",\"accountId\":\"643\"},\"fields\":{\"account\":\"79991234567\"},\"comment\":\"hi\"}")
    );
}

#[test]
fn transfer_cellular_uses_carrier_and_base_currency() {
    let transport = MockTransport::new(vec![Ok(
        "{\"transaction\":{\"id\":\"z\",\"state\":{\"code\":\"Accepted\"}}}".to_string(),
    )]);
    let client = Client::new(user(), transport);
    let direction = TransferDirection::Cellular {
        carrier: 2,
        to_phone: QiwiUser::new(7, 9031112233).unwrap(),
    };
    client.transfer(Some(1), "50", direction, "").unwrap();
    let calls = client.caller.transport.calls.borrow();
    assert_eq!(calls[0].0, "sinap/api/v2/terms/2/payments");
    let body = calls[0].2.as_deref().unwrap();
    assert!(body.contains("\"currency\":\"643\""));
    assert!(body.contains("\"account\":\"79031112233\""));
}

#[test]
fn commission_error_is_domain_error() {
    let transport = MockTransport::new(vec![Ok("{\"errorCode\":\"LIMIT_EXCEEDED\"}".to_string())]);
    let client = Client::new(user(), transport);
    let err = client.commission_info(ProviderId::qiwi()).unwrap_err();
    match &err {
        ApiError::Domain { code } => assert_eq!(code, "LIMIT_EXCEEDED"),
        other => panic!("expected a domain error, got {:?}", other),
    }
    assert!(err.message().contains("LIMIT_EXCEEDED"));
}

#[test]
fn commission_info_decodes_form() {
    let transport = MockTransport::new(vec![Ok("{\"commission\":{\"ranges\":[{\"bound\":0,\"rate\":0.01,\"min\":1,\"max\":100,\"fixed\":0}],\"limits\":[{\"currency\":643,\"min\":1,\"max\":10000}]}}"
    .to_string())]);
    let client = Client::new(user(), transport);
    let info = client.commission_info(ProviderId::qiwi()).unwrap();
    assert_eq!(info.ranges.len(), 1);
    assert_eq!(info.ranges[0].rate, "0.01");
    assert_eq!(info.limits[0].currency, 643);
    let calls = client.caller.transport.calls.borrow();
    assert_eq!(calls[0].0, "sinap/providers/99/form");
}

#[test]
fn commission_quote_posts_base_currency_body() {
    let transport =
        MockTransport::new(vec![Ok("{\"qwCommission\":{\"amount\":1.05}}".to_string())]);
    let client = Client::new(user(), transport);
    let quoted = client
        .commission_quote(ProviderId::qiwi(), QiwiUser::new(7, 9991234567).unwrap(), "10.5")
        .unwrap();
    assert_eq!(quoted, "1.05");
    let calls = client.caller.transport.calls.borrow();
    assert_eq!(calls[0].0, "sinap/providers/99/onlineCommission");
    assert_eq!(
        calls[0].2.as_deref(),
        Some("{\"account\":\"79991234567\",\"payment_method\":{\"type\":\"Account\",\"accountId\":\"643\"},\"purchaseTotals\":{\"total\":{\"amount\":10.5,\"currency\":\"643\"}}}")
    );
}

#[test]
fn transport_failure_surfaces_body_text() {
    let transport = MockTransport::new(vec![Err(ApiError::Transport {
        message: "status 500 with body: Server error".to_string(),
    })]);
    let client = Client::new(user(), transport);
    let err = client.profile_info().unwrap_err();
    match &err {
        ApiError::Transport { message } => assert!(message.contains("Server error")),
        other => panic!("expected a transport error, got {:?}", other),
    }
    assert!(err.message().contains("Server error"));
}

#[test]
fn default_transfer_id_derives_from_clock_seconds() {
    let t = 1700000000;
    assert_eq!(transfer_id(None, t), t * 1000);
    assert_eq!(transfer_id(None, t), transfer_id(None, t));
    assert_eq!(transfer_id(Some(42), t), 42);
}

#[test]
fn profile_info_decodes_document() {
    let profile = "{\"authInfo\":{\"personId\":79991234567,\"registrationDate\":\"2017-01-01T00:00:00Z\",\"boundEmail\":null,\"ip\":\"127.0.0.1\",\"lastLoginDate\":\"2024-01-01T00:00:00Z\",\"mobilePinInfo\":{\"mobilePinUsed\":true,\"lastMobilePinChange\":\"a\",\"nextMobilePinChange\":\"b\"},\"passInfo\":{\"passwordUsed\":true,\"lastPassChange\":\"c\",\"nextPassChange\":\"d\"},\"pinInfo\":{\"pinUsed\":false},\"contractInfo\":null}}";
    let transport = MockTransport::new(vec![Ok(profile.to_string())]);
    let client = Client::new(user(), transport);
    let p = client.profile_info().unwrap();
    assert_eq!(p.auth_info.person_id, 79991234567);
    assert_eq!(p.auth_info.bound_email, None);
    assert!(p.auth_info.mobile_pin_info.mobile_pin_used);
    assert!(p.auth_info.contract_info.is_none());
    let calls = client.caller.transport.calls.borrow();
    assert_eq!(calls[0].0, "person-profile/v1/profile/current");
    assert_eq!(
        calls[0].1,
        vec![
            ("authInfoEnabled".to_string(), "true".to_string()),
            ("contractInfoEnabled".to_string(), "true".to_string()),
            ("userInfoEnabled".to_string(), "true".to_string()),
        ]
    );
}

#[test]
fn profile_info_decodes_contract_section() {
    let profile = "{\"authInfo\":{\"personId\":79991234567,\"registrationDate\":\"2017-01-01T00:00:00Z\",\"boundEmail\":\"a@b.c\",\"ip\":\"127.0.0.1\",\"lastLoginDate\":null,\"mobilePinInfo\":{\"mobilePinUsed\":true,\"lastMobilePinChange\":\"a\",\"nextMobilePinChange\":\"b\"},\"passInfo\":{\"passwordUsed\":true,\"lastPassChange\":\"c\",\"nextPassChange\":\"d\"},\"pinInfo\":{\"pinUsed\":false},\"contractInfo\":{\"blocked\":false,\"contractId\":11,\"creationDate\":\"2017-01-01T00:00:00Z\",\"features\":[],\"identificationInfo\":[\"VERIFIED\",\"FULL\"],\"userInfo\":{\"defaultPayCurrency\":643,\"defaultPaySource\":7,\"email\":\"a@b.c\",\"firstTxnId\":1,\"language\":\"ru\",\"operator\":\"op\",\"phoneHash\":\"h\",\"promoEnabled\":\"no\"}}}}";
    let transport = MockTransport::new(vec![Ok(profile.to_string())]);
    let client = Client::new(user(), transport);
    let p = client.profile_info().unwrap();
    assert_eq!(p.auth_info.bound_email.as_deref(), Some("a@b.c"));
    assert_eq!(p.auth_info.last_login_date, None);
    let contract = p.auth_info.contract_info.unwrap();
    assert_eq!(contract.contract_id, 11);
    assert_eq!(
        contract.identification_info,
        vec![
            qiwi::models::IdentificationLevel::Verified,
            qiwi::models::IdentificationLevel::Full,
        ]
    );
    assert_eq!(contract.user_info.default_pay_currency, 643);
}

#[test]
fn decode_error_has_message() {
    let e = ApiError::Decode;
    assert_eq!(e.message(), "response did not decode");
}

#[test]
fn half_present_cursor_ends_stream() {
    let one = format!(
        "{{\"data\":[{}],\"nextTxnDate\":\"2024-01-01T00:00:00Z\"}}",
        entry_json(1)
    );
    let transport = MockTransport::new(vec![Ok(one)]);
    let client = Client::new(user(), transport);
    let mut stream = client.payment_history();
    let page = stream.next_page().unwrap().unwrap();
    assert_eq!(page.next_txn_id, None);
    assert!(stream.next_page().is_none());
    assert_eq!(client.caller.transport.calls.borrow().len(), 1);
}

#[test]
fn history_walk_restarts_per_call() {
    let pages = vec![
        Ok(page_json(&[entry_json(1)], Some(("D", 9)))),
        Ok(page_json(&[entry_json(2)], None)),
        Ok(page_json(&[entry_json(3)], None)),
    ];
    let transport = MockTransport::new(pages);
    let client = Client::new(user(), transport);
    let mut first = client.payment_history();
    while let Some(step) = first.next_page() {
        step.unwrap();
    }
    let mut second = client.payment_history();
    second.next_page().unwrap().unwrap();
    let calls = client.caller.transport.calls.borrow();
    assert_eq!(calls.len(), 3);
    assert_eq!(calls[2].1, vec![("rows".to_string(), "50".to_string())]);
}
