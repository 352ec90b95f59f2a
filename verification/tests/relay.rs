use breez_nwc::handler::{RelayError, RelayErrorCode, Transaction};
use breez_nwc::json::{
    drop_member, find_field, read_fields, read_string, write_labelled, write_records, write_texts,
    JsonMember, JsonScalar,
};
use breez_nwc::nip47::{ErrorCode, ListTransactionsRequest, Method, PayInvoiceRequest};
use breez_nwc::relay::{
    socket_step, BreezRelayService, Received, RelayResult, SocketAction, SocketEvent, SocketState,
};
use breez_nwc::response::{GetBalanceResponse, PayInvoiceResponse};

fn relay() -> BreezRelayService {
    BreezRelayService::new(
        "wss://relay.example.com".to_string(),
        "public".to_string(),
        "secret".to_string(),
    )
}

fn reply(message: &str) -> String {
    match relay().recv_msg(message) {
        Received::Reply(text) => text,
        _ => panic!("the message should be refused"),
    }
}

#[test]
fn relay_keeps_what_it_was_made_with() {
    let service = relay();
    assert_eq!(service.relay_url, "wss://relay.example.com");
    assert_eq!(service.pubkey, "public");
    assert_eq!(service.secret_key, "secret");
    assert_eq!(service.relay_address().as_deref(), Some("wss://relay.example.com/"));
    let service = BreezRelayService::new("no url".to_string(), String::new(), String::new());
    assert_eq!(service.relay_address(), None);
}

#[test]
fn payment_params_reach_the_handler() {
    let message = "{\"method\":\"pay_invoice\",\"params\":{\"amount\":5,\"invoice\":\"lnbc1\",\"more\":1}}";
    match relay().recv_msg(message) {
        Received::PayInvoice(params) => {
            assert_eq!(params, "{\"invoice\":\"lnbc1\",\"amount\":5}");
            let request = PayInvoiceRequest::parse(&params).ok().unwrap();
            assert_eq!(request.invoice, "lnbc1");
            assert_eq!(request.amount, Some(5));
        }
        _ => panic!("a payment was asked for"),
    }
}

#[test]
fn listing_params_reach_the_handler() {
    let message = "{\"params\":{\"limit\":2,\"type\":\"incoming\"},\"method\":\"list_transactions\"}";
    match relay().recv_msg(message) {
        Received::ListTransactions(params) => {
            assert_eq!(params, "{\"limit\":2,\"type\":\"incoming\"}");
            assert_eq!(ListTransactionsRequest::parse(&params).ok().unwrap().limit, Some(2));
        }
        _ => panic!("a list was asked for"),
    }
    let message = "{\"params\":{\"limit\":2,\"type\":\"sideways\"},\"method\":\"list_transactions\"}";
    match relay().recv_msg(message) {
        Received::ListTransactions(params) => assert_eq!(params, "{\"limit\":2}"),
        _ => panic!("a list was asked for"),
    }
}

#[test]
fn balance_needs_no_params() {
    assert!(matches!(relay().recv_msg("{\"method\":\"get_balance\"}"), Received::GetBalance));
    let message = "{\"method\":\"get_balance\",\"params\":{\"a\":1}}";
    assert!(matches!(relay().recv_msg(message), Received::GetBalance));
}

#[test]
fn undecodable_messages_are_refused() {
    assert_eq!(
        reply("hello"),
        "{\"error\":{\"code\":\"INVALID_REQUEST\",\"message\":\"Failed to decode message: expected value at line 1 column 1\"},\"result_type\":\"error\"}"
    );
    assert_eq!(
        reply("{}"),
        "{\"error\":{\"code\":\"INVALID_REQUEST\",\"message\":\"Failed to decode message: missing field `method`\"},\"result_type\":\"error\"}"
    );
    assert_eq!(
        reply("{\"method\":null}"),
        "{\"error\":{\"code\":\"INVALID_REQUEST\",\"message\":\"Failed to decode message: invalid type: null, expected a string\"},\"result_type\":\"error\"}"
    );
    assert!(reply("{\"method\":5}").contains("Failed to decode message: invalid type: integer `5`"));
}

#[test]
fn unknown_methods_are_refused() {
    assert_eq!(
        reply("{\"method\":\"fly\"}"),
        "{\"error\":{\"code\":\"INVALID_REQUEST\",\"message\":\"Unhandled method: fly\"},\"result_type\":\"error\"}"
    );
}

#[test]
fn missing_params_are_refused() {
    for method in ["pay_invoice", "list_transactions"] {
        for message in [
            format!("{{\"method\":\"{method}\"}}"),
            format!("{{\"method\":\"{method}\",\"params\":null}}"),
        ] {
            assert_eq!(
                reply(&message),
                format!("{{\"error\":{{\"code\":\"INVALID_REQUEST\",\"message\":\"No params field in request\"}},\"result_type\":\"{method}\"}}")
            );
        }
    }
}

#[test]
fn invalid_params_are_refused() {
    assert_eq!(
        reply("{\"method\":\"pay_invoice\",\"params\":{}}"),
        "{\"error\":{\"code\":\"INVALID_REQUEST\",\"message\":\"Invalid params: missing field `invoice`\"},\"result_type\":\"pay_invoice\"}"
    );
    assert_eq!(
        reply("{\"method\":\"list_transactions\",\"params\":{\"limit\":\"x\"}}"),
        "{\"error\":{\"code\":\"INVALID_REQUEST\",\"message\":\"Invalid params: invalid type: string \\\"x\\\", expected u64\"},\"result_type\":\"list_transactions\"}"
    );
}

#[test]
fn replies_bear_results_and_errors() {
    let paid = PayInvoiceResponse { preimage: "pre".to_string(), fees_paid: None };
    assert_eq!(
        relay().reply(Method::PayInvoice, &Ok(RelayResult::PayInvoice(paid))),
        "{\"result\":{\"fees_paid\":null,\"preimage\":\"pre\"},\"result_type\":\"pay_invoice\"}"
    );
    let balance = Ok(RelayResult::GetBalance(GetBalanceResponse { balance: 5000 }));
    assert_eq!(
        relay().reply(Method::GetBalance, &balance),
        "{\"result\":{\"balance\":5000},\"result_type\":\"get_balance\"}"
    );
    let listed = Ok(RelayResult::ListTransactions(Vec::new()));
    assert_eq!(
        relay().send_msg("list_transactions", &listed),
        "{\"result\":{\"transactions\":[]},\"result_type\":\"list_transactions\"}"
    );
    let sparse = Transaction {
        id: "hash".to_string(),
        invoice: None,
        description: None,
        description_hash: None,
        preimage: None,
        payment_hash: "hash".to_string(),
        amount: 21000,
        fees_paid: None,
        timestamp: 1700000000,
        settled_at: None,
        payment_type: "unknown".to_string(),
        state: "pending".to_string(),
    };
    let full = Transaction {
        id: "id".to_string(),
        invoice: Some("lnbc1".to_string()),
        description: Some("tea".to_string()),
        description_hash: Some("dh".to_string()),
        preimage: Some("pre".to_string()),
        payment_hash: "h2".to_string(),
        amount: 1,
        fees_paid: Some(2),
        timestamp: 3,
        settled_at: Some(4),
        payment_type: "incoming".to_string(),
        state: "completed".to_string(),
    };
    let listed = Ok(RelayResult::ListTransactions(vec![sparse, full]));
    assert_eq!(
        relay().reply(Method::ListTransactions, &listed),
        "{\"result\":{\"transactions\":[{\"amount\":21000,\"description\":null,\"description_hash\":null,\"fees_paid\":null,\"id\":\"hash\",\"invoice\":null,\"payment_hash\":\"hash\",\"payment_type\":\"unknown\",\"preimage\":null,\"settled_at\":null,\"state\":\"pending\",\"timestamp\":1700000000},{\"amount\":1,\"description\":\"tea\",\"description_hash\":\"dh\",\"fees_paid\":2,\"id\":\"id\",\"invoice\":\"lnbc1\",\"payment_hash\":\"h2\",\"payment_type\":\"incoming\",\"preimage\":\"pre\",\"settled_at\":4,\"state\":\"completed\",\"timestamp\":3}]},\"result_type\":\"list_transactions\"}"
    );
    let error = RelayError {
        code: RelayErrorCode::Wallet(ErrorCode::PaymentFailed),
        message: "no \"route\"".to_string(),
    };
    assert_eq!(
        relay().reply(Method::PayInvoice, &Err(error)),
        "{\"error\":{\"code\":\"PAYMENT_FAILED\",\"message\":\"no \\\"route\\\"\"},\"result_type\":\"pay_invoice\"}"
    );
}

#[test]
fn second_answer_follows_an_unsent_result_alone() {
    let balance = Ok(RelayResult::GetBalance(GetBalanceResponse { balance: 5000 }));
    let closed = Err("closed".to_string());
    assert_eq!(
        relay().after_send(Method::GetBalance, &balance, &closed).as_deref(),
        Some("{\"error\":{\"code\":\"INTERNAL\",\"message\":\"Failed to send response: closed\"},\"result_type\":\"get_balance\"}")
    );
    assert_eq!(relay().after_send(Method::GetBalance, &balance, &Ok(())), None);
    let refused = Err(RelayError {
        code: RelayErrorCode::Wallet(ErrorCode::Internal),
        message: "locked".to_string(),
    });
    assert_eq!(relay().after_send(Method::GetBalance, &refused, &closed), None);
    assert_eq!(relay().after_send(Method::GetBalance, &refused, &Ok(())), None);
}

#[test]
fn requests_are_dispatched_by_method() {
    assert!(matches!(relay().dispatch("get_balance", &None), Received::GetBalance));
    let params = Some("{\"invoice\":\"lnbc1\"}".to_string());
    match relay().dispatch("pay_invoice", &params) {
        Received::PayInvoice(params) => assert_eq!(params, "{\"invoice\":\"lnbc1\"}"),
        _ => panic!("a payment was asked for"),
    }
    assert!(matches!(relay().dispatch("pay_invoice", &None), Received::Reply(_)));
    assert!(matches!(relay().dispatch("fly", &params), Received::Reply(_)));
}

#[test]
fn json_members_are_found_and_written() {
    let fields = read_fields("{\"b\":[1, 2],\"a\":null}").ok().unwrap();
    assert_eq!(find_field(&fields, "a").unwrap().value, None);
    assert_eq!(find_field(&fields, "b").unwrap().value.as_deref(), Some("[1,2]"));
    assert!(find_field(&fields, "c").is_none());
    assert!(read_fields("[]").is_err());
    assert_eq!(read_string("\"a\\nb\"").ok().as_deref(), Some("a\nb"));
    assert!(read_string("5").is_err());
    let texts = vec![("x".to_string(), "1".to_string())];
    assert_eq!(write_texts(&texts), "{\"x\":\"1\"}");
    assert_eq!(write_labelled("l", "t", "n", "[true]").as_deref(), Some("{\"l\":\"t\",\"n\":[true]}"));
    assert_eq!(write_labelled("l", "t", "n", "nonsense"), None);
    assert_eq!(drop_member("{\"b\": 1, \"a\": [2]}", "b").as_deref(), Some("{\"a\":[2]}"));
    assert_eq!(drop_member("{\"a\": 1}", "b").as_deref(), Some("{\"a\":1}"));
    assert_eq!(drop_member("[]", "b"), None);
    let record = vec![
        JsonMember { name: "x".to_string(), value: JsonScalar::Number(7) },
        JsonMember { name: "y".to_string(), value: JsonScalar::Text("\"".to_string()) },
        JsonMember { name: "z".to_string(), value: JsonScalar::Null },
    ];
    assert_eq!(
        write_records("list", &vec![record, Vec::new()]),
        "{\"list\":[{\"x\":7,\"y\":\"\\\"\",\"z\":null},{}]}"
    );
}

fn is_stopped(step: (SocketState, SocketAction)) -> bool {
    step.0 == SocketState::Closed && matches!(step.1, SocketAction::Stop)
}

#[test]
fn connection_pings_first() {
    let (state, action) = socket_step(SocketState::Connecting, SocketEvent::Connected(200));
    assert_eq!(state, SocketState::Pinging);
    assert!(matches!(action, SocketAction::SendPing));
    let (state, action) = socket_step(state, SocketEvent::Sent);
    assert_eq!(state, SocketState::Reading);
    assert!(matches!(action, SocketAction::Read));
    assert!(is_stopped(socket_step(SocketState::Connecting, SocketEvent::Connected(199))));
    assert!(is_stopped(socket_step(SocketState::Connecting, SocketEvent::Connected(300))));
    assert!(is_stopped(socket_step(SocketState::Connecting, SocketEvent::ConnectFailed)));
    assert!(is_stopped(socket_step(SocketState::Pinging, SocketEvent::SendFailed)));
}

#[test]
fn connection_serves_what_it_reads() {
    let (state, action) = socket_step(SocketState::Reading, SocketEvent::Text("hi".to_string()));
    assert_eq!(state, SocketState::Reading);
    assert!(matches!(action, SocketAction::Receive(text) if text == "hi"));
    let (state, action) = socket_step(SocketState::Reading, SocketEvent::Ping(vec![1, 2]));
    assert_eq!(state, SocketState::Ponging);
    assert!(matches!(action, SocketAction::SendPong(data) if data == vec![1, 2]));
    let (state, _) = socket_step(state, SocketEvent::Sent);
    assert_eq!(state, SocketState::Reading);
    for event in [SocketEvent::Pong, SocketEvent::Other] {
        let (state, action) = socket_step(SocketState::Reading, event);
        assert_eq!(state, SocketState::Reading);
        assert!(matches!(action, SocketAction::Read));
    }
    let (state, action) = socket_step(SocketState::Pinging, SocketEvent::Pong);
    assert_eq!(state, SocketState::Pinging);
    assert!(matches!(action, SocketAction::Wait));
}

#[test]
fn connection_ends() {
    let (state, action) = socket_step(SocketState::Reading, SocketEvent::Close);
    assert_eq!(state, SocketState::Closing);
    assert!(matches!(action, SocketAction::SendClose));
    assert!(is_stopped(socket_step(state, SocketEvent::Sent)));
    assert!(is_stopped(socket_step(state, SocketEvent::SendFailed)));
    assert!(is_stopped(socket_step(SocketState::Reading, SocketEvent::Broken)));
    assert!(is_stopped(socket_step(SocketState::Reading, SocketEvent::Ended)));
    assert!(is_stopped(socket_step(SocketState::Ponging, SocketEvent::SendFailed)));
    assert!(is_stopped(socket_step(SocketState::Reading, SocketEvent::Shutdown)));
    assert!(is_stopped(socket_step(SocketState::Closed, SocketEvent::Text("hi".to_string()))));
}
