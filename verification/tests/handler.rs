use breez_nwc::handler::{
    transactions_result, BreezRelayMessageHandler, ListedPayment, PayAmount, RelayErrorCode,
    SentPayment,
};
use breez_nwc::model::{
    payment_notification, Payment, PaymentDetails, PaymentState, PaymentType,
};
use breez_nwc::nip47::{
    ErrorCode, ListTransactionsRequest, Method, Nip47Error, PayInvoiceRequest, Request,
    TransactionType,
};
use breez_nwc::response::{
    write_response, GetBalanceResponse, NotificationType, PayInvoiceResponse,
    ResponseResult,
};
use std::sync::Arc;

fn handler() -> BreezRelayMessageHandler<u8> {
    BreezRelayMessageHandler::new(Arc::new(7))
}

fn listed(payment_type: PaymentType, state: PaymentState) -> ListedPayment {
    ListedPayment {
        payment_hash: "hash".to_string(),
        bolt11: Some("lnbc1".to_string()),
        description: None,
        preimage: Some("pre".to_string()),
        amount_msat: 21000,
        fees_paid: Some(3),
        timestamp: 100,
        settled_at: Some(101),
        payment_type,
        state,
    }
}

fn lightning(payment_type: PaymentType) -> Payment {
    Payment {
        payment_type,
        amount_sat: 21,
        fees_sat: 2,
        timestamp: 1700000000,
        details: PaymentDetails::Lightning {
            invoice: Some("lnbc1".to_string()),
            description: "tea".to_string(),
            preimage: None,
            payment_hash: Some("hash".to_string()),
        },
    }
}

#[test]
fn handler_holds_its_wallet() {
    assert_eq!(*handler().sdk, 7);
}

#[test]
fn payment_is_prepared_in_whole_satoshis() {
    let prepare = handler().pay_invoice("{\"invoice\":\"lnbc1\",\"amount\":2999}").ok().unwrap();
    assert_eq!(prepare.destination, "lnbc1");
    assert_eq!(prepare.amount, Some(PayAmount::Bitcoin { receiver_amount_sat: 2 }));
    let prepare = handler().pay_invoice("{\"invoice\":\"lnbc2\"}").ok().unwrap();
    assert_eq!(prepare.destination, "lnbc2");
    assert_eq!(prepare.amount, None);
}

#[test]
fn invalid_payment_params_are_refused() {
    let error = handler().pay_invoice("{}").err().unwrap();
    assert_eq!(error.code, RelayErrorCode::InvalidRequest);
    assert_eq!(error.message, "Invalid params: missing field `invoice` at line 1 column 2");
    assert_eq!(error.code.as_str(), "INVALID_REQUEST");
}

#[test]
fn prepared_payment_is_sent_or_fails() {
    let send = handler().payment_prepared::<u8>(Ok(9)).ok().unwrap();
    assert_eq!(send.prepare_response, 9);
    assert_eq!(send.use_asset_fees, None);
    let error = handler().payment_prepared::<u8>(Err("no route".to_string())).err().unwrap();
    assert_eq!(error.code, ErrorCode::PaymentFailed);
    assert_eq!(error.message, "Failed to prepare payment: no route");
}

#[test]
fn sent_payment_tells_preimage_and_fees() {
    let sent = SentPayment { preimage: Some("pre".to_string()), fees_paid: Some(3) };
    let response = handler().payment_sent(Ok(sent)).ok().unwrap();
    assert_eq!(response.preimage, "pre");
    assert_eq!(response.fees_paid, Some(3000));
    let sent = SentPayment { preimage: None, fees_paid: None };
    let response = handler().payment_sent(Ok(sent)).ok().unwrap();
    assert_eq!(response.preimage, "");
    assert_eq!(response.fees_paid, None);
    let error = handler().payment_sent(Err("offline".to_string())).err().unwrap();
    assert_eq!(error.code, ErrorCode::PaymentFailed);
    assert_eq!(error.message, "Failed to send payment: offline");
}

#[test]
fn payments_are_listed_as_asked() {
    let params = "{\"from\":1,\"until\":2,\"limit\":3,\"offset\":4,\"unpaid\":true,\"type\":\"incoming\"}";
    let list = handler().list_transactions(params).ok().unwrap();
    assert_eq!(list.filters, Some(vec![PaymentType::Receive]));
    assert_eq!(list.states, Some(vec![PaymentState::Pending]));
    assert_eq!(list.from_timestamp, Some(1));
    assert_eq!(list.to_timestamp, Some(2));
    assert_eq!(list.limit, Some(3));
    assert_eq!(list.offset, Some(4));
    assert_eq!(list.sort_ascending, Some(false));
    let list = handler().list_transactions("{\"unpaid\":false,\"type\":\"outgoing\"}").ok().unwrap();
    assert_eq!(list.filters, Some(vec![PaymentType::Send]));
    assert_eq!(list.states, Some(vec![]));
    let list = handler().list_transactions("{}").ok().unwrap();
    assert_eq!(list.filters, None);
    assert_eq!(list.states, None);
    assert_eq!(list.limit, None);
    assert_eq!(list.details, None);
}

#[test]
fn unknown_way_is_passed_over() {
    let params = "{\"limit\":3,\"type\":\"sideways\"}";
    let list = handler().list_transactions(params).ok().unwrap();
    assert_eq!(list.filters, None);
    assert_eq!(list.limit, Some(3));
    let list = handler().list_transactions("{\"type\":\"\"}").ok().unwrap();
    assert_eq!(list.filters, None);
    let list = handler().list_transactions("{\"type\":null}").ok().unwrap();
    assert_eq!(list.filters, None);
    assert!(handler().list_transactions("{\"type\":5}").is_err());
    assert!(handler().list_transactions("{\"type\":\"sideways\",\"limit\":\"x\"}").is_err());
}

#[test]
fn invalid_listing_params_are_refused() {
    let error = handler().list_transactions("{\"limit\":\"x\"}").err().unwrap();
    assert_eq!(error.code, RelayErrorCode::InvalidRequest);
    assert!(error.message.starts_with("Invalid params: invalid type: string \"x\", expected u64"));
}

#[test]
fn listed_payments_become_transactions() {
    let payments = vec![
        listed(PaymentType::Send, PaymentState::Completed),
        listed(PaymentType::Receive, PaymentState::Pending),
        listed(PaymentType::Other, PaymentState::Failed),
        listed(PaymentType::Other, PaymentState::Other),
    ];
    let transactions = handler().payments_listed(Ok(payments)).ok().unwrap();
    assert_eq!(transactions.len(), 4);
    let words: Vec<(&str, &str)> =
        transactions.iter().map(|t| (t.payment_type.as_str(), t.state.as_str())).collect();
    assert_eq!(
        words,
        vec![
            ("outgoing", "completed"),
            ("incoming", "pending"),
            ("unknown", "failed"),
            ("unknown", "unknown"),
        ]
    );
    let first = &transactions[0];
    assert_eq!(first.id, "hash");
    assert_eq!(first.payment_hash, "hash");
    assert_eq!(first.invoice.as_deref(), Some("lnbc1"));
    assert_eq!(first.description, None);
    assert_eq!(first.description_hash, None);
    assert_eq!(first.preimage.as_deref(), Some("pre"));
    assert_eq!(first.amount, 21000);
    assert_eq!(first.fees_paid, Some(3000));
    assert_eq!(first.timestamp, 100);
    assert_eq!(first.settled_at, Some(101));
    let error = handler().payments_listed(Err("locked".to_string())).err().unwrap();
    assert_eq!(error.code, ErrorCode::Internal);
    assert_eq!(error.message, "Failed to list payments: locked");
}

#[test]
fn transactions_are_answered() {
    let mut unknown = listed(PaymentType::Other, PaymentState::Completed);
    unknown.fees_paid = None;
    let payments = vec![listed(PaymentType::Send, PaymentState::Completed), unknown];
    let transactions = handler().payments_listed(Ok(payments)).ok().unwrap();
    let result = transactions_result(&transactions);
    let list = match &result {
        ResponseResult::ListTransactions(list) => list,
        _ => panic!("a list was asked for"),
    };
    assert_eq!(list[0].transaction_type, Some(TransactionType::Outgoing));
    assert_eq!(list[0].fees_paid, 3000);
    assert_eq!(list[0].created_at, 100);
    assert_eq!(list[0].expires_at, None);
    assert_eq!(list[1].transaction_type, None);
    assert_eq!(list[1].fees_paid, 0);
    assert_eq!(
        write_response(Method::ListTransactions, &Ok(result)),
        "{\"result_type\":\"list_transactions\",\"error\":null,\"result\":{\"transactions\":[{\"type\":\"outgoing\",\"invoice\":\"lnbc1\",\"preimage\":\"pre\",\"payment_hash\":\"hash\",\"amount\":21000,\"fees_paid\":3000,\"created_at\":100,\"settled_at\":101},{\"invoice\":\"lnbc1\",\"preimage\":\"pre\",\"payment_hash\":\"hash\",\"amount\":21000,\"fees_paid\":0,\"created_at\":100,\"settled_at\":101}]}}"
    );
    let reply = Ok(transactions_result(&Vec::new()));
    assert_eq!(
        write_response(Method::ListTransactions, &reply),
        "{\"result_type\":\"list_transactions\",\"error\":null,\"result\":{\"transactions\":[]}}"
    );
}

#[test]
fn balance_is_told_in_thousandths() {
    assert_eq!(handler().get_balance(Ok(5)).ok().unwrap().balance, 5000);
    let error = handler().get_balance(Err("locked".to_string())).err().unwrap();
    assert_eq!(error.code, ErrorCode::Internal);
    assert_eq!(error.message, "Failed to get wallet info: locked");
}

#[test]
fn requests_are_read_by_their_method() {
    let text = "{\"method\":\"pay_invoice\",\"params\":{\"id\":\"1\",\"invoice\":\"lnbc1\",\"amount\":5}}";
    match Request::parse(text) {
        Some(Request::PayInvoice(request)) => {
            assert_eq!(request.id.as_deref(), Some("1"));
            assert_eq!(request.invoice, "lnbc1");
            assert_eq!(request.amount, Some(5));
        }
        _ => panic!("a payment was asked for"),
    }
    match Request::parse("{\"method\":\"list_transactions\",\"params\":{\"from\":7,\"type\":\"outgoing\"}}") {
        Some(Request::ListTransactions(request)) => {
            assert_eq!(request.from, Some(7));
            assert_eq!(request.until, None);
            assert_eq!(request.transaction_type, Some(TransactionType::Outgoing));
        }
        _ => panic!("a list was asked for"),
    }
    assert!(matches!(Request::parse("{\"method\":\"get_balance\"}"), Some(Request::GetBalance)));
    assert!(matches!(Request::parse("{\"method\":\"get_info\"}"), Some(Request::GetInfo)));
    for (text, served) in [
        ("{\"method\":\"make_invoice\",\"params\":{\"amount\":1}}", Request::MakeInvoice),
        ("{\"method\":\"lookup_invoice\",\"params\":{}}", Request::LookupInvoice),
        ("{\"method\":\"pay_keysend\",\"params\":{\"amount\":1,\"pubkey\":\"k\"}}", Request::PayKeysend),
        ("{\"method\":\"multi_pay_invoice\",\"params\":{\"invoices\":[]}}", Request::MultiPayInvoice),
        ("{\"method\":\"multi_pay_keysend\",\"params\":{\"keysends\":[]}}", Request::MultiPayKeysend),
    ] {
        let read = Request::parse(text).unwrap();
        assert_eq!(std::mem::discriminant(&read), std::mem::discriminant(&served));
    }
    let text = "{\"method\":\"list_transactions\",\"params\":{\"type\":\"sideways\"}}";
    assert!(Request::parse(text).is_none());
    assert!(Request::parse("{\"method\":\"fly\"}").is_none());
    assert!(Request::parse("{\"method\":\"pay_invoice\"}").is_none());
    assert!(Request::parse("hello").is_none());
}

#[test]
fn params_survive_being_written() {
    let request = PayInvoiceRequest { id: None, invoice: "lnbc1".to_string(), amount: Some(5) };
    let text = request.to_json();
    assert_eq!(text, "{\"invoice\":\"lnbc1\",\"amount\":5}");
    let again = PayInvoiceRequest::parse(&text).ok().unwrap();
    assert_eq!(again.invoice, "lnbc1");
    assert_eq!(again.amount, Some(5));
    let request = ListTransactionsRequest {
        from: Some(1),
        until: None,
        limit: Some(2),
        offset: None,
        unpaid: Some(true),
        transaction_type: Some(TransactionType::Incoming),
    };
    let text = request.to_json();
    assert_eq!(text, "{\"from\":1,\"limit\":2,\"unpaid\":true,\"type\":\"incoming\"}");
    let again = ListTransactionsRequest::parse(&text).ok().unwrap();
    assert_eq!(again.from, Some(1));
    assert_eq!(again.transaction_type, Some(TransactionType::Incoming));
}

#[test]
fn answers_are_written_as_json() {
    let paid = PayInvoiceResponse { preimage: "pre".to_string(), fees_paid: Some(3000) };
    let reply = Ok(ResponseResult::PayInvoice(paid));
    assert_eq!(
        write_response(Method::PayInvoice, &reply),
        "{\"result_type\":\"pay_invoice\",\"error\":null,\"result\":{\"preimage\":\"pre\",\"fees_paid\":3000}}"
    );
    let reply = Ok(ResponseResult::GetBalance(GetBalanceResponse { balance: 5000 }));
    assert_eq!(
        write_response(Method::GetBalance, &reply),
        "{\"result_type\":\"get_balance\",\"error\":null,\"result\":{\"balance\":5000}}"
    );
    let codes = [
        ErrorCode::RateLimited,
        ErrorCode::NotImplemented,
        ErrorCode::InsufficientBalance,
        ErrorCode::PaymentFailed,
        ErrorCode::NotFound,
        ErrorCode::QuotaExceeded,
        ErrorCode::Restricted,
        ErrorCode::Unauthorized,
        ErrorCode::Internal,
        ErrorCode::Other,
    ];
    for code in codes {
        for method in [Method::PayInvoice, Method::ListTransactions, Method::GetBalance] {
            let reply = Err(Nip47Error { code, message: "no".to_string() });
            assert_eq!(
                write_response(method, &reply),
                format!(
                    "{{\"result_type\":\"{}\",\"error\":{{\"code\":\"{}\",\"message\":\"no\"}},\"result\":null}}",
                    method.as_str(),
                    code.as_str()
                )
            );
        }
    }
}

#[test]
fn payment_is_notified_over_lightning_only() {
    let notification = payment_notification(&lightning(PaymentType::Send)).unwrap();
    assert_eq!(notification.notification_type, NotificationType::PaymentSent);
    assert_eq!(
        notification.to_json(),
        "{\"notification_type\":\"payment_sent\",\"notification\":{\"type\":\"outgoing\",\"invoice\":\"lnbc1\",\"description\":\"tea\",\"preimage\":\"\",\"payment_hash\":\"hash\",\"amount\":21000,\"fees_paid\":2000,\"created_at\":1700000000,\"settled_at\":1700000000}}"
    );
    let notification = payment_notification(&lightning(PaymentType::Receive)).unwrap();
    assert_eq!(notification.notification_type, NotificationType::PaymentReceived);
    assert_eq!(notification.notification.transaction_type, TransactionType::Incoming);
    let mut payment = lightning(PaymentType::Send);
    payment.details = PaymentDetails::Other;
    assert!(payment_notification(&payment).is_none());
}
