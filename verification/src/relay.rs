//! The connection to a single relay, over which clients ask in plain JSON.
use crate::exchange::CallView;
use crate::handler::{RelayError, RelayErrorCode, Transaction};
use crate::json::{
    field_value, find_field, is_json, json_fields, json_string, labelled_json, read_fields,
    read_string, records_json, texts_json, write_labelled, write_records, write_texts,
    JsonFieldView, JsonMember, JsonMemberView, JsonScalar, JsonScalarView,
};
use crate::nip47::{
    list_transactions_json, list_transactions_value, listing_params, listing_read_as,
    pay_invoice_json, pay_invoice_read_as, pay_invoice_value, ErrorCode, ListTransactionsRequest,
    Method, PayInvoiceRequest,
};
use crate::response::{GetBalanceResponse, PayInvoiceResponse};
use crate::text::{joined, same_text};
use nostr::nips::nip47;
use serde_json::to_string;
use vstd::prelude::*;

verus! {

/// The text of the URL that `url::Url::parse` reads out of a text, or `None` where it refuses.
pub uninterp spec fn url_text(text: Seq<char>) -> Option<Seq<char>>;

/// Calls `url::Url::parse` and writes the URL. Claimed: the result depends on the text alone.
#[verifier::external_body]
fn parse_url(text: &str) -> (r: Option<String>)
    ensures
        r.deep_view() == url_text(text@),
{
    url::Url::parse(text).ok().map(|url| url.to_string())
}

/// The text that `serde_json::to_string` writes for a `nostr::nips::nip47::PayInvoiceResponse`.
pub uninterp spec fn pay_invoice_result_json(
    preimage: Seq<char>,
    fees_paid: Option<u64>,
) -> Seq<char>;

/// The text that `serde_json::to_string` writes for a `nostr::nips::nip47::GetBalanceResponse`.
pub uninterp spec fn balance_result_json(balance: u64) -> Seq<char>;

/// Calls `serde_json::to_string` on a `nostr::nips::nip47::PayInvoiceResponse`, which holds texts
/// and numbers alone and so never fails. Claimed: the text depends on the arguments alone and is
/// accepted as JSON.
#[verifier::external_body]
fn write_pay_invoice_result(preimage: &str, fees_paid: Option<u64>) -> (r: String)
    ensures
        r@ == pay_invoice_result_json(preimage@, fees_paid),
        is_json(r@),
{
    let preimage = preimage.to_owned();
    to_string(&nip47::PayInvoiceResponse { preimage, fees_paid }).unwrap()
}

/// Calls `serde_json::to_string` on a `nostr::nips::nip47::GetBalanceResponse`, which holds a number
/// alone and so never fails. Claimed: the text depends on the balance alone and is accepted as
/// JSON.
#[verifier::external_body]
fn write_balance_result(balance: u64) -> (r: String)
    ensures
        r@ == balance_result_json(balance),
        is_json(r@),
{
    to_string(&nip47::GetBalanceResponse { balance }).unwrap()
}

/// What a message is answered with where the wallet has served it.
pub enum RelayResult {
    PayInvoice(PayInvoiceResponse),
    ListTransactions(Vec<Transaction>),
    GetBalance(GetBalanceResponse),
}

/// A text in an answer, or null.
pub open spec fn text_member(name: Seq<char>, text: Option<String>) -> JsonMemberView {
    JsonMemberView {
        name,
        value: match text {
            Some(text) => JsonScalarView::Text(text@),
            None => JsonScalarView::Null,
        },
    }
}

/// A number in an answer, or null.
pub open spec fn number_member(name: Seq<char>, number: Option<u64>) -> JsonMemberView {
    JsonMemberView {
        name,
        value: match number {
            Some(number) => JsonScalarView::Number(number),
            None => JsonScalarView::Null,
        },
    }
}

/// What an answer says of a transaction.
pub open spec fn transaction_members(transaction: Transaction) -> Seq<JsonMemberView> {
    seq![
        text_member("id"@, Some(transaction.id)),
        text_member("invoice"@, transaction.invoice),
        text_member("description"@, transaction.description),
        text_member("description_hash"@, transaction.description_hash),
        text_member("preimage"@, transaction.preimage),
        text_member("payment_hash"@, Some(transaction.payment_hash)),
        number_member("amount"@, Some(transaction.amount)),
        number_member("fees_paid"@, transaction.fees_paid),
        number_member("timestamp"@, Some(transaction.timestamp)),
        number_member("settled_at"@, transaction.settled_at),
        text_member("payment_type"@, Some(transaction.payment_type)),
        text_member("state"@, Some(transaction.state)),
    ]
}

/// What an answer says of transactions, in their order.
pub open spec fn transaction_records(transactions: Seq<Transaction>) -> Seq<Seq<JsonMemberView>> {
    transactions.map_values(|transaction: Transaction| transaction_members(transaction))
}

/// The JSON text of a result: a list of transactions holds each of them whole.
pub open spec fn relay_result_json(result: RelayResult) -> Seq<char> {
    match result {
        RelayResult::PayInvoice(paid) => pay_invoice_result_json(paid.preimage@, paid.fees_paid),
        RelayResult::ListTransactions(transactions) => records_json(
            "transactions"@,
            transaction_records(transactions@),
        ),
        RelayResult::GetBalance(balance) => balance_result_json(balance.balance),
    }
}

fn write_text_member(name: &str, text: Option<&String>) -> (r: JsonMember)
    ensures
        r.deep_view() == text_member(
            name@,
            match text {
                Some(text) => Some(*text),
                None => None,
            },
        ),
{
    let value = match text {
        Some(text) => JsonScalar::Text(text.clone()),
        None => JsonScalar::Null,
    };
    JsonMember { name: name.to_owned(), value }
}

fn write_number_member(name: &str, number: Option<u64>) -> (r: JsonMember)
    ensures
        r.deep_view() == number_member(name@, number),
{
    let value = match number {
        Some(number) => JsonScalar::Number(number),
        None => JsonScalar::Null,
    };
    JsonMember { name: name.to_owned(), value }
}

/// Says what an answer says of a transaction.
fn write_transaction(transaction: &Transaction) -> (r: Vec<JsonMember>)
    ensures
        r.deep_view() == transaction_members(*transaction),
{
    let members: Vec<JsonMember> = vec![
        write_text_member("id", Some(&transaction.id)),
        write_text_member("invoice", transaction.invoice.as_ref()),
        write_text_member("description", transaction.description.as_ref()),
        write_text_member("description_hash", transaction.description_hash.as_ref()),
        write_text_member("preimage", transaction.preimage.as_ref()),
        write_text_member("payment_hash", Some(&transaction.payment_hash)),
        write_number_member("amount", Some(transaction.amount)),
        write_number_member("fees_paid", transaction.fees_paid),
        write_number_member("timestamp", Some(transaction.timestamp)),
        write_number_member("settled_at", transaction.settled_at),
        write_text_member("payment_type", Some(&transaction.payment_type)),
        write_text_member("state", Some(&transaction.state)),
    ];
    assert(members.deep_view() =~= transaction_members(*transaction));
    members
}

/// Writes a result as JSON.
pub fn write_relay_result(result: &RelayResult) -> (r: String)
    ensures
        r@ == relay_result_json(*result),
        is_json(r@),
{
    match result {
        RelayResult::PayInvoice(paid) => write_pay_invoice_result(
            paid.preimage.as_str(),
            paid.fees_paid,
        ),
        RelayResult::ListTransactions(transactions) => {
            let mut records: Vec<Vec<JsonMember>> = Vec::new();
            let ghost all = transaction_records(transactions@);
            for i in 0..transactions.len()
                invariant
                    all == transaction_records(transactions@),
                    records.deep_view() == all.take(i as int),
            {
                let ghost before = records.deep_view();
                let record = write_transaction(&transactions[i]);
                records.push(record);
                assert(records.deep_view() =~= before.push(record.deep_view()));
                assert(all.take(i + 1) =~= all.take(i as int).push(all[i as int]));
            }
            assert(all.take(all.len() as int) =~= all);
            write_records("transactions", &records)
        },
        RelayResult::GetBalance(balance) => write_balance_result(balance.balance),
    }
}

/// The service that answers over a single relay.
pub struct BreezRelayService {
    pub relay_url: String,
    pub pubkey: String,
    pub secret_key: String,
}

/// What a message asks for.
pub enum Asked {
    /// A call of the wallet.
    Call(CallView),
    /// Nothing that can be served: the label and the message of the answer.
    Refused { label: Seq<char>, message: Seq<char> },
}

/// What is done about a message.
pub enum Received {
    /// The wallet is called to pay an invoice, with the JSON text of the parameters.
    PayInvoice(String),
    /// The wallet is called to list transactions, with the JSON text of the parameters.
    ListTransactions(String),
    /// The wallet is called for its balance.
    GetBalance,
    /// The message is answered at once.
    Reply(String),
}

/// The name of the method that the members of a request call, or why there is none.
pub open spec fn requested_method(fields: Seq<JsonFieldView>) -> Result<Seq<char>, Seq<char>> {
    match field_value(fields, "method"@) {
        Some(Some(text)) => json_string(text),
        Some(None) => Err("invalid type: null, expected a string"@),
        None => Err("missing field `method`"@),
    }
}

/// The JSON text of the parameters of a request. There are none where they are missing or null.
pub open spec fn requested_params(fields: Seq<JsonFieldView>) -> Option<Seq<char>> {
    match field_value(fields, "params"@) {
        Some(params) => params,
        None => None,
    }
}

/// What a message asks for: it is an object whose member `method` names the method; the methods
/// that need parameters have them in its member `params`.
pub open spec fn asked(message: Seq<char>) -> Asked {
    match json_fields(message) {
        Ok(fields) => match requested_method(fields) {
            Ok(method) => asked_of(method, requested_params(fields)),
            Err(error) => Asked::Refused {
                label: "error"@,
                message: "Failed to decode message: "@ + error,
            },
        },
        Err(error) => Asked::Refused {
            label: "error"@,
            message: "Failed to decode message: "@ + error,
        },
    }
}

/// What a request of the given method asks for with the given parameters.
pub open spec fn asked_of(method: Seq<char>, params: Option<Seq<char>>) -> Asked {
    if method == Method::PayInvoice.name() {
        match params {
            Some(text) => match pay_invoice_value(text) {
                Ok(request) => Asked::Call(CallView::PayInvoice(request)),
                Err(error) => Asked::Refused {
                    label: method,
                    message: "Invalid params: "@ + error,
                },
            },
            None => Asked::Refused { label: method, message: "No params field in request"@ },
        }
    } else if method == Method::ListTransactions.name() {
        match params {
            Some(text) => match list_transactions_value(listing_params(text)) {
                Ok(request) => Asked::Call(CallView::ListTransactions(request)),
                Err(error) => Asked::Refused {
                    label: method,
                    message: "Invalid params: "@ + error,
                },
            },
            None => Asked::Refused { label: method, message: "No params field in request"@ },
        }
    } else if method == Method::GetBalance.name() {
        Asked::Call(CallView::GetBalance)
    } else {
        Asked::Refused { label: "error"@, message: "Unhandled method: "@ + method }
    }
}

/// Whether that is done about a message which it asks for. The parameters reach the wallet as they
/// were asked for.
pub open spec fn serves(received: Received, asked: Asked) -> bool {
    match asked {
        Asked::Call(CallView::PayInvoice(request)) => received matches Received::PayInvoice(params)
            && params@ == pay_invoice_json(request) && pay_invoice_read_as(params@, request),
        Asked::Call(CallView::ListTransactions(request)) => received matches
            Received::ListTransactions(params) && params@ == list_transactions_json(request)
            && listing_read_as(params@, request),
        Asked::Call(CallView::GetBalance) => received is GetBalance,
        Asked::Refused { label, message } => received matches Received::Reply(text) && text@
            == error_reply(label, RelayErrorCode::InvalidRequest, message),
    }
}

/// The JSON text of an answer with a result.
pub open spec fn result_reply(label: Seq<char>, result: RelayResult) -> Seq<char> {
    labelled_json("result_type"@, label, "result"@, relay_result_json(result))
}

/// The JSON text of an answer with an error.
pub open spec fn error_reply(label: Seq<char>, code: RelayErrorCode, message: Seq<char>) -> Seq<
    char,
> {
    labelled_json(
        "result_type"@,
        label,
        "error"@,
        texts_json(seq![("code"@, code.name()), ("message"@, message)]),
    )
}

/// The JSON text of an answer.
pub open spec fn reply_text(label: Seq<char>, outcome: Result<RelayResult, RelayError>) -> Seq<
    char,
> {
    match outcome {
        Ok(result) => result_reply(label, result),
        Err(error) => error_reply(label, error.code, error.message@),
    }
}

impl BreezRelayService {
    /// A service for the given relay and keys.
    pub fn new(relay_url: String, pubkey: String, secret_key: String) -> (r: BreezRelayService)
        ensures
            r.relay_url == relay_url,
            r.pubkey == pubkey,
            r.secret_key == secret_key,
    {
        BreezRelayService { relay_url, pubkey, secret_key }
    }

    /// The URL to connect to, where the relay's is one.
    pub fn relay_address(&self) -> (r: Option<String>)
        ensures
            r.deep_view() == url_text(self.relay_url@),
    {
        parse_url(self.relay_url.as_str())
    }

    /// Writes an answer under a label: the name of the method, or `error` where there is none.
    pub fn send_msg(&self, label: &str, outcome: &Result<RelayResult, RelayError>) -> (r: String)
        ensures
            r@ == reply_text(label@, *outcome),
    {
        match outcome {
            Ok(result) => {
                let value = write_relay_result(result);
                write_labelled("result_type", label, "result", value.as_str()).unwrap()
            },
            Err(error) => {
                let members: Vec<(String, String)> = vec![
                    ("code".to_owned(), error.code.as_str().to_owned()),
                    ("message".to_owned(), error.message.clone()),
                ];
                assert(members.deep_view() =~= seq![
                    ("code"@, error.code.name()),
                    ("message"@, error.message@),
                ]);
                let value = write_texts(&members);
                write_labelled("result_type", label, "error", value.as_str()).unwrap()
            },
        }
    }

    /// Answers a message that cannot be served.
    fn refuse(&self, label: &str, message: String) -> (r: Received)
        ensures
            r matches Received::Reply(text) && text@ == error_reply(
                label@,
                RelayErrorCode::InvalidRequest,
                message@,
            ),
    {
        let error = RelayError { code: RelayErrorCode::InvalidRequest, message };
        Received::Reply(self.send_msg(label, &Err(error)))
    }

    /// Says what is done about a request of the given method and with the given JSON text of
    /// parameters.
    pub fn dispatch(&self, method: &str, params: &Option<String>) -> (r: Received)
        ensures
            serves(r, asked_of(method@, params.deep_view())),
    {
        if same_text(method, Method::PayInvoice.as_str()) {
            match params {
                Some(text) => match PayInvoiceRequest::from_value(text.as_str()) {
                    Ok(request) => Received::PayInvoice(request.to_json()),
                    Err(error) => self.refuse(method, joined("Invalid params: ", error.as_str())),
                },
                None => self.refuse(method, "No params field in request".to_owned()),
            }
        } else if same_text(method, Method::ListTransactions.as_str()) {
            match params {
                Some(text) => match ListTransactionsRequest::from_value(text.as_str()) {
                    Ok(request) => Received::ListTransactions(request.to_json()),
                    Err(error) => self.refuse(method, joined("Invalid params: ", error.as_str())),
                },
                None => self.refuse(method, "No params field in request".to_owned()),
            }
        } else if same_text(method, Method::GetBalance.as_str()) {
            Received::GetBalance
        } else {
            self.refuse("error", joined("Unhandled method: ", method))
        }
    }

    /// Reads a message and says what is done about it.
    pub fn recv_msg(&self, message: &str) -> (r: Received)
        ensures
            serves(r, asked(message@)),
    {
        let fields = match read_fields(message) {
            Ok(fields) => fields,
            Err(error) => {
                return self.refuse("error", joined("Failed to decode message: ", error.as_str()));
            },
        };
        let method = match find_field(&fields, "method") {
            Some(field) => match &field.value {
                Some(text) => read_string(text.as_str()),
                None => Err("invalid type: null, expected a string".to_owned()),
            },
            None => Err("missing field `method`".to_owned()),
        };
        match method {
            Ok(method) => match find_field(&fields, "params") {
                Some(field) => self.dispatch(method.as_str(), &field.value),
                None => self.dispatch(method.as_str(), &None),
            },
            Err(error) => self.refuse(
                "error",
                joined("Failed to decode message: ", error.as_str()),
            ),
        }
    }

    /// Answers a request that the wallet has served or refused.
    pub fn reply(&self, method: Method, outcome: &Result<RelayResult, RelayError>) -> (r: String)
        ensures
            r@ == reply_text(method.name(), *outcome),
    {
        self.send_msg(method.as_str(), outcome)
    }

    /// Says what is answered once more after an attempt to send an answer: only where the wallet has
    /// served the request and the answer could not be sent, that it could not.
    pub fn after_send(
        &self,
        method: Method,
        outcome: &Result<RelayResult, RelayError>,
        sent: &Result<(), String>,
    ) -> (r: Option<String>)
        ensures
            r.deep_view() == match (*outcome, *sent) {
                (Ok(_), Err(e)) => Some(
                    error_reply(
                        method.name(),
                        RelayErrorCode::Wallet(ErrorCode::Internal),
                        "Failed to send response: "@ + e@,
                    ),
                ),
                _ => None,
            },
    {
        match (outcome, sent) {
            (Ok(_), Err(e)) => {
                let error = RelayError {
                    code: RelayErrorCode::Wallet(ErrorCode::Internal),
                    message: joined("Failed to send response: ", e.as_str()),
                };
                Some(self.send_msg(method.as_str(), &Err(error)))
            },
            _ => None,
        }
    }
}

/// How far the connection to the relay has come.
#[derive(Clone, Copy, Debug, PartialEq, Eq, Structural)]
pub enum SocketState {
    /// It waits for the connection.
    Connecting,
    /// It sends the first ping.
    Pinging,
    /// It reads messages.
    Reading,
    /// It answers a ping.
    Ponging,
    /// It answers a close.
    Closing,
    /// It has ended.
    Closed,
}

/// What happens to the connection.
pub enum SocketEvent {
    /// The relay has answered with the given HTTP status.
    Connected(u16),
    /// The relay cannot be reached.
    ConnectFailed,
    /// What was to be sent is sent.
    Sent,
    /// What was to be sent cannot be sent.
    SendFailed,
    /// A text message has come.
    Text(String),
    /// A ping with some data has come.
    Ping(Vec<u8>),
    /// A pong has come.
    Pong,
    /// The relay closes the connection.
    Close,
    /// Another message has come.
    Other,
    /// The connection is broken.
    Broken,
    /// There are no more messages.
    Ended,
    /// The service is asked to end.
    Shutdown,
}

/// What is done next about the connection.
pub enum SocketAction {
    /// Send a ping without data.
    SendPing,
    /// Read the next message.
    Read,
    /// Serve a text message, then read the next message.
    Receive(String),
    /// Send a pong with the data of the ping.
    SendPong(Vec<u8>),
    /// Send a close without a reason.
    SendClose,
    /// Wait for what is under way.
    Wait,
    /// Nothing more.
    Stop,
}

/// Whether an HTTP status tells of success.
pub open spec fn success_status(status: u16) -> bool {
    200 <= status < 300
}

/// Where an event leads: through connecting and a first ping to reading; there texts are served,
/// pings and closes are answered, and the connection ends after a close, when it is broken or when
/// there is nothing more; it ends too where the relay cannot be reached or answers without success,
/// where a ping or a pong cannot be sent, and when the service is asked to end. What does not
/// belong to a state is passed over.
pub open spec fn next_socket(state: SocketState, event: SocketEvent) -> (
    SocketState,
    SocketAction,
) {
    match (state, event) {
        (SocketState::Closed, _) => (SocketState::Closed, SocketAction::Stop),
        (_, SocketEvent::Shutdown) => (SocketState::Closed, SocketAction::Stop),
        (SocketState::Connecting, SocketEvent::Connected(status)) => if success_status(status) {
            (SocketState::Pinging, SocketAction::SendPing)
        } else {
            (SocketState::Closed, SocketAction::Stop)
        },
        (SocketState::Connecting, SocketEvent::ConnectFailed) => (
            SocketState::Closed,
            SocketAction::Stop,
        ),
        (SocketState::Pinging | SocketState::Ponging, SocketEvent::Sent) => (
            SocketState::Reading,
            SocketAction::Read,
        ),
        (SocketState::Pinging | SocketState::Ponging, SocketEvent::SendFailed) => (
            SocketState::Closed,
            SocketAction::Stop,
        ),
        (SocketState::Reading, SocketEvent::Text(text)) => (
            SocketState::Reading,
            SocketAction::Receive(text),
        ),
        (SocketState::Reading, SocketEvent::Ping(data)) => (
            SocketState::Ponging,
            SocketAction::SendPong(data),
        ),
        (SocketState::Reading, SocketEvent::Close) => (
            SocketState::Closing,
            SocketAction::SendClose,
        ),
        (SocketState::Reading, SocketEvent::Broken | SocketEvent::Ended) => (
            SocketState::Closed,
            SocketAction::Stop,
        ),
        (SocketState::Closing, SocketEvent::Sent | SocketEvent::SendFailed) => (
            SocketState::Closed,
            SocketAction::Stop,
        ),
        (SocketState::Reading, SocketEvent::Pong | SocketEvent::Other) => (
            SocketState::Reading,
            SocketAction::Read,
        ),
        _ => (state, SocketAction::Wait),
    }
}

/// Says what is done next about the connection.
pub fn socket_step(state: SocketState, event: SocketEvent) -> (r: (SocketState, SocketAction))
    ensures
        r == next_socket(state, event),
{
    match (state, event) {
        (SocketState::Closed, _) => (SocketState::Closed, SocketAction::Stop),
        (_, SocketEvent::Shutdown) => (SocketState::Closed, SocketAction::Stop),
        (SocketState::Connecting, SocketEvent::Connected(status)) => {
            if 200 <= status && status < 300 {
                (SocketState::Pinging, SocketAction::SendPing)
            } else {
                (SocketState::Closed, SocketAction::Stop)
            }
        },
        (SocketState::Connecting, SocketEvent::ConnectFailed) => (
            SocketState::Closed,
            SocketAction::Stop,
        ),
        (SocketState::Pinging | SocketState::Ponging, SocketEvent::Sent) => (
            SocketState::Reading,
            SocketAction::Read,
        ),
        (SocketState::Pinging | SocketState::Ponging, SocketEvent::SendFailed) => (
            SocketState::Closed,
            SocketAction::Stop,
        ),
        (SocketState::Reading, SocketEvent::Text(text)) => (
            SocketState::Reading,
            SocketAction::Receive(text),
        ),
        (SocketState::Reading, SocketEvent::Ping(data)) => (
            SocketState::Ponging,
            SocketAction::SendPong(data),
        ),
        (SocketState::Reading, SocketEvent::Close) => (
            SocketState::Closing,
            SocketAction::SendClose,
        ),
        (SocketState::Reading, SocketEvent::Broken | SocketEvent::Ended) => (
            SocketState::Closed,
            SocketAction::Stop,
        ),
        (SocketState::Closing, SocketEvent::Sent | SocketEvent::SendFailed) => (
            SocketState::Closed,
            SocketAction::Stop,
        ),
        (SocketState::Reading, SocketEvent::Pong | SocketEvent::Other) => (
            SocketState::Reading,
            SocketAction::Read,
        ),
        _ => (state, SocketAction::Wait),
    }
}

} // verus!
