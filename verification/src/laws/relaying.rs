//! What is done about a plain message over a single relay, and what it is answered.
use crate::handler::{lists, ListPaymentsRequest, RelayError, RelayErrorCode, Transaction};
use crate::json::{
    field_value, fields_read_as, json_fields, json_string, labelled_json, records_json,
    string_read_as, texts_json, without_member, JsonFieldView, JsonMemberView, JsonScalarView,
};
use crate::laws::telling::law_asked_listing_is_queried;
use crate::nip47::{
    list_transactions_value, list_transactions_value_is, listing_params, listing_read_as,
    parsed_list_transactions, parsed_pay_invoice, pay_invoice_read_as, pay_invoice_value,
    pay_invoice_value_is, ListTransactionsRequest, PayInvoiceView,
};
use crate::relay::{
    asked, asked_of, balance_result_json, next_socket, pay_invoice_result_json, reply_text,
    serves, transaction_records, Asked, Received, RelayResult, SocketAction, SocketEvent,
    SocketState,
};
use vstd::prelude::*;

verus! {

/// The value of a member is that of the first member of its name, and there is none where no member
/// has the name.
pub proof fn law_member_is_found(fields: Seq<JsonFieldView>, name: Seq<char>, i: int)
    requires
        0 <= i <= fields.len(),
        forall|j: int| 0 <= j < i ==> (#[trigger] fields[j]).name != name,
    ensures
        i < fields.len() && fields[i].name == name ==> field_value(fields, name) == Some(
            fields[i].value,
        ),
        i == fields.len() ==> field_value(fields, name) is None,
    decreases fields.len(),
{
    if fields.len() > 0 {
        if i > 0 {
            let rest = fields.drop_first();
            assert(fields[0].name != name);
            assert forall|j: int| 0 <= j < i - 1 implies (#[trigger] rest[j]).name != name by {
                assert(rest[j] == fields[j + 1]);
            }
            law_member_is_found(rest, name, i - 1);
        }
    }
}

/// What is read out of a text is what is said to be.
pub proof fn law_reading_is_what_it_says(
    text: Seq<char>,
    fields: Seq<JsonFieldView>,
    said: Seq<char>,
    listing: ListTransactionsRequest,
    payment: PayInvoiceView,
)
    ensures
        fields_read_as(text, fields) <==> json_fields(text) == Ok::<
            Seq<JsonFieldView>,
            Seq<char>,
        >(fields),
        string_read_as(text, said) <==> json_string(text) == Ok::<Seq<char>, Seq<char>>(said),
        listing_read_as(text, listing) <==> parsed_list_transactions(listing_params(text)) == Ok::<
            ListTransactionsRequest,
            Seq<char>,
        >(listing),
        list_transactions_value_is(text, listing) <==> list_transactions_value(text) == Ok::<
            ListTransactionsRequest,
            Seq<char>,
        >(listing),
        pay_invoice_read_as(text, payment) <==> parsed_pay_invoice(text) == Ok::<
            PayInvoiceView,
            Seq<char>,
        >(payment),
        pay_invoice_value_is(text, payment) <==> pay_invoice_value(text) == Ok::<
            PayInvoiceView,
            Seq<char>,
        >(payment),
{
}

/// A request to list transactions reaches the wallet as it was asked for: where the first member
/// `method` of a message says `list_transactions` and its first member `params` is read as a
/// request, the handler reads the very same request out of what it is handed, with every one of its
/// six parameters, and asks the wallet for it.
pub proof fn law_listing_reaches_the_wallet(
    message: Seq<char>,
    fields: Seq<JsonFieldView>,
    method_at: int,
    method: Seq<char>,
    params_at: int,
    params: Seq<char>,
    request: ListTransactionsRequest,
    received: Received,
    query: ListPaymentsRequest,
)
    requires
        json_fields(message) == Ok::<Seq<JsonFieldView>, Seq<char>>(fields),
        0 <= method_at < fields.len(),
        fields[method_at].name == "method"@,
        fields[method_at].value == Some(method),
        forall|j: int| 0 <= j < method_at ==> (#[trigger] fields[j]).name != "method"@,
        json_string(method) == Ok::<Seq<char>, Seq<char>>("list_transactions"@),
        0 <= params_at < fields.len(),
        fields[params_at].name == "params"@,
        fields[params_at].value == Some(params),
        forall|j: int| 0 <= j < params_at ==> (#[trigger] fields[j]).name != "params"@,
        list_transactions_value(listing_params(params)) == Ok::<ListTransactionsRequest, Seq<char>>(
            request,
        ),
        serves(received, asked(message)),
    ensures
        received matches Received::ListTransactions(text) && parsed_list_transactions(
            listing_params(text@),
        ) == Ok::<ListTransactionsRequest, Seq<char>>(request) && (parsed_list_transactions(
            listing_params(text@),
        ) matches Ok(read) && lists(query, read) ==> query.from_timestamp == request.from
            && query.to_timestamp == request.until && query.limit == request.limit && query.offset
            == request.offset && (query.filters is None <==> request.transaction_type is None) && (
        query.states is None <==> request.unpaid is None)),
{
    lemma_method_names();
    law_member_is_found(fields, "method"@, method_at);
    law_member_is_found(fields, "params"@, params_at);
    if lists(query, request) {
        law_asked_listing_is_queried(query, request);
    }
}

/// A request to pay an invoice reaches the wallet as it was asked for: where the first member
/// `method` of a message says `pay_invoice` and its first member `params` is read as a request, the
/// handler reads the very same request out of what it is handed.
pub proof fn law_payment_reaches_the_wallet(
    message: Seq<char>,
    fields: Seq<JsonFieldView>,
    method_at: int,
    method: Seq<char>,
    params_at: int,
    params: Seq<char>,
    request: PayInvoiceView,
    received: Received,
)
    requires
        json_fields(message) == Ok::<Seq<JsonFieldView>, Seq<char>>(fields),
        0 <= method_at < fields.len(),
        fields[method_at].name == "method"@,
        fields[method_at].value == Some(method),
        forall|j: int| 0 <= j < method_at ==> (#[trigger] fields[j]).name != "method"@,
        json_string(method) == Ok::<Seq<char>, Seq<char>>("pay_invoice"@),
        0 <= params_at < fields.len(),
        fields[params_at].name == "params"@,
        fields[params_at].value == Some(params),
        forall|j: int| 0 <= j < params_at ==> (#[trigger] fields[j]).name != "params"@,
        pay_invoice_value(params) == Ok::<PayInvoiceView, Seq<char>>(request),
        serves(received, asked(message)),
    ensures
        received matches Received::PayInvoice(text) && parsed_pay_invoice(text@) == Ok::<
            PayInvoiceView,
            Seq<char>,
        >(request),
{
    lemma_method_names();
    law_member_is_found(fields, "method"@, method_at);
    law_member_is_found(fields, "params"@, params_at);
}

/// A question for the balance reaches the wallet, whatever parameters come with it.
pub proof fn law_balance_question_reaches_the_wallet(
    message: Seq<char>,
    fields: Seq<JsonFieldView>,
    method_at: int,
    method: Seq<char>,
    received: Received,
)
    requires
        json_fields(message) == Ok::<Seq<JsonFieldView>, Seq<char>>(fields),
        0 <= method_at < fields.len(),
        fields[method_at].name == "method"@,
        fields[method_at].value == Some(method),
        forall|j: int| 0 <= j < method_at ==> (#[trigger] fields[j]).name != "method"@,
        json_string(method) == Ok::<Seq<char>, Seq<char>>("get_balance"@),
        serves(received, asked(message)),
    ensures
        received is GetBalance,
{
    lemma_method_names();
    law_member_is_found(fields, "method"@, method_at);
}

proof fn lemma_method_names()
    ensures
        "pay_invoice"@ != "list_transactions"@,
        "pay_invoice"@ != "get_balance"@,
        "list_transactions"@ != "get_balance"@,
{
    reveal_strlit("pay_invoice");
    reveal_strlit("list_transactions");
    reveal_strlit("get_balance");
    assert("pay_invoice"@[0] == 'p');
    assert("list_transactions"@[0] == 'l');
    assert("get_balance"@[0] == 'g');
}

/// A message is answered that it cannot be served where it is no object, or where the parameters of
/// a payment or a listing are missing or cannot be read, or where it names another method; the
/// answer says why, under the name of the method where the wallet has it.
pub proof fn law_unserved_message_is_answered(
    message: Seq<char>,
    method: Seq<char>,
    params: Option<Seq<char>>,
    received: Received,
    error: Seq<char>,
)
    ensures
        json_fields(message) == Err::<Seq<JsonFieldView>, Seq<char>>(error) && serves(
            received,
            asked(message),
        ) ==> refused(received, "error"@, "Failed to decode message: "@ + error),
        method != "pay_invoice"@ && method != "list_transactions"@ && method != "get_balance"@
            && serves(received, asked_of(method, params)) ==> refused(
            received,
            "error"@,
            "Unhandled method: "@ + method,
        ),
        (method == "pay_invoice"@ || method == "list_transactions"@) && params is None && serves(
            received,
            asked_of(method, params),
        ) ==> refused(received, method, "No params field in request"@),
        method == "pay_invoice"@ && serves(received, asked_of(method, params)) ==> (params matches
            Some(text) ==> pay_invoice_value(text) == Err::<PayInvoiceView, Seq<char>>(error)
            ==> refused(received, method, "Invalid params: "@ + error)),
        method == "list_transactions"@ && serves(received, asked_of(method, params)) ==> (
        params matches Some(text) ==> list_transactions_value(listing_params(text)) == Err::<
            ListTransactionsRequest,
            Seq<char>,
        >(error) ==> refused(received, method, "Invalid params: "@ + error)),
{
    lemma_method_names();
}

/// Whether a message is answered at once with an error of the code for requests that cannot be
/// served.
pub open spec fn refused(received: Received, label: Seq<char>, message: Seq<char>) -> bool {
    received matches Received::Reply(text) && text@ == labelled_json(
        "result_type"@,
        label,
        "error"@,
        texts_json(seq![("code"@, "INVALID_REQUEST"@), ("message"@, message)]),
    )
}

/// A message asks by the text of its first member `method` and by its first member `params`; where
/// that is missing or null, it asks without parameters.
pub proof fn law_message_asks_by_its_members(
    message: Seq<char>,
    fields: Seq<JsonFieldView>,
    method_at: int,
    value: Seq<char>,
    method: Seq<char>,
    params_at: int,
)
    requires
        json_fields(message) == Ok::<Seq<JsonFieldView>, Seq<char>>(fields),
        0 <= method_at < fields.len(),
        fields[method_at].name == "method"@,
        fields[method_at].value == Some(value),
        forall|j: int| 0 <= j < method_at ==> (#[trigger] fields[j]).name != "method"@,
        json_string(value) == Ok::<Seq<char>, Seq<char>>(method),
        0 <= params_at <= fields.len(),
        params_at < fields.len() ==> fields[params_at].name == "params"@,
        forall|j: int| 0 <= j < params_at ==> (#[trigger] fields[j]).name != "params"@,
    ensures
        params_at < fields.len() ==> asked(message) == asked_of(method, fields[params_at].value),
        params_at == fields.len() ==> asked(message) == asked_of(method, None),
{
    law_member_is_found(fields, "method"@, method_at);
    law_member_is_found(fields, "params"@, params_at);
}

/// A message without a method, or whose method is no text, is answered that it cannot be read.
pub proof fn law_message_needs_a_method(
    message: Seq<char>,
    fields: Seq<JsonFieldView>,
    method_at: int,
    received: Received,
)
    requires
        json_fields(message) == Ok::<Seq<JsonFieldView>, Seq<char>>(fields),
        0 <= method_at <= fields.len(),
        method_at < fields.len() ==> fields[method_at].name == "method"@,
        forall|j: int| 0 <= j < method_at ==> (#[trigger] fields[j]).name != "method"@,
        serves(received, asked(message)),
    ensures
        method_at == fields.len() ==> refused(
            received,
            "error"@,
            "Failed to decode message: "@ + "missing field `method`"@,
        ),
        method_at < fields.len() && fields[method_at].value is None ==> refused(
            received,
            "error"@,
            "Failed to decode message: "@ + "invalid type: null, expected a string"@,
        ),
        method_at < fields.len() ==> (fields[method_at].value matches Some(value) ==> (json_string(
            value,
        ) matches Err(error) ==> refused(
            received,
            "error"@,
            "Failed to decode message: "@ + error,
        ))),
{
    law_member_is_found(fields, "method"@, method_at);
}

/// The parameters of a listing are read as they stand unless their first member `type` is a text
/// other than the two words for a way; then they are read without that member.
pub proof fn law_other_way_alone_is_passed_over(
    text: Seq<char>,
    fields: Seq<JsonFieldView>,
    type_at: int,
)
    requires
        json_fields(text) == Ok::<Seq<JsonFieldView>, Seq<char>>(fields),
        0 <= type_at <= fields.len(),
        type_at < fields.len() ==> fields[type_at].name == "type"@,
        forall|j: int| 0 <= j < type_at ==> (#[trigger] fields[j]).name != "type"@,
    ensures
        type_at == fields.len() ==> listing_params(text) == text,
        type_at < fields.len() ==> match fields[type_at].value {
            Some(value) => match json_string(value) {
                Ok(word) => if word == "incoming"@ || word == "outgoing"@ {
                    listing_params(text) == text
                } else {
                    without_member(text, "type"@) matches Some(rest) ==> listing_params(text)
                        == rest
                },
                Err(_) => listing_params(text) == text,
            },
            None => listing_params(text) == text,
        },
{
    law_member_is_found(fields, "type"@, type_at);
}

/// Parameters that are no object are read as they stand.
pub proof fn law_other_params_are_read_as_they_stand(text: Seq<char>)
    requires
        json_fields(text) is Err,
    ensures
        listing_params(text) == text,
{
}

/// In an answer over the relay a client reads of each transaction, at its position, all that is
/// known of it, and nothing else.
pub proof fn law_transaction_is_answered_whole(transactions: Seq<Transaction>, i: int)
    requires
        0 <= i < transactions.len(),
    ensures
        ({
            let t = transactions[i];
            let records = transaction_records(transactions);
            &&& records.len() == transactions.len()
            &&& records[i].len() == 12
            &&& says_text(records[i], "id"@, Some(t.id@))
            &&& says_text(records[i], "invoice"@, t.invoice.deep_view())
            &&& says_text(records[i], "description"@, t.description.deep_view())
            &&& says_text(records[i], "description_hash"@, t.description_hash.deep_view())
            &&& says_text(records[i], "preimage"@, t.preimage.deep_view())
            &&& says_text(records[i], "payment_hash"@, Some(t.payment_hash@))
            &&& says_number(records[i], "amount"@, Some(t.amount))
            &&& says_number(records[i], "fees_paid"@, t.fees_paid)
            &&& says_number(records[i], "timestamp"@, Some(t.timestamp))
            &&& says_number(records[i], "settled_at"@, t.settled_at)
            &&& says_text(records[i], "payment_type"@, Some(t.payment_type@))
            &&& says_text(records[i], "state"@, Some(t.state@))
        }),
{
    let record = transaction_records(transactions)[i];
    assert(record.contains(record[0]));
    assert(record.contains(record[1]));
    assert(record.contains(record[2]));
    assert(record.contains(record[3]));
    assert(record.contains(record[4]));
    assert(record.contains(record[5]));
    assert(record.contains(record[6]));
    assert(record.contains(record[7]));
    assert(record.contains(record[8]));
    assert(record.contains(record[9]));
    assert(record.contains(record[10]));
    assert(record.contains(record[11]));
}

/// Whether a record says a text under a name, or null.
pub open spec fn says_text(
    record: Seq<JsonMemberView>,
    name: Seq<char>,
    text: Option<Seq<char>>,
) -> bool {
    match text {
        Some(text) => record.contains(JsonMemberView { name, value: JsonScalarView::Text(text) }),
        None => record.contains(JsonMemberView { name, value: JsonScalarView::Null }),
    }
}

/// Whether a record says a number under a name, or null.
pub open spec fn says_number(
    record: Seq<JsonMemberView>,
    name: Seq<char>,
    number: Option<u64>,
) -> bool {
    match number {
        Some(number) => record.contains(
            JsonMemberView { name, value: JsonScalarView::Number(number) },
        ),
        None => record.contains(JsonMemberView { name, value: JsonScalarView::Null }),
    }
}

/// An answer bears its label, and the result of the wallet whole, or the code and the message of its
/// error.
pub proof fn law_relay_answers_whole(label: Seq<char>, outcome: Result<RelayResult, RelayError>)
    ensures
        outcome matches Ok(RelayResult::PayInvoice(paid)) ==> reply_text(label, outcome)
            == labelled_json(
            "result_type"@,
            label,
            "result"@,
            pay_invoice_result_json(paid.preimage@, paid.fees_paid),
        ),
        outcome matches Ok(RelayResult::ListTransactions(list)) ==> reply_text(label, outcome)
            == labelled_json(
            "result_type"@,
            label,
            "result"@,
            records_json("transactions"@, transaction_records(list@)),
        ),
        outcome matches Ok(RelayResult::GetBalance(balance)) ==> reply_text(label, outcome)
            == labelled_json(
            "result_type"@,
            label,
            "result"@,
            balance_result_json(balance.balance),
        ),
        outcome matches Err(error) ==> {
            let code = match error.code {
                RelayErrorCode::InvalidRequest => "INVALID_REQUEST"@,
                RelayErrorCode::Wallet(code) => code.name(),
            };
            reply_text(label, outcome) == labelled_json(
                "result_type"@,
                label,
                "error"@,
                texts_json(seq![("code"@, code), ("message"@, error.message@)]),
            )
        },
{
}

/// A connection is opened with a ping just where the relay answers with success; it is read from
/// once the ping is sent; every text that is read is served; every ping is answered with its own
/// data, and a close with a close, after which nothing more is done. It ends when it is broken, when
/// nothing more comes, when a ping or a pong cannot be sent, and when the service is asked to end;
/// whatever else happens, it goes on.
pub proof fn law_socket_goes_its_way(state: SocketState, event: SocketEvent)
    ensures
        ({
            let (next, action) = next_socket(state, event);
            match state {
                SocketState::Closed => next == SocketState::Closed && action is Stop,
                SocketState::Connecting => match event {
                    SocketEvent::Connected(status) => if 200 <= status && status <= 299 {
                        next == SocketState::Pinging && action is SendPing
                    } else {
                        next == SocketState::Closed && action is Stop
                    },
                    SocketEvent::ConnectFailed | SocketEvent::Shutdown => next
                        == SocketState::Closed && action is Stop,
                    _ => next == state && action is Wait,
                },
                SocketState::Pinging | SocketState::Ponging => match event {
                    SocketEvent::Sent => next == SocketState::Reading && action is Read,
                    SocketEvent::SendFailed | SocketEvent::Shutdown => next == SocketState::Closed
                        && action is Stop,
                    _ => next == state && action is Wait,
                },
                SocketState::Reading => match event {
                    SocketEvent::Text(text) => next == SocketState::Reading && action
                        == SocketAction::Receive(text),
                    SocketEvent::Ping(data) => next == SocketState::Ponging && action
                        == SocketAction::SendPong(data),
                    SocketEvent::Close => next == SocketState::Closing && action is SendClose,
                    SocketEvent::Broken | SocketEvent::Ended | SocketEvent::Shutdown => next
                        == SocketState::Closed && action is Stop,
                    SocketEvent::Pong | SocketEvent::Other => next == state && action is Read,
                    _ => next == state && action is Wait,
                },
                SocketState::Closing => match event {
                    SocketEvent::Sent | SocketEvent::SendFailed | SocketEvent::Shutdown => next
                        == SocketState::Closed && action is Stop,
                    _ => next == state && action is Wait,
                },
            }
        }),
{
}

} // verus!
