//! What clients and the wallet's own listeners are told.
use crate::cipher::{
    are_keys, conversation_possible, message_fits, nip44_accepts, nip44_plaintext, plaintext,
};
use crate::event::{event_authentic, key_tag_view, Event, EventView, KIND_NOTIFICATION};
use crate::exchange::{
    carries, client_public, events_tell, reader_key, told_clients, Addressee, ClientView,
};
use crate::handler::{
    all_looked_up, lists, looked_up, optional_msats, prepares, transaction_tells,
    ListPaymentsRequest, ListedPayment, PayAmount, PrepareSendRequest, RelayError, RelayErrorCode,
    Transaction,
};
use crate::keys::{is_key_pair, nostr_key_pair, Keys};
use crate::laws::reading::law_tags_are_kept;
use crate::model::{told_of, Payment, PaymentDetails, PaymentState, PaymentType};
use crate::nip47::{
    word_type, ErrorCode, ListTransactionsRequest, Method, Nip47Error, PayInvoiceRequest,
    TransactionType,
};
use crate::plugin;
use crate::response::{
    balance_response_json, error_response_json, pay_invoice_response_json, response_json,
    result_method, transactions_response_json, LookupInvoiceResponse, PaymentNotification,
    ResponseResult,
};
use crate::service::{self, optional_sats};
use crate::text::text_or_empty;
use vstd::prelude::*;
use vstd::utf8::encode_utf8;

verus! {

/// A text that is there is told as it is, and one that is missing as the empty one.
pub proof fn law_text_is_told_as_it_is(text: Option<String>)
    ensures
        match text {
            Some(said) => text_or_empty(text) == said@,
            None => text_or_empty(text).len() == 0,
        },
{
}

/// Clients are told of every lightning payment, and of no other.
pub proof fn law_lightning_payments_are_told(payment: Payment)
    ensures
        told_of(payment) is Some <==> payment.details is Lightning,
{
}

/// From a notification the payment can be read back: its invoice, preimage and payment hash, where
/// it has them, its description, its amount and its fees in satoshis, its time, and whether it was
/// sent.
pub proof fn law_payment_is_read_in_its_notification(
    payment: Payment,
    notification: PaymentNotification,
)
    requires
        payment.amount_sat * 1000 <= u64::MAX,
        payment.fees_sat * 1000 <= u64::MAX,
        told_of(payment) == Some(notification@),
    ensures
        payment.details matches PaymentDetails::Lightning {
            invoice,
            description,
            preimage,
            payment_hash,
        } && {
            &&& invoice matches Some(text) ==> notification.invoice@ == text@
            &&& invoice is None ==> notification.invoice@.len() == 0
            &&& preimage matches Some(text) ==> notification.preimage@ == text@
            &&& preimage is None ==> notification.preimage@.len() == 0
            &&& payment_hash matches Some(text) ==> notification.payment_hash@ == text@
            &&& payment_hash is None ==> notification.payment_hash@.len() == 0
            &&& notification.description matches Some(text) && text@ == description@
        },
        notification.amount / 1000 == payment.amount_sat,
        notification.amount % 1000 == 0,
        notification.fees_paid / 1000 == payment.fees_sat,
        notification.fees_paid % 1000 == 0,
        notification.created_at == payment.timestamp,
        notification.settled_at == payment.timestamp,
        notification.transaction_type == TransactionType::Outgoing <==> payment.payment_type
            == PaymentType::Send,
{
}

/// Two lightning payments that are told alike have the same description, amount, fees and time, went
/// the same way as far as sending goes, and have the same invoice, preimage and payment hash where
/// both have one.
pub proof fn law_payments_told_alike_are_alike(a: Payment, b: Payment)
    requires
        a.amount_sat * 1000 <= u64::MAX,
        a.fees_sat * 1000 <= u64::MAX,
        b.amount_sat * 1000 <= u64::MAX,
        b.fees_sat * 1000 <= u64::MAX,
        told_of(a) == told_of(b),
        a.details is Lightning,
    ensures
        b.details is Lightning,
        a.amount_sat == b.amount_sat,
        a.fees_sat == b.fees_sat,
        a.timestamp == b.timestamp,
        a.payment_type == PaymentType::Send <==> b.payment_type == PaymentType::Send,
        a.details->description@ == b.details->description@,
        a.details->invoice matches Some(x) ==> (b.details->invoice matches Some(y) ==> x@ == y@),
        a.details->preimage matches Some(x) ==> (b.details->preimage matches Some(y) ==> x@ == y@),
        a.details->payment_hash matches Some(x) ==> (b.details->payment_hash matches Some(y) ==> x@
            == y@),
{
}

/// An event that carries a message is a genuine one of its author, of the given kind, and whoever
/// holds the secret key behind the reader's key reads the message in it.
pub proof fn law_carried_message_is_read(
    event: EventView,
    keys: Keys,
    reader: Seq<char>,
    secret: Seq<char>,
    kind: u16,
    tags: Seq<Seq<Seq<char>>>,
    message: Seq<char>,
)
    requires
        carries(event, keys, reader, kind, tags, message),
        is_key_pair(keys.secret(), keys.public()),
        is_key_pair(secret, reader),
    ensures
        event.pubkey == keys.public(),
        event.kind == kind,
        event_authentic(event),
        nip44_plaintext(secret, event.pubkey, event.content) == Some(message),
{
    assert(plaintext(secret, event.pubkey, event.content) == Some(message));
}

/// The public key behind the secret key that a client was handed is the one that it writes with.
pub proof fn law_client_has_its_public_key(client: ClientView, public: Seq<char>)
    requires
        nostr_key_pair(client.uri.secret) == Some((client.uri.secret, public)),
    ensures
        client_public(client) == public,
        reader_key(client, Addressee::Client) == public,
        reader_key(client, Addressee::NamedKey) == client.uri.public_key,
{
}

/// Of the clients, just those are told a message, in their order and each once, with whose key a
/// conversation is possible, provided that the message is neither empty nor longer than is
/// encrypted.
pub proof fn law_each_client_is_told_once(
    keys: Keys,
    clients: Seq<ClientView>,
    client: ClientView,
    addressee: Addressee,
    message: Seq<char>,
)
    ensures
        told_clients(keys, Seq::empty(), addressee, message) == Seq::<ClientView>::empty(),
        1 <= encode_utf8(message).len() <= 65408 && conversation_possible(
            keys.secret(),
            reader_key(client, addressee),
        ) ==> told_clients(keys, clients.push(client), addressee, message) == told_clients(
            keys,
            clients,
            addressee,
            message,
        ).push(client),
        !(1 <= encode_utf8(message).len() <= 65408 && conversation_possible(
            keys.secret(),
            reader_key(client, addressee),
        )) ==> told_clients(keys, clients.push(client), addressee, message) == told_clients(
            keys,
            clients,
            addressee,
            message,
        ),
{
    reveal(Seq::filter);
    assert(clients.push(client).drop_last() =~= clients);
}

/// Every client with whose key a conversation is possible is told the message, in an event of the
/// kind of notifications that the holder of that key reads, and that points to the key that the
/// connection string names unless that is the wallet's own.
pub proof fn law_every_client_is_told(
    events: Seq<Event>,
    keys: Keys,
    clients: Seq<ClientView>,
    addressee: Addressee,
    message: Seq<char>,
    i: int,
    secret: Seq<char>,
)
    requires
        events_tell(
            events,
            keys,
            told_clients(keys, clients, addressee, message),
            addressee,
            message,
        ),
        0 <= i < clients.len(),
        1 <= encode_utf8(message).len() <= 65408,
        conversation_possible(keys.secret(), reader_key(clients[i], addressee)),
        is_key_pair(keys.secret(), keys.public()),
        is_key_pair(secret, reader_key(clients[i], addressee)),
    ensures
        exists|j: int|
            0 <= j < events.len() && (#[trigger] events[j])@.kind == 23196 && event_authentic(
                events[j]@,
            ) && events[j]@.pubkey == keys.public() && nip44_plaintext(
                secret,
                keys.public(),
                events[j]@.content,
            ) == Some(message) && events[j]@.tags == if clients[i].uri.public_key == keys.public() {
                Seq::<Seq<Seq<char>>>::empty()
            } else {
                seq![seq![seq!['p'], clients[i].uri.public_key]]
            },
{
    let told = told_clients(keys, clients, addressee, message);
    clients.lemma_filter_contains(
        |client: ClientView|
            nip44_accepts(keys.secret(), reader_key(client, addressee), message),
        i,
    );
    let j = choose|j: int| 0 <= j < told.len() && told[j] == clients[i];
    assert(carries(
        events[j]@,
        keys,
        reader_key(told[j], addressee),
        KIND_NOTIFICATION,
        seq![key_tag_view(told[j].uri.public_key)],
        message,
    ));
    assert(plaintext(secret, events[j]@.pubkey, events[j]@.content) == Some(message));
    let none = Seq::<Seq<Seq<char>>>::empty();
    let address = seq![seq!['p'], clients[i].uri.public_key];
    law_tags_are_kept(none, address, keys.public());
    assert(seq![key_tag_view(told[j].uri.public_key)] =~= none.push(address));
    assert(events[j]@.kind == 23196);
}

/// There are as many events as clients that are told, and each is for the client at its position.
pub proof fn law_events_are_for_told_clients(
    events: Seq<Event>,
    keys: Keys,
    told: Seq<ClientView>,
    addressee: Addressee,
    message: Seq<char>,
    i: int,
    secret: Seq<char>,
)
    requires
        events_tell(events, keys, told, addressee, message),
    ensures
        events.len() == told.len(),
        0 <= i < events.len() && is_key_pair(keys.secret(), keys.public()) && is_key_pair(
            secret,
            reader_key(told[i], addressee),
        ) ==> events[i]@.kind == 23196 && nip44_plaintext(
            secret,
            keys.public(),
            events[i]@.content,
        ) == Some(message),
{
    if 0 <= i < events.len() && is_key_pair(keys.secret(), keys.public()) && is_key_pair(
        secret,
        reader_key(told[i], addressee),
    ) {
        law_carried_message_is_read(
            events[i]@,
            keys,
            reader_key(told[i], addressee),
            secret,
            KIND_NOTIFICATION,
            seq![key_tag_view(told[i].uri.public_key)],
            message,
        );
    }
}

/// A message is encrypted just where a conversation is possible and the message is neither empty nor
/// longer than sixty-five thousand four hundred and eight bytes; the keys of two key pairs are keys
/// for a conversation.
pub proof fn law_message_is_encrypted_where_it_fits(
    secret_key: Seq<char>,
    public_key: Seq<char>,
    message: Seq<char>,
    writer: Seq<char>,
    reader: Seq<char>,
)
    ensures
        message_fits(message) <==> 1 <= encode_utf8(message).len() <= 65408,
        nip44_accepts(secret_key, public_key, message) <==> conversation_possible(
            secret_key,
            public_key,
        ) && 1 <= encode_utf8(message).len() <= 65408,
        is_key_pair(secret_key, writer) && is_key_pair(reader, public_key) ==> are_keys(
            secret_key,
            public_key,
        ),
{
}

/// What an error says is its code and its message.
pub proof fn law_error_says_its_message(
    error: Nip47Error,
    code: ErrorCode,
    relayed: RelayError,
    relay_code: RelayErrorCode,
    message: Seq<char>,
)
    ensures
        error.says(code, message) <==> error.code == code && error.message@ == message,
        relayed.says(relay_code, message) <==> relayed.code == relay_code && relayed.message@
            == message,
{
}

/// An event shows all that it holds.
pub proof fn law_event_shows_what_it_holds(event: Event)
    ensures
        event@.id == event.id@,
        event@.pubkey == event.pubkey@,
        event@.created_at == event.created_at,
        event@.kind == event.kind,
        event@.content == event.content@,
        event@.sig == event.sig@,
        event@.tags.len() == event.tags@.len(),
        forall|i: int, j: int|
            0 <= i < event.tags@.len() && 0 <= j < event.tags@[i]@.len() ==> #[trigger]
                event@.tags[i][j] == event.tags@[i]@[j]@,
{
}

/// Fees and amounts in satoshis are told in thousandths, and thousandths are told in whole satoshis,
/// rounded down.
pub proof fn law_thousand_thousandths_make_one(sats: u64, msats: u64)
    ensures
        sats * 1000 <= u64::MAX ==> (optional_msats(Some(sats)) matches Some(told) && told == sats
            * 1000),
        optional_msats(None) is None,
        optional_sats(Some(msats)) matches Some(told) && told * 1000 <= msats && msats < (told + 1)
            * 1000,
        optional_sats(None) is None,
{
}

/// The wallet prepares to pay the invoice that was asked for, with the amount that was asked for in
/// whole satoshis, and with none where none was.
pub proof fn law_asked_invoice_is_prepared(prepare: PrepareSendRequest, request: PayInvoiceRequest)
    requires
        prepares(prepare, request@),
    ensures
        prepare.destination@ == request.invoice@,
        match request.amount {
            Some(msats) => prepare.amount matches Some(
                PayAmount::Bitcoin { receiver_amount_sat },
            ) && receiver_amount_sat * 1000 <= msats && msats < (receiver_amount_sat + 1) * 1000,
            None => prepare.amount is None,
        },
{
}

/// The wallet is asked for the times, the number, the offset, the way and the state that were asked
/// for, for nothing else, and for the latest payments first.
pub proof fn law_asked_listing_is_queried(
    query: ListPaymentsRequest,
    request: ListTransactionsRequest,
)
    requires
        lists(query, request),
    ensures
        query.from_timestamp == request.from,
        query.to_timestamp == request.until,
        query.limit == request.limit,
        query.offset == request.offset,
        query.sort_ascending == Some(false),
        query.details is None,
        query.filters is None <==> request.transaction_type is None,
        query.filters matches Some(ways) ==> ways@.len() == 1,
        request.transaction_type == Some(TransactionType::Incoming) <==> (query.filters matches Some(
            ways,
        ) && ways@.contains(PaymentType::Receive)),
        request.transaction_type == Some(TransactionType::Outgoing) <==> (query.filters matches Some(
            ways,
        ) && ways@.contains(PaymentType::Send)),
        query.states is None <==> request.unpaid is None,
        request.unpaid == Some(true) <==> (query.states matches Some(states) && states@.len() == 1
            && states@.contains(PaymentState::Pending)),
        request.unpaid == Some(false) <==> (query.states matches Some(states) && states@.len() == 0),
{
    match query.filters {
        Some(ways) => {
            assert(ways@.contains(ways@[0]));
            if ways@.contains(PaymentType::Receive) {
                let i = choose|i: int| 0 <= i < ways@.len() && ways@[i] == PaymentType::Receive;
                assert(ways@[0] == PaymentType::Receive);
            }
            if ways@.contains(PaymentType::Send) {
                let i = choose|i: int| 0 <= i < ways@.len() && ways@[i] == PaymentType::Send;
                assert(ways@[0] == PaymentType::Send);
            }
        },
        None => {},
    }
    if let Some(states) = query.states {
        if request.unpaid == Some(true) {
            assert(states@.contains(states@[0]));
        }
    }
}

/// Requests for which the wallet is asked alike are the same request.
pub proof fn law_listings_queried_alike_are_alike(
    query: ListPaymentsRequest,
    a: ListTransactionsRequest,
    b: ListTransactionsRequest,
)
    requires
        lists(query, a),
        lists(query, b),
    ensures
        a == b,
{
    law_asked_listing_is_queried(query, a);
    law_asked_listing_is_queried(query, b);
}

/// From a transaction the payment can be read back: its hash, invoice, description, preimage,
/// amount, fees and times, and the words for the way it went and how far it has come.
pub proof fn law_payment_is_read_in_its_transaction(transaction: Transaction, payment: ListedPayment)
    requires
        transaction_tells(transaction, payment),
        payment.fees_paid matches Some(sats) ==> sats * 1000 <= u64::MAX,
    ensures
        transaction.id@ == payment.payment_hash@,
        transaction.payment_hash@ == payment.payment_hash@,
        transaction.invoice == payment.bolt11,
        transaction.description == payment.description,
        transaction.preimage == payment.preimage,
        transaction.description_hash is None,
        transaction.amount == payment.amount_msat,
        match payment.fees_paid {
            Some(sats) => transaction.fees_paid matches Some(msats) && msats == sats * 1000,
            None => transaction.fees_paid is None,
        },
        transaction.timestamp == payment.timestamp,
        transaction.settled_at == payment.settled_at,
        match payment.payment_type {
            PaymentType::Send => transaction.payment_type@ == "outgoing"@,
            PaymentType::Receive => transaction.payment_type@ == "incoming"@,
            PaymentType::Other => transaction.payment_type@ == "unknown"@,
        },
        match payment.state {
            PaymentState::Pending => transaction.state@ == "pending"@,
            PaymentState::Completed => transaction.state@ == "completed"@,
            PaymentState::Failed => transaction.state@ == "failed"@,
            PaymentState::Other => transaction.state@ == "unknown"@,
        },
{
}

/// Payments of which a client is told by the same transaction are alike in all but the form of their
/// hash.
pub proof fn law_payments_listed_alike_are_alike(
    transaction: Transaction,
    a: ListedPayment,
    b: ListedPayment,
)
    requires
        transaction_tells(transaction, a),
        transaction_tells(transaction, b),
        a.fees_paid matches Some(sats) ==> sats * 1000 <= u64::MAX,
        b.fees_paid matches Some(sats) ==> sats * 1000 <= u64::MAX,
    ensures
        a.payment_hash@ == b.payment_hash@,
        a.bolt11 == b.bolt11,
        a.description == b.description,
        a.preimage == b.preimage,
        a.amount_msat == b.amount_msat,
        a.fees_paid == b.fees_paid,
        a.timestamp == b.timestamp,
        a.settled_at == b.settled_at,
        a.payment_type == b.payment_type,
        a.state == b.state,
{
    law_payment_is_read_in_its_transaction(transaction, a);
    law_payment_is_read_in_its_transaction(transaction, b);
    reveal_strlit("outgoing");
    reveal_strlit("incoming");
    reveal_strlit("unknown");
    reveal_strlit("pending");
    reveal_strlit("completed");
    reveal_strlit("failed");
    assert("outgoing"@[0] != "incoming"@[0]);
    assert("unknown"@[0] == 'u');
    assert("outgoing"@[0] == 'o');
    assert("incoming"@[0] == 'i');
    assert("pending"@[0] == 'p');
    assert("completed"@[0] == 'c');
    assert("failed"@[0] == 'f');
}

/// The word for a way is one of two, and each stands for its own way.
pub proof fn law_words_stand_for_ways(word: Seq<char>)
    ensures
        word_type(word) == Some(TransactionType::Incoming) <==> word == "incoming"@,
        word_type(word) == Some(TransactionType::Outgoing) <==> word == "outgoing"@,
        word_type(word) is None <==> word != "incoming"@ && word != "outgoing"@,
{
    reveal_strlit("incoming");
    reveal_strlit("outgoing");
    assert("outgoing"@[0] != "incoming"@[0]);
}

/// In the answers of the two services a client reads of each listed payment, at its position, the
/// invoice, description, preimage, hash, amount, fees and times, and which way it went; fees that
/// are not known count as none.
pub proof fn law_listed_payment_is_answered(
    transactions: Seq<Transaction>,
    i: int,
    payment: ListedPayment,
    answer: LookupInvoiceResponse,
)
    requires
        0 <= i < transactions.len(),
        transaction_tells(transactions[i], payment),
        payment.fees_paid matches Some(sats) ==> sats * 1000 <= u64::MAX,
        all_looked_up(transactions)[i] == answer@,
    ensures
        all_looked_up(transactions).len() == transactions.len(),
        answer.payment_hash@ == payment.payment_hash@,
        answer.invoice.deep_view() == payment.bolt11.deep_view(),
        answer.description.deep_view() == payment.description.deep_view(),
        answer.description_hash is None,
        answer.preimage.deep_view() == payment.preimage.deep_view(),
        answer.amount == payment.amount_msat,
        match payment.fees_paid {
            Some(sats) => answer.fees_paid == sats * 1000,
            None => answer.fees_paid == 0,
        },
        answer.created_at == payment.timestamp,
        answer.settled_at == payment.settled_at,
        answer.expires_at is None,
        match payment.payment_type {
            PaymentType::Send => answer.transaction_type == Some(TransactionType::Outgoing),
            PaymentType::Receive => answer.transaction_type == Some(TransactionType::Incoming),
            PaymentType::Other => answer.transaction_type is None,
        },
{
    let transaction = transactions[i];
    law_payment_is_read_in_its_transaction(transaction, payment);
    law_words_stand_for_ways(transaction.payment_type@);
    assert(all_looked_up(transactions)[i] == looked_up(transaction));
    reveal_strlit("outgoing");
    reveal_strlit("incoming");
    reveal_strlit("unknown");
    assert("unknown"@[0] == 'u');
    assert("outgoing"@[0] == 'o');
    assert("incoming"@[0] == 'i');
}

/// A request is answered with all of its result, and an error with the method that failed, the code
/// and the message.
pub proof fn law_reply_is_answered_whole(
    method: Method,
    reply: Result<ResponseResult, Nip47Error>,
)
    ensures
        match reply {
            Ok(ResponseResult::PayInvoice(paid)) => response_json(method, reply)
                == pay_invoice_response_json(paid.preimage@, paid.fees_paid),
            Ok(ResponseResult::ListTransactions(list)) => response_json(method, reply)
                == transactions_response_json(list.deep_view()),
            Ok(ResponseResult::GetBalance(balance)) => response_json(method, reply)
                == balance_response_json(balance.balance),
            Err(error) => response_json(method, reply) == error_response_json(
                match method {
                    Method::PayInvoice => "pay_invoice"@,
                    Method::ListTransactions => "list_transactions"@,
                    Method::GetBalance => "get_balance"@,
                },
                error.code.name(),
                error.message@,
            ),
        },
        reply matches Ok(ResponseResult::PayInvoice(_)) ==> result_method(reply->Ok_0)
            == Method::PayInvoice,
        reply matches Ok(ResponseResult::ListTransactions(_)) ==> result_method(reply->Ok_0)
            == Method::ListTransactions,
        reply matches Ok(ResponseResult::GetBalance(_)) ==> result_method(reply->Ok_0)
            == Method::GetBalance,
{
}

/// Each code of an error has its own name.
pub proof fn law_codes_are_named(code: ErrorCode)
    ensures
        code.name() == match code {
            ErrorCode::RateLimited => "RATE_LIMITED"@,
            ErrorCode::NotImplemented => "NOT_IMPLEMENTED"@,
            ErrorCode::InsufficientBalance => "INSUFFICIENT_BALANCE"@,
            ErrorCode::PaymentFailed => "PAYMENT_FAILED"@,
            ErrorCode::NotFound => "NOT_FOUND"@,
            ErrorCode::QuotaExceeded => "QUOTA_EXCEEDED"@,
            ErrorCode::Restricted => "RESTRICTED"@,
            ErrorCode::Unauthorized => "UNAUTHORIZED"@,
            ErrorCode::Internal => "INTERNAL"@,
            ErrorCode::Other => "OTHER"@,
        },
{
}

/// The listeners of the core hear of every payment that was made, with its preimage and its fees in
/// whole satoshis, of every payment that failed, with the reason, of every listing and of every
/// question for the balance; of no other error.
pub proof fn law_core_listeners_hear(
    told: Option<service::NwcEvent>,
    reply: Result<ResponseResult, Nip47Error>,
)
    requires
        service::listeners_told(told, reply),
    ensures
        match reply {
            Ok(ResponseResult::PayInvoice(paid)) => told matches Some(
                service::NwcEvent::PayInvoice { success, preimage, fees_sat, error },
            ) && success && (preimage matches Some(text) && text@ == paid.preimage@) && error is None
                && match paid.fees_paid {
                Some(msats) => fees_sat matches Some(sats) && sats * 1000 <= msats && msats < (sats
                    + 1) * 1000,
                None => fees_sat is None,
            },
            Ok(ResponseResult::ListTransactions(_)) => told matches Some(
                service::NwcEvent::ListTransactions,
            ),
            Ok(ResponseResult::GetBalance(_)) => told matches Some(service::NwcEvent::GetBalance),
            Err(failure) => if failure.code == ErrorCode::PaymentFailed {
                told matches Some(
                    service::NwcEvent::PayInvoice { success, preimage, fees_sat, error },
                ) && !success && preimage is None && fees_sat is None && (error matches Some(text)
                    && text@ == failure.message@)
            } else {
                told is None
            },
        },
{
}

/// The listeners of the plugin hear of every payment that was made, with its preimage and its fees
/// in whole satoshis, of every payment that failed, with the reason, of every listing and of every
/// question for the balance, each time with the id of the event that asked; of no other error.
pub proof fn law_plugin_listeners_hear(
    told: Option<plugin::SdkEvent>,
    reply: Result<ResponseResult, Nip47Error>,
    event_id: Seq<char>,
)
    requires
        plugin::listeners_told(told, reply, event_id),
    ensures
        match reply {
            Ok(ResponseResult::PayInvoice(paid)) => told matches Some(event) && event.details matches
                plugin::NwcEvent::PayInvoiceHandled { success, preimage, fees_sat, error }
                && event.event_id@ == event_id && success && (preimage matches Some(text) && text@ == paid.preimage@) && error is None
                && match paid.fees_paid {
                Some(msats) => fees_sat matches Some(sats) && sats * 1000 <= msats && msats < (sats
                    + 1) * 1000,
                None => fees_sat is None,
            },
            Ok(ResponseResult::ListTransactions(_)) => told matches Some(event) && event.event_id@
                == event_id && event.details is ListTransactionsHandled,
            Ok(ResponseResult::GetBalance(_)) => told matches Some(event) && event.event_id@
                == event_id && event.details is GetBalanceHandled,
            Err(failure) => if failure.code == ErrorCode::PaymentFailed {
                told matches Some(event) && event.details matches
                    plugin::NwcEvent::PayInvoiceHandled { success, preimage, fees_sat, error }
                    && event.event_id@ == event_id && !success && preimage is None && fees_sat is None && (error matches Some(text)
                    && text@ == failure.message@)
            } else {
                told is None
            },
        },
{
}

} // verus!
