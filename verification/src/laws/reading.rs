//! What an event has to be like to be served, and what is served then.
use crate::cipher::{nip44_plaintext, plaintext};
use crate::event::{event_authentic, kept_tags, tags_expiration, EventView, KIND_RESPONSE};
use crate::exchange::{
    active_clients, call_method, carries, known_key, outcome_is, response_tags, CallView, ClientView,
    HandlerCall, Ignored, PendingRequest, PendingView,
};
use crate::keys::{is_key_pair, Keys};
use crate::nip47::{parsed_request, Method, RequestView};
use crate::plugin::{changes_after, expired, named_keys, plugin_request};
use crate::service::{
    find_client, service_request, subscribes_to, subscriptions_after, AuthorFilter,
};
use crate::uri::parsed_uri;
use vstd::prelude::*;

verus! {

/// The plugin serves each of the three methods with the very parameters that were asked for, in
/// every genuine event that has not expired: whatever request is read out of its decrypted content
/// is handed on, to be answered to its author with its id. A request of another method is left
/// unanswered.
pub proof fn law_plugin_serves_what_is_asked(
    event: EventView,
    keys: Keys,
    now: u64,
    text: Seq<char>,
    request: RequestView,
)
    requires
        event_authentic(event),
        tags_expiration(event.tags) matches Some(time) ==> now <= time,
        event.content.len() != 88,
        nip44_plaintext(keys.secret(), event.pubkey, event.content) == Some(text),
        parsed_request(text) == Some(request),
    ensures
        match request {
            RequestView::PayInvoice(asked) => plugin_request(event, keys, now) matches Ok(pending)
                && pending.call == CallView::PayInvoice(asked) && pending.event_id == event.id
                && pending.client_key == event.pubkey,
            RequestView::ListTransactions(asked) => plugin_request(event, keys, now) matches Ok(
                pending,
            ) && pending.call == CallView::ListTransactions(asked) && pending.event_id == event.id
                && pending.client_key == event.pubkey,
            RequestView::GetBalance => plugin_request(event, keys, now) matches Ok(pending)
                && pending.call == CallView::GetBalance && pending.event_id == event.id
                && pending.client_key == event.pubkey,
            _ => plugin_request(event, keys, now) matches Err(ignored) && ignored
                == Ignored::Unhandled,
        },
{
}

/// Whatever the plugin serves was asked for: by a genuine event that had not expired, in the
/// request that is read out of its decrypted content.
pub proof fn law_plugin_serves_nothing_else(
    event: EventView,
    keys: Keys,
    now: u64,
    pending: PendingView,
)
    requires
        plugin_request(event, keys, now) == Ok::<PendingView, Ignored>(pending),
    ensures
        event_authentic(event),
        tags_expiration(event.tags) matches Some(time) ==> now <= time,
        pending.event_id == event.id,
        pending.client_key == event.pubkey,
        nip44_plaintext(keys.secret(), event.pubkey, event.content) matches Some(text)
            && parsed_request(text) matches Some(request) && match pending.call {
            CallView::PayInvoice(asked) => request == RequestView::PayInvoice(asked),
            CallView::ListTransactions(asked) => request == RequestView::ListTransactions(asked),
            CallView::GetBalance => request == RequestView::GetBalance,
        },
{
}

/// The plugin leaves an event unanswered for the first of these reasons that applies: it has
/// expired, it is not genuine, it cannot be decrypted, or no request is read out of it.
pub proof fn law_plugin_says_why_not(event: EventView, keys: Keys, now: u64)
    ensures
        (tags_expiration(event.tags) matches Some(time) && time < now) ==> plugin_request(
            event,
            keys,
            now,
        ) == Err::<PendingView, Ignored>(Ignored::Expired),
        !expired(event, now) && !event_authentic(event) ==> plugin_request(event, keys, now)
            == Err::<PendingView, Ignored>(Ignored::InvalidSignature),
        !expired(event, now) && event_authentic(event) && nip44_plaintext(
            keys.secret(),
            event.pubkey,
            event.content,
        ) is None ==> plugin_request(event, keys, now) == Err::<PendingView, Ignored>(
            Ignored::Undecryptable,
        ),
        !expired(event, now) && event_authentic(event) && event.content.len() != 88 && (
        nip44_plaintext(keys.secret(), event.pubkey, event.content) matches Some(text)
            && parsed_request(text) is None) ==> plugin_request(event, keys, now) == Err::<
            PendingView,
            Ignored,
        >(Ignored::Unreadable),
{
}

/// Where an event stops to count it counts up to its very time, and without a time for ever.
pub proof fn law_event_counts_up_to_its_time(event: EventView, now: u64)
    ensures
        tags_expiration(event.tags) is None ==> !expired(event, now),
        tags_expiration(event.tags) matches Some(time) ==> (expired(event, now) <==> time < now),
{
}

proof fn lemma_first_client(clients: Seq<ClientView>, key: Seq<char>, i: int)
    requires
        0 <= i < clients.len(),
        clients[i].uri.public_key == key,
        forall|j: int| 0 <= j < i ==> (#[trigger] clients[j]).uri.public_key != key,
    ensures
        find_client(clients, key) == Some(clients[i]),
    decreases clients.len(),
{
    if i > 0 {
        let rest = clients.drop_first();
        assert(clients[0].uri.public_key != key);
        assert forall|j: int| 0 <= j < i - 1 implies (#[trigger] rest[j]).uri.public_key != key by {
            assert(rest[j] == clients[j + 1]);
        }
        lemma_first_client(rest, key, i - 1);
    }
}

/// The core serves each of the three methods with the very parameters that were asked for, in every
/// genuine event whose author a connection string names: whatever request is read out of the content
/// that is decrypted with the secret key of the first such string is handed on, to be answered to
/// that author with the event's id. A request of another method is left unanswered.
pub proof fn law_service_serves_what_is_asked(
    event: EventView,
    clients: Seq<ClientView>,
    i: int,
    public_key: Seq<char>,
    text: Seq<char>,
    request: RequestView,
)
    requires
        0 <= i < clients.len(),
        clients[i].uri.public_key == event.pubkey,
        forall|j: int| 0 <= j < i ==> (#[trigger] clients[j]).uri.public_key != event.pubkey,
        event_authentic(event),
        event.content.len() != 88,
        nip44_plaintext(clients[i].uri.secret, public_key, event.content) == Some(text),
        parsed_request(text) == Some(request),
    ensures
        match request {
            RequestView::PayInvoice(asked) => service_request(event, clients, public_key) matches Ok(
                pending,
            ) && pending.call == CallView::PayInvoice(asked) && pending.event_id == event.id
                && pending.client_key == event.pubkey,
            RequestView::ListTransactions(asked) => service_request(
                event,
                clients,
                public_key,
            ) matches Ok(pending) && pending.call == CallView::ListTransactions(asked)
                && pending.event_id == event.id && pending.client_key == event.pubkey,
            RequestView::GetBalance => service_request(event, clients, public_key) matches Ok(
                pending,
            ) && pending.call == CallView::GetBalance && pending.event_id == event.id
                && pending.client_key == event.pubkey,
            _ => service_request(event, clients, public_key) matches Err(ignored) && ignored
                == Ignored::Unhandled,
        },
{
    lemma_first_client(clients, event.pubkey, i);
}

/// The core leaves an event of a client unanswered for the first of these reasons that applies: it
/// is not genuine, it cannot be decrypted, or no request is read out of it.
pub proof fn law_service_says_why_not(
    event: EventView,
    clients: Seq<ClientView>,
    i: int,
    public_key: Seq<char>,
)
    requires
        0 <= i < clients.len(),
        clients[i].uri.public_key == event.pubkey,
        forall|j: int| 0 <= j < i ==> (#[trigger] clients[j]).uri.public_key != event.pubkey,
    ensures
        !event_authentic(event) ==> service_request(event, clients, public_key) == Err::<
            PendingView,
            Ignored,
        >(Ignored::InvalidSignature),
        event_authentic(event) && nip44_plaintext(clients[i].uri.secret, public_key, event.content)
            is None ==> service_request(event, clients, public_key) == Err::<PendingView, Ignored>(
            Ignored::Undecryptable,
        ),
        event_authentic(event) && event.content.len() != 88 && (nip44_plaintext(
            clients[i].uri.secret,
            public_key,
            event.content,
        ) matches Some(text) && parsed_request(text) is None) ==> service_request(
            event,
            clients,
            public_key,
        ) == Err::<PendingView, Ignored>(Ignored::Unreadable),
{
    lemma_first_client(clients, event.pubkey, i);
}

/// What comes of reading an event is what the event asks for: a request with the same id, key and
/// call, or the same reason to leave it unanswered.
pub proof fn law_outcome_is_what_was_read(
    outcome: Result<PendingRequest, Ignored>,
    read: Result<PendingView, Ignored>,
)
    requires
        outcome_is(outcome, read),
    ensures
        match read {
            Ok(asked) => outcome matches Ok(pending) && pending.event_id@ == asked.event_id
                && pending.client_key@ == asked.client_key && pending.call@ == asked.call,
            Err(reason) => outcome matches Err(said) && said == reason,
        },
{
}

/// The wallet is called with the invoice, the amount and the id of a payment that was asked for, and
/// with every parameter of a listing.
pub proof fn law_call_holds_its_parameters(call: HandlerCall)
    ensures
        match call {
            HandlerCall::PayInvoice(request) => call@ matches CallView::PayInvoice(asked)
                && asked.invoice == request.invoice@ && asked.amount == request.amount
                && match request.id {
                Some(id) => asked.id == Some(id@),
                None => asked.id is None,
            },
            HandlerCall::ListTransactions(request) => call@ matches CallView::ListTransactions(asked)
                && asked.from == request.from && asked.until == request.until && asked.limit
                == request.limit && asked.offset == request.offset && asked.unpaid
                == request.unpaid && asked.transaction_type == request.transaction_type,
            HandlerCall::GetBalance => call@ is GetBalance,
        },
{
}

/// An answer is of the method that was called.
pub proof fn law_answer_is_of_the_called_method(pending: PendingRequest)
    ensures
        pending@.call == pending.call@,
        pending@.call is PayInvoice <==> call_method(pending@.call) == Method::PayInvoice,
        pending@.call is ListTransactions <==> call_method(pending@.call)
            == Method::ListTransactions,
        pending@.call is GetBalance <==> call_method(pending@.call) == Method::GetBalance,
        pending@.event_id == pending.event_id@,
        pending@.client_key == pending.client_key@,
{
}

/// A signed event keeps each of its tags, in their order, but for those of the letter `p` that name
/// its own author.
pub proof fn law_tags_are_kept(
    front: Seq<Seq<Seq<char>>>,
    tag: Seq<Seq<char>>,
    author: Seq<char>,
)
    ensures
        kept_tags(Seq::empty(), author) == Seq::<Seq<Seq<char>>>::empty(),
        tag.len() >= 2 && tag[0] == seq!['p'] && tag[1] == author ==> kept_tags(
            front.push(tag),
            author,
        ) == kept_tags(front, author),
        tag.len() < 2 || tag[0] != seq!['p'] || tag[1] != author ==> kept_tags(
            front.push(tag),
            author,
        ) == kept_tags(front, author).push(tag),
{
    reveal(Seq::filter);
    assert(front.push(tag).drop_last() =~= front);
}

/// An answer is a genuine event of the wallet, of the kind of answers, which points to the event
/// that asked, and to the key it is for unless that is the wallet's own; and whoever holds the
/// secret key behind that key reads the message in it.
pub proof fn law_answer_points_back(
    event: EventView,
    keys: Keys,
    pending: PendingView,
    message: Seq<char>,
    secret: Seq<char>,
)
    requires
        carries(event, keys, pending.client_key, KIND_RESPONSE, response_tags(pending), message),
        is_key_pair(keys.secret(), keys.public()),
        is_key_pair(secret, pending.client_key),
    ensures
        event.kind == 23195,
        event.pubkey == keys.public(),
        event_authentic(event),
        pending.client_key != keys.public() ==> event.tags == seq![
            seq![seq!['e'], pending.event_id],
            seq![seq!['p'], pending.client_key],
        ],
        pending.client_key == keys.public() ==> event.tags == seq![
            seq![seq!['e'], pending.event_id],
        ],
        nip44_plaintext(secret, event.pubkey, event.content) == Some(message),
{
    let point = seq![seq!['e'], pending.event_id];
    let address = seq![seq!['p'], pending.client_key];
    let none = Seq::<Seq<Seq<char>>>::empty();
    assert('e' != 'p');
    assert(seq!['e'][0] != seq!['p'][0]);
    law_tags_are_kept(none, point, keys.public());
    law_tags_are_kept(none.push(point), address, keys.public());
    assert(response_tags(pending) =~= none.push(point).push(address));
    assert(plaintext(secret, event.pubkey, event.content) == Some(message));
}

/// The clients of the wallet are those whose connection strings can be read, each under the name of
/// its string, in the order of the strings.
pub proof fn law_readable_strings_make_clients(
    uris: Seq<(String, String)>,
    name: String,
    text: String,
)
    ensures
        active_clients(Seq::empty()).len() == 0,
        parsed_uri(text@) is None ==> active_clients(uris.push((name, text))) == active_clients(
            uris,
        ),
        parsed_uri(text@) matches Some(uri) ==> {
            let clients = active_clients(uris.push((name, text)));
            &&& clients.len() == active_clients(uris).len() + 1
            &&& clients.drop_last() == active_clients(uris)
            &&& clients.last().name == name@
            &&& clients.last().uri == uri
        },
{
    assert(uris.push((name, text)).drop_last() =~= uris);
    if let Some(uri) = parsed_uri(text@) {
        assert(active_clients(uris.push((name, text))).drop_last() =~= active_clients(uris));
    }
}

/// For each client the relays are asked under its name for the requests of the one key that its
/// connection string names.
pub proof fn law_client_is_subscribed_to(
    name: String,
    filter: AuthorFilter,
    client: ClientView,
    key: Seq<char>,
)
    requires
        subscribes_to((name, filter), client),
    ensures
        name@ == client.name,
        filter.authors.deep_view().contains(key) <==> key == client.uri.public_key,
        filter.authors@.len() == 1,
        filter.kinds@ == seq![23194u16],
{
    let authors = filter.authors.deep_view();
    assert(authors.len() == filter.authors@.len());
    assert(authors[0] == client.uri.public_key);
    if authors.contains(key) {
        let i = choose|i: int| 0 <= i < authors.len() && authors[i] == key;
        assert(i == 0);
    }
}

/// The plugin asks the relays for just the keys that the connection strings of its clients name.
pub proof fn law_named_keys_are_those_of_the_clients(clients: Seq<ClientView>, key: Seq<char>)
    ensures
        named_keys(clients).contains(key) <==> exists|i: int|
            0 <= i < clients.len() && (#[trigger] clients[i]).uri.public_key == key,
        named_keys(clients).len() == clients.len(),
{
    if named_keys(clients).contains(key) {
        let i = choose|i: int| 0 <= i < named_keys(clients).len() && named_keys(clients)[i] == key;
        assert(clients[i].uri.public_key == key);
    }
    if exists|i: int| 0 <= i < clients.len() && (#[trigger] clients[i]).uri.public_key == key {
        let i = choose|i: int| 0 <= i < clients.len() && (#[trigger] clients[i]).uri.public_key == key;
        assert(named_keys(clients)[i] == key);
    }
}

/// A subscription that was made is kept under its name, and one that failed changes nothing; no
/// other name is touched.
pub proof fn law_subscription_is_kept(
    subscriptions: Map<Seq<char>, Seq<char>>,
    name: Seq<char>,
    subscribed: Result<String, String>,
    other: Seq<char>,
)
    ensures
        subscribed is Err ==> subscriptions_after(subscriptions, name, subscribed) == subscriptions,
        subscribed matches Ok(id) ==> subscriptions_after(
            subscriptions,
            name,
            subscribed,
        ).contains_pair(name, id@),
        forall|text: Seq<char>|
            other != name ==> #[trigger] subscriptions_after(
                subscriptions,
                name,
                subscribed,
            ).contains_pair(other, text) == subscriptions.contains_pair(other, text),
{
}

/// Every change of the connection strings that the running plugin wants to know of is counted, as
/// long as it can be, and no other.
pub proof fn law_changes_are_counted(changes: u64, wanted: bool)
    ensures
        !wanted ==> changes_after(changes, wanted) == changes,
        wanted && changes != u64::MAX ==> changes_after(changes, wanted) == changes + 1,
        wanted ==> changes_after(changes, wanted) > 0,
        changes_after(changes, wanted) <= u64::MAX,
{
}

/// A key is made only where none is configured and none can be had from the store.
pub proof fn law_key_is_made_only_without_one(
    configured: Option<String>,
    stored: Result<Option<String>, String>,
)
    ensures
        known_key(configured, stored) is None <==> configured is None && !(stored matches Ok(
            Some(_),
        )),
        configured matches Some(key) ==> known_key(configured, stored) == Some(key@),
        configured is None ==> (stored matches Ok(Some(key)) ==> known_key(configured, stored)
            == Some(key@)),
{
}

} // verus!
