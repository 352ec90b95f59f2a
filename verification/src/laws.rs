//! What holds of the library as a whole.
pub mod keeping;
pub mod reading;
pub mod relaying;
pub mod telling;
pub mod updates;

use crate::cipher::{decrypts_to, nip44_accepts, plaintext};
use crate::event::{
    event_authentic, key_tag_view, tags_expiration, Event, EventView, KIND_NOTIFICATION,
    KIND_RESPONSE,
};
use crate::exchange::{
    active_clients, call_in, carries, client_keys, client_public, events_tell, known_key,
    reader_key, response_tags, told_clients, Addressee, CallView, ClientView, Ignored,
    PendingView,
};
use crate::handler::{optional_fits, optional_msats, prepares, PayAmount, PrepareSendRequest};
use crate::keys::{is_key_pair, Keys};
use crate::nip47::{
    listing_params, parsed_list_transactions, parsed_pay_invoice, ListTransactionsRequest,
    PayInvoiceView, MSATS_PER_SAT,
};
use crate::plugin;
use crate::relay::{
    asked, next_socket, serves, Asked, Received, SocketAction, SocketEvent, SocketState,
};
use crate::service;
use crate::update_bytes::sound_encoding;
use crate::uri::{connects_with, known_relays, parsed_uri, UriView};
use crate::wallet_cache::{
    decoded_update, decrypted_entry, entries_opened, first_failure, has_gap, index_refusal,
    law_max_index_is_greatest, max_index, opened_update, stable_update, update_encoding,
    updates_after, LoadError,
};
use vstd::prelude::*;

verus! {

/// Whoever holds the secret key for which an event was encrypted reads its message with the
/// author's public key.
pub proof fn law_addressee_reads_message(
    event: EventView,
    keys: Keys,
    secret: Seq<char>,
    public: Seq<char>,
    kind: u16,
    tags: Seq<Seq<Seq<char>>>,
    message: Seq<char>,
)
    requires
        is_key_pair(keys.secret(), keys.public()),
        is_key_pair(secret, public),
        carries(event, keys, public, kind, tags, message),
    ensures
        event_authentic(event),
        plaintext(secret, event.pubkey, event.content) == Some(message),
{
}

/// What a client asks of the plugin reaches the wallet, and the answer reaches the client: a
/// genuine event of the client that has not expired and whose content the client has encrypted for
/// the wallet is served as the request it holds, and in the event that answers it the client reads
/// the answer.
pub proof fn law_plugin_exchange(
    event: EventView,
    keys: Keys,
    secret: Seq<char>,
    text: Seq<char>,
    call: CallView,
    now: u64,
    answer: EventView,
    reply: Seq<char>,
)
    requires
        is_key_pair(keys.secret(), keys.public()),
        is_key_pair(secret, event.pubkey),
        event_authentic(event),
        !plugin::expired(event, now),
        decrypts_to(secret, keys.public(), event.content, text),
        call_in(text) == Ok::<CallView, Ignored>(call),
        carries(
            answer,
            keys,
            event.pubkey,
            KIND_RESPONSE,
            response_tags(PendingView { event_id: event.id, client_key: event.pubkey, call }),
            reply,
        ),
    ensures
        plugin::plugin_request(event, keys, now) == Ok::<PendingView, Ignored>(
            PendingView { event_id: event.id, client_key: event.pubkey, call },
        ),
        plaintext(secret, answer.pubkey, answer.content) == Some(reply),
{
    assert(plaintext(keys.secret(), event.pubkey, event.content) == Some(text));
}

/// The core serves a genuine event whose author a client's connection string names, and whose
/// content the holder of the wallet's keys has encrypted for that client: it is served as the
/// request it holds, to be answered to the key that the connection string names.
pub proof fn law_service_reads_request(
    event: EventView,
    keys: Keys,
    clients: Seq<ClientView>,
    client: ClientView,
    text: Seq<char>,
    call: CallView,
)
    requires
        is_key_pair(keys.secret(), keys.public()),
        client_keys(client),
        service::find_client(clients, event.pubkey) == Some(client),
        event_authentic(event),
        decrypts_to(keys.secret(), client_public(client), event.content, text),
        call_in(text) == Ok::<CallView, Ignored>(call),
    ensures
        service::service_request(event, clients, keys.public()) == Ok::<PendingView, Ignored>(
            PendingView { event_id: event.id, client_key: event.pubkey, call },
        ),
{
    law_found_client_is_named(clients, event.pubkey);
    assert(plaintext(client.uri.secret, keys.public(), event.content) == Some(text));
}

/// The client that is found for a key is one of the clients, and its connection string names the
/// key; where none is found, no connection string names it.
pub proof fn law_found_client_is_named(clients: Seq<ClientView>, key: Seq<char>)
    ensures
        match service::find_client(clients, key) {
            Some(client) => clients.contains(client) && client.uri.public_key == key,
            None => forall|i: int|
                0 <= i < clients.len() ==> (#[trigger] clients[i]).uri.public_key != key,
        },
    decreases clients.len(),
{
    if clients.len() > 0 {
        if clients[0].uri.public_key == key {
            assert(clients.contains(clients[0]));
        } else {
            let rest = clients.drop_first();
            law_found_client_is_named(rest, key);
            match service::find_client(rest, key) {
                Some(client) => {
                    let i = choose|i: int| 0 <= i < rest.len() && rest[i] == client;
                    assert(clients[i + 1] == client);
                },
                None => {
                    assert forall|i: int| 0 <= i < clients.len() implies (
                    #[trigger] clients[i]).uri.public_key != key by {
                        if i > 0 {
                            assert(rest[i - 1] == clients[i]);
                        }
                    }
                },
            }
        }
    }
}

/// The core serves no event of an author whom no connection string names.
pub proof fn law_unknown_author_is_ignored(
    event: EventView,
    clients: Seq<ClientView>,
    public_key: Seq<char>,
)
    requires
        forall|i: int|
            0 <= i < clients.len() ==> (#[trigger] clients[i]).uri.public_key != event.pubkey,
    ensures
        service::service_request(event, clients, public_key) == Err::<PendingView, Ignored>(
            Ignored::UnknownClient,
        ),
{
    law_found_client_is_named(clients, event.pubkey);
}

/// Neither service serves an event whose id or signature is wrong.
pub proof fn law_forged_event_is_ignored(
    event: EventView,
    clients: Seq<ClientView>,
    keys: Keys,
    now: u64,
)
    requires
        !event_authentic(event),
    ensures
        service::service_request(event, clients, keys.public()) is Err,
        plugin::plugin_request(event, keys, now) is Err,
{
}

/// The plugin serves no event after the time at which it ceases to count, and an event that is
/// passed over as expired is passed over ever after.
pub proof fn law_expired_event_is_ignored(event: EventView, keys: Keys, now: u64, later: u64)
    requires
        tags_expiration(event.tags) matches Some(time) && time < now,
        now <= later,
    ensures
        plugin::plugin_request(event, keys, later) == Err::<PendingView, Ignored>(Ignored::Expired),
{
}

/// Each client that is told of a payment by the plugin reads the notification with its own secret
/// key.
pub proof fn law_clients_read_notification(
    events: Seq<Event>,
    keys: Keys,
    clients: Seq<ClientView>,
    message: Seq<char>,
    i: int,
)
    requires
        is_key_pair(keys.secret(), keys.public()),
        events_tell(
            events,
            keys,
            told_clients(keys, clients, Addressee::Client, message),
            Addressee::Client,
            message,
        ),
        0 <= i < events.len(),
        forall|j: int| 0 <= j < clients.len() ==> client_keys(#[trigger] clients[j]),
    ensures
        events[i]@.kind == KIND_NOTIFICATION,
        event_authentic(events[i]@),
        plaintext(
            told_clients(keys, clients, Addressee::Client, message)[i].uri.secret,
            events[i]@.pubkey,
            events[i]@.content,
        ) == Some(message),
{
    let told = told_clients(keys, clients, Addressee::Client, message);
    let client = told[i];
    assert(told.contains(client));
    clients.lemma_filter_contains_rev(
        |client: ClientView|
            nip44_accepts(keys.secret(), reader_key(client, Addressee::Client), message),
        client,
    );
    let j = choose|j: int| 0 <= j < clients.len() && clients[j] == client;
    assert(client_keys(clients[j]));
    assert(carries(
        events[i]@,
        keys,
        reader_key(client, Addressee::Client),
        KIND_NOTIFICATION,
        seq![key_tag_view(client.uri.public_key)],
        message,
    ));
    assert(is_key_pair(client.uri.secret, client_public(client)));
}

/// Each client of the wallet comes from a connection string that is kept and can be read.
pub proof fn law_clients_come_from_strings(uris: Seq<(String, String)>, i: int)
    requires
        0 <= i < active_clients(uris).len(),
    ensures
        exists|j: int|
            0 <= j < uris.len() && (#[trigger] uris[j]).0@ == active_clients(uris)[i].name
                && parsed_uri(uris[j].1@) == Some(active_clients(uris)[i].uri),
    decreases uris.len(),
{
    let front = uris.drop_last();
    let clients = active_clients(front);
    if i < clients.len() {
        law_clients_come_from_strings(front, i);
        let j = choose|j: int|
            0 <= j < front.len() && (#[trigger] front[j]).0@ == clients[i].name && parsed_uri(
                front[j].1@,
            ) == Some(clients[i].uri);
        assert(uris[j] == front[j]);
    } else {
        assert(uris[uris.len() - 1] == uris.last());
    }
}

/// Whoever is handed a new connection string is a client of the wallet from then on, with the
/// wallet's key, the relays and the secret key that the string says, provided that the reader
/// accepts a relay of the string and that the string is not longer than a URL can be.
pub proof fn law_new_string_makes_client(
    uris: Seq<(String, String)>,
    name: String,
    text: String,
    public_key: Seq<char>,
    relays: Seq<Seq<char>>,
    secret: Seq<char>,
)
    requires
        connects_with(text@, public_key, relays, secret),
        text@.len() <= u32::MAX,
        known_relays(known_relays(relays)).len() > 0,
    ensures
        active_clients(uris.push((name, text))) == active_clients(uris).push(
            ClientView {
                name: name@,
                uri: UriView {
                    public_key,
                    relays: known_relays(known_relays(relays)),
                    secret,
                    lud16: None,
                },
            },
        ),
{
    assert(uris.push((name, text)).drop_last() =~= uris);
}

/// A connection string that is removed after it was made leaves no trace, and no other is touched
/// by either.
pub proof fn law_connection_comes_and_goes(
    connections: Map<Seq<char>, Seq<char>>,
    name: Seq<char>,
    text: Seq<char>,
    other: Seq<char>,
)
    requires
        other != name,
    ensures
        !connections.dom().contains(name) ==> connections.insert(name, text).remove(name)
            == connections,
        connections.insert(name, text).dom().contains(other) == connections.dom().contains(other),
        connections.remove(name).dom().contains(other) == connections.dom().contains(other),
        connections.dom().contains(other) ==> connections.insert(name, text)[other]
            == connections[other],
        connections.dom().contains(other) ==> connections.remove(name)[other]
            == connections[other],
{
    if !connections.dom().contains(name) {
        assert(connections.insert(name, text).remove(name) =~= connections);
    }
}

/// A configured key is used whatever is stored; without one, a key that was made and stored in one
/// session is used in the next.
pub proof fn law_secret_key_is_kept(
    configured: String,
    stored: Result<Option<String>, String>,
    fresh: String,
)
    ensures
        known_key(Some(configured), stored) == Some(configured@),
        known_key(None, Ok(Some(fresh))) == Some(fresh@),
{
}

/// The wallet's listeners are told the fees in the satoshis that the wallet has named.
pub proof fn law_fees_survive(fees_sat: Option<u64>)
    requires
        optional_fits(fees_sat),
    ensures
        service::optional_sats(optional_msats(fees_sat)) == fees_sat,
{
}

/// The wallet never pays more than was asked for, and less by under one satoshi.
pub proof fn law_amount_is_rounded_down(prepare: PrepareSendRequest, request: PayInvoiceView)
    requires
        prepares(prepare, request),
    ensures
        request.amount matches Some(msats) ==> {
            &&& prepare.amount matches Some(PayAmount::Bitcoin { receiver_amount_sat })
            &&& receiver_amount_sat * MSATS_PER_SAT <= msats
            &&& msats < (receiver_amount_sat + 1) * MSATS_PER_SAT
        },
        request.amount is None ==> prepare.amount is None,
{
}

/// The parameters of a message over the relay reach the wallet's handler as they were asked for.
pub proof fn law_params_reach_handler(message: Seq<char>, received: Received)
    requires
        serves(received, asked(message)),
    ensures
        match asked(message) {
            Asked::Call(CallView::PayInvoice(request)) => received matches Received::PayInvoice(
                params,
            ) && parsed_pay_invoice(params@) == Ok::<PayInvoiceView, Seq<char>>(request),
            Asked::Call(CallView::ListTransactions(request)) => received matches
                Received::ListTransactions(params) && parsed_list_transactions(
                listing_params(params@),
            ) == Ok::<ListTransactionsRequest, Seq<char>>(request),
            Asked::Call(CallView::GetBalance) => received is GetBalance,
            Asked::Refused { .. } => received is Reply,
        },
{
}

/// The phase of the core after a list of happenings.
pub open spec fn service_after(happenings: Seq<service::Happening>) -> service::Phase
    decreases happenings.len(),
{
    if happenings.len() == 0 {
        service::Phase::Connecting
    } else {
        service::next_phase(service_after(happenings.drop_last()), happenings.last()).0
    }
}

/// Whether the core has connected, announced what it can do, loaded its clients and subscribed to
/// what they write, at the given happenings and in this order.
pub open spec fn prepared_at(
    happenings: Seq<service::Happening>,
    connected: int,
    announced: int,
    loaded: int,
    subscribed: int,
) -> bool {
    &&& 0 <= connected < announced < loaded < subscribed < happenings.len()
    &&& happenings[connected] == service::Happening::Connected
    &&& happenings[announced] == service::Happening::Announced
    &&& happenings[loaded] == service::Happening::Loaded
    &&& happenings[subscribed] == service::Happening::Subscribed
}

/// The core serves its clients only after it has connected, announced what it can do, loaded them
/// and subscribed to what they write, in this order, and only while it was not asked to end.
pub proof fn law_service_serves_after_loading(happenings: Seq<service::Happening>)
    requires
        service_after(happenings) == service::Phase::Serving,
    ensures
        exists|a: int, b: int, c: int, d: int| #[trigger] prepared_at(happenings, a, b, c, d),
        !happenings.contains(service::Happening::Shutdown),
    decreases happenings.len(),
{
    let front = happenings.drop_last();
    let last = happenings.len() - 1;
    lemma_not_shut_down(happenings);
    assert(happenings[last] == happenings.last());
    if service_after(front) == service::Phase::Serving {
        law_service_serves_after_loading(front);
        let (a, b, c, d) = choose|a: int, b: int, c: int, d: int| #[trigger]
            prepared_at(front, a, b, c, d);
        assert(prepared_at(happenings, a, b, c, d));
    } else {
        let (a, b, c) = lemma_subscribing_path(front);
        assert(prepared_at(happenings, a, b, c, last));
    }
}

proof fn lemma_not_shut_down(happenings: Seq<service::Happening>)
    requires
        service_after(happenings) != service::Phase::Stopped,
    ensures
        !happenings.contains(service::Happening::Shutdown),
    decreases happenings.len(),
{
    if happenings.len() > 0 {
        let front = happenings.drop_last();
        lemma_not_shut_down(front);
        if happenings.contains(service::Happening::Shutdown) {
            let i = choose|i: int|
                0 <= i < happenings.len() && happenings[i] == service::Happening::Shutdown;
            if i < front.len() {
                assert(front[i] == service::Happening::Shutdown);
            }
        }
    }
}

proof fn lemma_announcing_path(happenings: Seq<service::Happening>) -> (a: int)
    requires
        service_after(happenings) == service::Phase::Announcing,
    ensures
        0 <= a < happenings.len(),
        happenings[a] == service::Happening::Connected,
    decreases happenings.len(),
{
    let front = happenings.drop_last();
    if service_after(front) == service::Phase::Announcing {
        lemma_announcing_path(front)
    } else {
        happenings.len() - 1
    }
}

proof fn lemma_loading_path(happenings: Seq<service::Happening>) -> (path: (int, int))
    requires
        service_after(happenings) == service::Phase::Loading,
    ensures
        0 <= path.0 < path.1 < happenings.len(),
        happenings[path.0] == service::Happening::Connected,
        happenings[path.1] == service::Happening::Announced,
    decreases happenings.len(),
{
    let front = happenings.drop_last();
    if service_after(front) == service::Phase::Loading {
        lemma_loading_path(front)
    } else {
        (lemma_announcing_path(front), happenings.len() - 1)
    }
}

proof fn lemma_subscribing_path(happenings: Seq<service::Happening>) -> (path: (int, int, int))
    requires
        service_after(happenings) == service::Phase::Subscribing,
    ensures
        0 <= path.0 < path.1 < path.2 < happenings.len(),
        happenings[path.0] == service::Happening::Connected,
        happenings[path.1] == service::Happening::Announced,
        happenings[path.2] == service::Happening::Loaded,
    decreases happenings.len(),
{
    let front = happenings.drop_last();
    if service_after(front) == service::Phase::Subscribing {
        lemma_subscribing_path(front)
    } else {
        let (a, b) = lemma_loading_path(front);
        (a, b, happenings.len() - 1)
    }
}

/// Events are served and payments forwarded only while the core serves, and once it has ended it
/// does nothing more.
pub proof fn law_service_works_only_while_serving(
    phase: service::Phase,
    happening: service::Happening,
)
    ensures
        ({
            let (next, task) = service::next_phase(phase, happening);
            &&& task == service::Task::HandleEvent || task == service::Task::ForwardPayment ==> phase
                == service::Phase::Serving && next == service::Phase::Serving
            &&& phase == service::Phase::Stopped ==> next == service::Phase::Stopped && task
                == service::Task::End
            &&& happening == service::Happening::Shutdown ==> next == service::Phase::Stopped
        }),
{
}

/// The phase of the plugin after a list of happenings.
pub open spec fn plugin_after(happenings: Seq<plugin::Happening>) -> plugin::Phase
    decreases happenings.len(),
{
    if happenings.len() == 0 {
        plugin::Phase::Connecting
    } else {
        plugin::next_phase(plugin_after(happenings.drop_last()), happenings.last()).0
    }
}

/// Whether the plugin takes notice at a happening that a connection string has come or gone.
pub open spec fn change_taken(happenings: Seq<plugin::Happening>, at: int) -> bool {
    &&& happenings[at] == plugin::Happening::ConnectionsChanged
    &&& plugin_after(happenings.take(at)) == plugin::Phase::Serving
}

/// Whether the clients were loaded at one happening and subscribed to at a later one, and no notice
/// was taken of a change of the connection strings since they were loaded.
pub open spec fn current_since(
    happenings: Seq<plugin::Happening>,
    loaded: int,
    subscribed: int,
) -> bool {
    &&& 0 <= loaded < subscribed < happenings.len()
    &&& happenings[loaded] == plugin::Happening::Loaded
    &&& happenings[subscribed] == plugin::Happening::Subscribed
    &&& forall|k: int| loaded <= k < happenings.len() ==> !#[trigger] change_taken(happenings, k)
}

/// While the plugin serves, it has loaded its clients and then subscribed to what they write, both
/// since it last took notice that a connection string has come or gone.
pub proof fn law_plugin_serves_current_clients(happenings: Seq<plugin::Happening>)
    requires
        plugin_after(happenings) == plugin::Phase::Serving,
    ensures
        exists|loaded: int, subscribed: int| #[trigger]
            current_since(happenings, loaded, subscribed),
    decreases happenings.len(),
{
    let front = happenings.drop_last();
    let last = happenings.len() - 1;
    assert(happenings[last] == happenings.last());
    assert(happenings.take(last) =~= front);
    if plugin_after(front) == plugin::Phase::Serving {
        law_plugin_serves_current_clients(front);
        let (a, b) = choose|a: int, b: int| #[trigger] current_since(front, a, b);
        assert forall|k: int| a <= k < happenings.len() implies !#[trigger] change_taken(
            happenings,
            k,
        ) by {
            if k < last {
                assert(happenings.take(k) =~= front.take(k));
                assert(!change_taken(front, k));
            }
        }
        assert(current_since(happenings, a, b));
    } else {
        let a = lemma_subscribing_has_loaded(front);
        assert forall|k: int| a <= k < happenings.len() implies !#[trigger] change_taken(
            happenings,
            k,
        ) by {
            if k < last {
                assert(happenings.take(k) =~= front.take(k));
                assert(!change_taken(front, k));
            }
        }
        assert(current_since(happenings, a, last));
    }
}

proof fn lemma_subscribing_has_loaded(happenings: Seq<plugin::Happening>) -> (a: int)
    requires
        plugin_after(happenings) == plugin::Phase::Subscribing,
    ensures
        0 <= a < happenings.len(),
        happenings[a] == plugin::Happening::Loaded,
        forall|k: int| a <= k < happenings.len() ==> !#[trigger] change_taken(happenings, k),
    decreases happenings.len(),
{
    let front = happenings.drop_last();
    let last = happenings.len() - 1;
    assert(happenings[last] == happenings.last());
    assert(happenings.take(last) =~= front);
    if plugin_after(front) == plugin::Phase::Subscribing {
        let a = lemma_subscribing_has_loaded(front);
        assert forall|k: int| a <= k < happenings.len() implies !#[trigger] change_taken(
            happenings,
            k,
        ) by {
            if k < last {
                assert(happenings.take(k) =~= front.take(k));
                assert(!change_taken(front, k));
            }
        }
        a
    } else {
        last
    }
}

/// Events are served and payments forwarded only while the plugin serves; a change of the
/// connection strings sends a serving plugin back to its clients; and once it has ended it never
/// serves again.
pub proof fn law_plugin_works_only_while_serving(
    phase: plugin::Phase,
    happening: plugin::Happening,
)
    ensures
        ({
            let (next, task) = plugin::next_phase(phase, happening);
            &&& task == plugin::Task::HandleEvent || task == plugin::Task::ForwardPayment ==> phase
                == plugin::Phase::Serving && next == plugin::Phase::Serving
            &&& phase == plugin::Phase::Serving && happening
                == plugin::Happening::ConnectionsChanged ==> next == plugin::Phase::Loading && task
                == plugin::Task::LoadClients
            &&& phase == plugin::Phase::Stopped ==> next == plugin::Phase::Stopped
            &&& happening == plugin::Happening::Stop ==> next == plugin::Phase::Stopped && task
                == plugin::Task::Disconnect
        }),
{
}

/// Over the relay, a text is served only once the connection stands, a ping is answered with its
/// own data, and a closed connection stays closed.
pub proof fn law_socket_answers(state: SocketState, event: SocketEvent)
    ensures
        next_socket(state, event).1 matches SocketAction::Receive(text) ==> state
            == SocketState::Reading && event == SocketEvent::Text(text),
        state == SocketState::Reading ==> (event matches SocketEvent::Ping(data) ==> next_socket(
            state,
            event,
        ) == (SocketState::Ponging, SocketAction::SendPong(data))),
        state == SocketState::Closed ==> next_socket(state, event) == (
            SocketState::Closed,
            SocketAction::Stop,
        ),
{
}

/// Whether a store holds just the indices below a number.
pub open spec fn holds_below(stored: Set<u32>, count: nat) -> bool {
    forall|index: u32| #[trigger] stored.contains(index) <==> index < count
}

/// Whether a list of keys names each index of a store once.
pub open spec fn keys_of(keys: Seq<Option<u32>>, stored: Set<u32>) -> bool {
    &&& forall|i: int|
        0 <= i < keys.len() ==> ((#[trigger] keys[i]) matches Some(key) && stored.contains(key))
    &&& forall|index: u32| #[trigger] stored.contains(index) ==> keys.contains(Some(index))
    &&& keys.no_duplicates()
}

/// The stored indices stay without a gap: an index that is accepted overwrites an update or comes
/// right behind the last; the first is zero.
pub proof fn law_accepted_index_leaves_no_gap(
    stored: Set<u32>,
    count: nat,
    keys: Seq<Option<u32>>,
    index: u32,
)
    requires
        holds_below(stored, count),
        keys_of(keys, stored),
        index_refusal(index, max_index(keys)) is None,
    ensures
        index <= count,
        holds_below(
            stored.insert(index),
            if index == count {
                count + 1
            } else {
                count
            },
        ),
{
    law_max_index_is_greatest(keys);
    match max_index(keys) {
        Some(max) => {
            let i = choose|i: int| 0 <= i < keys.len() && keys[i] == Some(max);
            assert(keys[i] matches Some(key) && stored.contains(key));
            if count > max + 1 {
                let next = (max + 1) as u32;
                if max < u32::MAX {
                    assert(stored.contains(next));
                    let j = choose|j: int| 0 <= j < keys.len() && keys[j] == Some(next);
                    assert(keys[j] is Some);
                }
            }
        },
        None => {
            if count > 0 {
                assert(stored.contains(0u32));
                let j = choose|j: int| 0 <= j < keys.len() && keys[j] == Some(0u32);
                assert(keys[j] is Some);
            }
        },
    }
}

/// Every index up to the one behind the last is accepted: an update may be overwritten or added.
pub proof fn law_next_index_is_accepted(
    stored: Set<u32>,
    count: nat,
    keys: Seq<Option<u32>>,
    index: u32,
)
    requires
        holds_below(stored, count),
        keys_of(keys, stored),
        index <= count,
    ensures
        index_refusal(index, max_index(keys)) is None,
{
    law_max_index_is_greatest(keys);
    match max_index(keys) {
        Some(max) => {
            if count > 0 && index > max + 1 {
                let last = (index - 1) as u32;
                assert(stored.contains(last));
                let j = choose|j: int| 0 <= j < keys.len() && keys[j] == Some(last);
                assert(keys[j] matches Some(key) && key <= max);
            }
            if count == 0 {
                let i = choose|i: int| 0 <= i < keys.len() && keys[i] == Some(max);
                assert(keys[i] matches Some(key) && stored.contains(key));
            }
        },
        None => {
            if count > 0 {
                assert(stored.contains(0u32));
                let j = choose|j: int| 0 <= j < keys.len() && keys[j] == Some(0u32);
                assert(keys[j] is Some);
            }
        },
    }
}

/// A store is cleared on loading just where its indices have a gap.
pub proof fn law_store_is_cleared_for_a_gap(stored: Set<u32>, keys: Seq<Option<u32>>)
    requires
        keys_of(keys, stored),
    ensures
        has_gap(keys.len(), max_index(keys)) <==> !holds_below(stored, keys.len()),
{
    law_max_index_is_greatest(keys);
    let numbers = keys.map_values(|key: Option<u32>| key->0 as int);
    assert forall|i: int, j: int| 0 <= i < j < numbers.len() implies numbers[i] != numbers[j] by {
        assert(keys[i] != keys[j]);
        assert(keys[i] matches Some(key) && stored.contains(key));
        assert(keys[j] matches Some(key) && stored.contains(key));
    }
    match max_index(keys) {
        Some(max) => {
            let i = choose|i: int| 0 <= i < keys.len() && keys[i] == Some(max);
            assert(keys[i] matches Some(key) && stored.contains(key));
            if max + 1 == keys.len() {
                assert forall|index: u32| #[trigger] stored.contains(index) <==> index
                    < keys.len() by {
                    if stored.contains(index) {
                        let j = choose|j: int| 0 <= j < keys.len() && keys[j] == Some(index);
                        assert(keys[j] matches Some(key) && key <= max);
                    }
                    if index < keys.len() {
                        assert forall|j: int| 0 <= j < numbers.len() implies 0
                            <= #[trigger] numbers[j] < numbers.len() by {
                            assert(keys[j] matches Some(key) && key <= max);
                        }
                        lemma_numbers_fill(numbers, index as int);
                        let j = choose|j: int|
                            0 <= j < numbers.len() && numbers[j] == index as int;
                        assert(keys[j] matches Some(key) && stored.contains(key));
                        assert(keys[j] == Some(index));
                    }
                }
            } else {
                assert forall|j: int| 0 <= j < numbers.len() implies 0 <= #[trigger] numbers[j]
                    < max + 1 by {
                    assert(keys[j] matches Some(key) && key <= max);
                }
                lemma_numbers_fit(numbers, max + 1);
                assert(max >= keys.len());
            }
        },
        None => {
            if keys.len() > 0 {
                assert(keys[0] matches Some(key) && stored.contains(key));
            }
            assert forall|index: u32| #[trigger] stored.contains(index) <==> index < 0 by {
                if stored.contains(index) {
                    assert(keys.contains(Some(index)));
                }
            }
        },
    }
}

/// There are not more distinct numbers below a bound than the bound says.
proof fn lemma_numbers_fit(numbers: Seq<int>, bound: int)
    requires
        forall|i: int, j: int|
            0 <= i < j < numbers.len() ==> #[trigger] numbers[i] != #[trigger] numbers[j],
        forall|i: int| 0 <= i < numbers.len() ==> 0 <= #[trigger] numbers[i] < bound,
        0 <= bound,
    ensures
        numbers.len() <= bound,
{
    numbers.unique_seq_to_set();
    let below = vstd::set_lib::set_int_range(0, bound);
    vstd::set_lib::lemma_int_range(0, bound);
    assert(numbers.to_set().subset_of(below)) by {
        assert forall|n: int| numbers.to_set().contains(n) implies below.contains(n) by {
            let i = choose|i: int| 0 <= i < numbers.len() && numbers[i] == n;
        }
    }
    vstd::set_lib::lemma_len_subset(numbers.to_set(), below);
}

/// Distinct numbers below their own count are all the numbers below it.
proof fn lemma_numbers_fill(numbers: Seq<int>, number: int)
    requires
        forall|i: int, j: int|
            0 <= i < j < numbers.len() ==> #[trigger] numbers[i] != #[trigger] numbers[j],
        forall|i: int| 0 <= i < numbers.len() ==> 0 <= #[trigger] numbers[i] < numbers.len(),
        0 <= number < numbers.len(),
    ensures
        numbers.contains(number),
{
    numbers.unique_seq_to_set();
    let below = vstd::set_lib::set_int_range(0, numbers.len() as int);
    vstd::set_lib::lemma_int_range(0, numbers.len() as int);
    assert(numbers.to_set().subset_of(below)) by {
        assert forall|n: int| numbers.to_set().contains(n) implies below.contains(n) by {
            let i = choose|i: int| 0 <= i < numbers.len() && numbers[i] == n;
        }
    }
    vstd::set_lib::lemma_subset_equality(numbers.to_set(), below);
    assert(below.contains(number));
}

/// An entry that was made of an update holds the update that its encoding is decoded to.
pub proof fn law_sealed_update_is_decoded(
    sealed: Seq<u8>,
    update: lwk_wollet::Update,
    bytes: Seq<u8>,
    desc: lwk_wollet::WolletDescriptor,
)
    requires
        decrypted_entry(sealed, desc) == update_encoding(update),
        update_encoding(update) == Some(bytes),
    ensures
        sound_encoding(bytes) ==> opened_update(sealed, desc) == decoded_update(bytes),
        !sound_encoding(bytes) ==> opened_update(sealed, desc) is None,
        stable_update(update) ==> opened_update(sealed, desc) == Some(update),
{
}

/// A list of the keys of a store that holds just the indices below a number is that long.
proof fn lemma_keys_counted(keys: Seq<Option<u32>>, stored: Set<u32>, count: nat)
    requires
        keys_of(keys, stored),
        holds_below(stored, count),
        count <= u32::MAX + 1,
    ensures
        keys.len() == count,
{
    let numbers = keys.map_values(|key: Option<u32>| key->0 as int);
    assert forall|i: int, j: int| 0 <= i < j < numbers.len() implies numbers[i] != numbers[j] by {
        assert(keys[i] != keys[j]);
        assert(keys[i] is Some);
        assert(keys[j] is Some);
    }
    numbers.unique_seq_to_set();
    let below = vstd::set_lib::set_int_range(0, count as int);
    vstd::set_lib::lemma_int_range(0, count as int);
    assert forall|n: int| numbers.to_set().contains(n) <==> below.contains(n) by {
        if numbers.to_set().contains(n) {
            let i = choose|i: int| 0 <= i < numbers.len() && numbers[i] == n;
            assert(keys[i] matches Some(key) && stored.contains(key));
        }
        if below.contains(n) {
            assert(stored.contains(n as u32));
            let i = choose|i: int| 0 <= i < keys.len() && keys[i] == Some(n as u32);
            assert(numbers[i] == n);
        }
    }
    assert(numbers.to_set() =~= below);
}

/// What is stored is loaded: where the store holds entries at the indices below their number, which
/// are loaded as `before`, and an entry that was made of an update and can be opened is stored at an
/// index that is accepted, the store is loaded next as `before` with the update in that entry at
/// that index: in the place of the one that stood there, or behind all others. It is not cleared,
/// and nothing in it fails to be loaded. The update in the entry is the one that it was made of,
/// where the encoding of that is decoded to it.
pub proof fn law_stored_update_is_loaded(
    entries: Seq<Result<Vec<u8>, String>>,
    stored: Set<u32>,
    keys: Seq<Option<u32>>,
    before: Seq<lwk_wollet::Update>,
    index: u32,
    sealed: Vec<u8>,
    update: lwk_wollet::Update,
    desc: lwk_wollet::WolletDescriptor,
    keys_after: Seq<Option<u32>>,
    after: Seq<lwk_wollet::Update>,
)
    requires
        entries_opened(entries, desc, before),
        before.len() == entries.len(),
        entries.len() <= u32::MAX,
        holds_below(stored, entries.len()),
        keys_of(keys, stored),
        index_refusal(index, max_index(keys)) is None,
        decrypted_entry(sealed@, desc) == update_encoding(update),
        opened_update(sealed@, desc) is Some,
        keys_of(keys_after, stored.insert(index)),
    ensures
        stable_update(update) ==> opened_update(sealed@, desc) == Some(update),
        ({
            let stored_entries = updates_after(
                entries,
                Ok::<Vec<u8>, String>(sealed),
                index as usize,
            );
            &&& stored_entries.len() == if index < entries.len() {
                entries.len()
            } else {
                index as nat + 1
            }
            &&& !has_gap(stored_entries.len(), max_index(keys_after))
            &&& forall|at: int, error: LoadError| !#[trigger]
                first_failure(stored_entries, desc, at, error)
            &&& entries_opened(stored_entries, desc, after) && after.len() == stored_entries.len()
                ==> after == updates_after(before, opened_update(sealed@, desc)->0, index as usize)
        }),
{
    let read = opened_update(sealed@, desc)->0;
    let stored_entries = updates_after(entries, Ok::<Vec<u8>, String>(sealed), index as usize);
    law_accepted_index_leaves_no_gap(stored, entries.len(), keys, index);
    lemma_keys_counted(keys_after, stored.insert(index), stored_entries.len());
    law_store_is_cleared_for_a_gap(stored.insert(index), keys_after);
    assert forall|i: int| 0 <= i < stored_entries.len() implies ((#[trigger] stored_entries[i])
        matches Ok(bytes) && opened_update(bytes@, desc) == Some(
        updates_after(before, read, index as usize)[i],
    )) by {
        if i != index {
            assert(stored_entries[i] == entries[i]);
        }
    }
    assert forall|at: int, error: LoadError| !#[trigger]
        first_failure(stored_entries, desc, at, error) by {
        if 0 <= at < stored_entries.len() {
            assert(stored_entries[at] is Ok);
        }
    }
    if entries_opened(stored_entries, desc, after) && after.len() == stored_entries.len() {
        assert forall|i: int| 0 <= i < after.len() implies after[i] == updates_after(
            before,
            read,
            index as usize,
        )[i] by {
            assert(stored_entries[i] is Ok);
        }
        assert(after =~= updates_after(before, read, index as usize));
    }
}

/// An update that was loaded from the store and is stored again is loaded again as it was.
pub proof fn law_loaded_update_is_kept(
    entries: Seq<Result<Vec<u8>, String>>,
    updates: Seq<lwk_wollet::Update>,
    i: int,
    sealed: Seq<u8>,
    desc: lwk_wollet::WolletDescriptor,
)
    requires
        entries_opened(entries, desc, updates),
        0 <= i < updates.len(),
        decrypted_entry(sealed, desc) == update_encoding(updates[i]),
    ensures
        opened_update(sealed, desc) == Some(updates[i]),
{
    assert(entries[i] is Ok);
}

/// The cache hands out the update that was put at an index, and leaves all others as they were.
pub proof fn law_pushed_update_is_kept<U>(
    updates: Seq<U>,
    update: U,
    write_index: usize,
    other: int,
)
    requires
        write_index <= updates.len(),
    ensures
        updates_after(updates, update, write_index)[write_index as int] == update,
        0 <= other < updates.len() && other != write_index ==> updates_after(
            updates,
            update,
            write_index,
        )[other] == updates[other],
        updates_after(updates, update, write_index).len() == if write_index == updates.len() {
            updates.len() + 1
        } else {
            updates.len()
        },
{
}

} // verus!
