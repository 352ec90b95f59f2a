//! The wallet service of the core: it serves the clients whose connection strings it has handed
//! out.
use crate::cipher::{are_keys, message_fits, nip44_accepts};
use crate::directory::{entries_map, names_distinct, Directory};
use crate::event::{event_authentic, Event, EventView, KIND_INFO, KIND_REQUEST, KIND_RESPONSE};
use crate::exchange::{
    answer, call_method, carries, events_tell, info_content, info_text, notify_clients,
    outcome_is, read_request, request_in, response_tags, told_clients, Addressee, Client,
    ClientView, Ignored, PendingRequest, PendingView,
};
use crate::keys::{nostr_key_pair, Keys};
use crate::model::{payment_notification, tells_in_msats, told_of, Payment, PaymentType};
use crate::nip47::{ErrorCode, Nip47Error, MSATS_PER_SAT};
use crate::response::{answers, notification_json, response_json, ResponseResult};
use crate::text::same_text;
use crate::uri::{connects, ConnectionDraft};
use vstd::prelude::*;

verus! {

/// What the wallet's own listeners are told of a request that was served.
pub enum NwcEvent {
    PayInvoice {
        success: bool,
        preimage: Option<String>,
        fees_sat: Option<u64>,
        error: Option<String>,
    },
    ListTransactions,
    GetBalance,
}

/// The fees of a reply in whole satoshis, rounded down.
pub open spec fn optional_sats(msats: Option<u64>) -> Option<u64> {
    match msats {
        Some(n) => Some(n / MSATS_PER_SAT),
        None => None,
    }
}

/// The fees of a reply in whole satoshis, rounded down.
pub fn to_sats(msats: Option<u64>) -> (r: Option<u64>)
    ensures
        r == optional_sats(msats),
{
    match msats {
        Some(n) => Some(n / MSATS_PER_SAT),
        None => None,
    }
}

/// Whether the listeners are told of a reply as they should be: of every success, and of a payment
/// that failed, but of no other error.
pub open spec fn listeners_told(
    told: Option<NwcEvent>,
    reply: Result<ResponseResult, Nip47Error>,
) -> bool {
    match reply {
        Ok(ResponseResult::PayInvoice(paid)) => told matches Some(
            NwcEvent::PayInvoice { success, preimage, fees_sat, error },
        ) && success && preimage.deep_view() == Some(paid.preimage@) && fees_sat == optional_sats(
            paid.fees_paid,
        ) && error is None,
        Ok(ResponseResult::ListTransactions(_)) => told matches Some(NwcEvent::ListTransactions),
        Ok(ResponseResult::GetBalance(_)) => told matches Some(NwcEvent::GetBalance),
        Err(e) => if e.code == ErrorCode::PaymentFailed {
            told matches Some(NwcEvent::PayInvoice { success, preimage, fees_sat, error })
                && !success && preimage is None && fees_sat is None && error.deep_view() == Some(
                e.message@,
            )
        } else {
            told is None
        },
    }
}

/// Which events a relay is asked to pass on: those of the given authors and kinds.
pub struct AuthorFilter {
    pub authors: Vec<String>,
    pub kinds: Vec<u16>,
}

/// Whether a name and a filter are those of a client: requests of the key that its connection
/// string names are passed on.
pub open spec fn subscribes_to(subscription: (String, AuthorFilter), client: ClientView) -> bool {
    &&& subscription.0@ == client.name
    &&& subscription.1.authors.deep_view() == seq![client.uri.public_key]
    &&& subscription.1.kinds@ == seq![KIND_REQUEST]
}

/// The first client whose connection string names a key.
pub open spec fn find_client(clients: Seq<ClientView>, key: Seq<char>) -> Option<ClientView>
    decreases clients.len(),
{
    if clients.len() == 0 {
        None
    } else if clients[0].uri.public_key == key {
        Some(clients[0])
    } else {
        find_client(clients.drop_first(), key)
    }
}

/// What an event asks the service for: it counts only where a client's connection string names its
/// author; it is decrypted with that client's secret key and the service's public key, and
/// answered to the key that the connection string names.
pub open spec fn service_request(
    event: EventView,
    clients: Seq<ClientView>,
    public_key: Seq<char>,
) -> Result<PendingView, Ignored> {
    match find_client(clients, event.pubkey) {
        Some(client) => request_in(event, client.uri.secret, public_key, client.uri.public_key),
        None => Err(Ignored::UnknownClient),
    }
}

/// How far the service has come.
#[derive(Clone, Copy, Debug, PartialEq, Eq, Structural)]
pub enum Phase {
    /// It waits for the connection to the relays.
    Connecting,
    /// It says what the wallet can do.
    Announcing,
    /// It loads its clients.
    Loading,
    /// It subscribes to what each of its clients writes.
    Subscribing,
    /// It serves its clients.
    Serving,
    /// It has ended.
    Stopped,
}

/// What happens to the service.
#[derive(Clone, Copy, Debug, PartialEq, Eq, Structural)]
pub enum Happening {
    /// The relays are connected.
    Connected,
    /// It was said what the wallet can do, or that has failed.
    Announced,
    /// The clients are loaded.
    Loaded,
    /// The clients cannot be loaded.
    LoadFailed,
    /// The subscriptions are made.
    Subscribed,
    /// A subscription cannot be made.
    SubscribeFailed,
    /// A payment of the wallet has succeeded.
    PaymentSucceeded,
    /// A relay has passed something on.
    RelayNotification,
    /// An event was served or a payment was forwarded.
    Done,
    /// The service is asked to end.
    Shutdown,
}

/// What the service does next.
#[derive(Clone, Copy, Debug, PartialEq, Eq, Structural)]
pub enum Task {
    /// Say what the wallet can do.
    Announce,
    /// Load the clients.
    LoadClients,
    /// Subscribe to what each of the clients writes.
    Subscribe,
    /// Wait for the next happening.
    Wait,
    /// Tell the clients of the payment.
    ForwardPayment,
    /// Serve the event that the relay has passed on.
    HandleEvent,
    /// End, without touching the connection.
    End,
    /// Disconnect from the relays, within [`DISCONNECT_TIMEOUT_SECS`].
    Disconnect,
}

/// How long the service waits for the relays to disconnect, in seconds.
pub const DISCONNECT_TIMEOUT_SECS: u64 = 2;

/// Where a happening leads: through connecting, announcing, loading and subscribing to serving, in
/// this order; to the end where the clients cannot be loaded or a subscription cannot be made; and
/// from wherever it stands, as long as it has not ended, to the disconnection on a shutdown. What
/// does not belong to a phase is passed over.
pub open spec fn next_phase(phase: Phase, happening: Happening) -> (Phase, Task) {
    match (phase, happening) {
        (Phase::Stopped, _) => (Phase::Stopped, Task::End),
        (_, Happening::Shutdown) => (Phase::Stopped, Task::Disconnect),
        (Phase::Connecting, Happening::Connected) => (Phase::Announcing, Task::Announce),
        (Phase::Announcing, Happening::Announced) => (Phase::Loading, Task::LoadClients),
        (Phase::Loading, Happening::Loaded) => (Phase::Subscribing, Task::Subscribe),
        (Phase::Loading, Happening::LoadFailed) => (Phase::Stopped, Task::End),
        (Phase::Subscribing, Happening::Subscribed) => (Phase::Serving, Task::Wait),
        (Phase::Subscribing, Happening::SubscribeFailed) => (Phase::Stopped, Task::End),
        (Phase::Serving, Happening::PaymentSucceeded) => (Phase::Serving, Task::ForwardPayment),
        (Phase::Serving, Happening::RelayNotification) => (Phase::Serving, Task::HandleEvent),
        _ => (phase, Task::Wait),
    }
}

/// Says what the service does next.
pub fn step(phase: Phase, happening: Happening) -> (r: (Phase, Task))
    ensures
        r == next_phase(phase, happening),
{
    match phase {
        Phase::Stopped => (Phase::Stopped, Task::End),
        Phase::Connecting => match happening {
            Happening::Shutdown => (Phase::Stopped, Task::Disconnect),
            Happening::Connected => (Phase::Announcing, Task::Announce),
            _ => (phase, Task::Wait),
        },
        Phase::Announcing => match happening {
            Happening::Shutdown => (Phase::Stopped, Task::Disconnect),
            Happening::Announced => (Phase::Loading, Task::LoadClients),
            _ => (phase, Task::Wait),
        },
        Phase::Loading => match happening {
            Happening::Shutdown => (Phase::Stopped, Task::Disconnect),
            Happening::Loaded => (Phase::Subscribing, Task::Subscribe),
            Happening::LoadFailed => (Phase::Stopped, Task::End),
            _ => (phase, Task::Wait),
        },
        Phase::Subscribing => match happening {
            Happening::Shutdown => (Phase::Stopped, Task::Disconnect),
            Happening::Subscribed => (Phase::Serving, Task::Wait),
            Happening::SubscribeFailed => (Phase::Stopped, Task::End),
            _ => (phase, Task::Wait),
        },
        Phase::Serving => match happening {
            Happening::Shutdown => (Phase::Stopped, Task::Disconnect),
            Happening::PaymentSucceeded => (Phase::Serving, Task::ForwardPayment),
            Happening::RelayNotification => (Phase::Serving, Task::HandleEvent),
            _ => (phase, Task::Wait),
        },
    }
}

/// No connection string is kept under the name.
#[derive(Clone, Copy, Debug, PartialEq, Eq, Structural)]
pub struct UnsetConnection;

/// What comes of the removal of a connection string.
pub struct Removal {
    /// The subscription that was made for it and is to be ended.
    pub subscription: Option<String>,
    /// Whether there was a connection string.
    pub outcome: Result<(), UnsetConnection>,
}

/// The subscriptions after an attempt to make one for a name.
pub open spec fn subscriptions_after(
    subscriptions: Map<Seq<char>, Seq<char>>,
    name: Seq<char>,
    subscribed: Result<String, String>,
) -> Map<Seq<char>, Seq<char>> {
    match subscribed {
        Ok(subscription) => subscriptions.insert(name, subscription@),
        Err(_) => subscriptions,
    }
}

/// A service that hands out connection strings.
pub trait NWCService {
    /// The connection strings that are kept, by their names.
    spec fn connections(&self) -> Map<Seq<char>, Seq<char>>;

    /// The subscriptions to the relays, by the names of the connection strings.
    spec fn subscriptions(&self) -> Map<Seq<char>, Seq<char>>;

    /// Keeps a new connection string under a name, with the subscription that was made for it. Where
    /// none could be made, the string is kept all the same, but is not handed out.
    fn new_connection_string(
        &mut self,
        name: String,
        draft: ConnectionDraft,
        subscribed: Result<String, String>,
    ) -> (r: Result<String, String>)
        ensures
            final(self).connections() == old(self).connections().insert(name@, draft.text()),
            final(self).subscriptions() == subscriptions_after(
                old(self).subscriptions(),
                name@,
                subscribed,
            ),
            match subscribed {
                Ok(_) => r matches Ok(text) && text@ == draft.text() && connects(
                    text@,
                    draft.public_key(),
                    draft.relays(),
                ),
                Err(error) => r matches Err(said) && said@ == error@,
            },
    ;

    /// Lists the connection strings that are kept.
    fn list_connection_strings(&self) -> (r: Vec<(String, String)>)
        ensures
            entries_map(r@) == self.connections(),
            names_distinct(r@),
    ;

    /// Removes the connection string under a name, which fails where there is none, and forgets the
    /// subscription that was made for it.
    fn remove_connection_string(&mut self, name: &str) -> (r: Removal)
        ensures
            r.outcome is Ok == old(self).connections().dom().contains(name@),
            final(self).connections() == old(self).connections().remove(name@),
            match r.subscription {
                Some(subscription) => old(self).subscriptions().dom().contains(name@) && old(
                    self,
                ).subscriptions()[name@] == subscription@,
                None => !old(self).subscriptions().dom().contains(name@),
            },
            final(self).subscriptions() == old(self).subscriptions().remove(name@),
    ;
}

/// The wallet service of the core.
pub struct BreezNWCService {
    keys: Keys,
    relays: Vec<String>,
    connections: Directory,
    subscriptions: Directory,
}

impl NWCService for BreezNWCService {
    closed spec fn connections(&self) -> Map<Seq<char>, Seq<char>> {
        self.connections@
    }

    closed spec fn subscriptions(&self) -> Map<Seq<char>, Seq<char>> {
        self.subscriptions@
    }

    fn new_connection_string(
        &mut self,
        name: String,
        draft: ConnectionDraft,
        subscribed: Result<String, String>,
    ) -> (r: Result<String, String>)
        ensures
            final(self).keys() == old(self).keys(),
            final(self).relays() == old(self).relays(),
    {
        let text = draft.as_str().to_owned();
        self.connections.set(name.clone(), text.clone());
        match subscribed {
            Ok(subscription) => {
                self.subscribed(name, subscription);
                Ok(text)
            },
            Err(error) => Err(error),
        }
    }

    fn list_connection_strings(&self) -> (r: Vec<(String, String)>) {
        self.connections.list()
    }

    fn remove_connection_string(&mut self, name: &str) -> (r: Removal)
        ensures
            final(self).keys() == old(self).keys(),
            final(self).relays() == old(self).relays(),
    {
        let subscription = self.subscriptions.remove(name);
        let outcome = match self.connections.remove(name) {
            Some(_) => Ok(()),
            None => Err(UnsetConnection),
        };
        Removal { subscription, outcome }
    }
}

impl BreezNWCService {
    /// The keys of the wallet.
    pub closed spec fn keys(&self) -> Keys {
        self.keys
    }

    /// The relays on which the wallet meets its clients.
    pub closed spec fn relays(&self) -> Seq<Seq<char>> {
        self.relays.deep_view()
    }

    /// A service with the given secret key, relays and connection strings, and no subscription.
    pub fn new(secret_key: &str, relays: Vec<String>, uris: &Vec<(String, String)>) -> (r: Option<
        BreezNWCService,
    >)
        ensures
            match r {
                Some(service) => {
                    &&& nostr_key_pair(secret_key@) == Some(
                        (service.keys().secret(), service.keys().public()),
                    )
                    &&& service.relays() == relays.deep_view()
                    &&& service.connections() == entries_map(uris@)
                    &&& service.subscriptions() == Map::<Seq<char>, Seq<char>>::empty()
                },
                None => nostr_key_pair(secret_key@) is None,
            },
    {
        match Keys::parse(secret_key) {
            Some(keys) => Some(
                BreezNWCService {
                    keys,
                    relays,
                    connections: Directory::from_entries(uris),
                    subscriptions: Directory::new(),
                },
            ),
            None => None,
        }
    }

    /// Makes a connection string, which is not kept yet.
    pub fn draft_connection_string(&self) -> (r: ConnectionDraft)
        ensures
            r.public_key() == self.keys().public(),
            r.relays() == self.relays(),
            connects(r.text(), self.keys().public(), self.relays()),
    {
        ConnectionDraft::new(&self.keys, &self.relays)
    }

    /// Takes over the connection strings of the database in place of those that are kept.
    pub fn load_connections(&mut self, uris: &Vec<(String, String)>)
        ensures
            final(self).connections() == entries_map(uris@),
            final(self).keys() == old(self).keys(),
            final(self).relays() == old(self).relays(),
            final(self).subscriptions() == old(self).subscriptions(),
    {
        self.connections = Directory::from_entries(uris);
    }

    /// The wallet's public key, which every connection string that it makes names.
    pub fn public_key(&self) -> (r: &str)
        ensures
            r@ == self.keys().public(),
    {
        self.keys.public_key()
    }

    /// Which events a relay is asked to pass on for a connection string: requests of the key that
    /// the string names.
    pub fn subscription_filter(&self, public_key: &str) -> (r: AuthorFilter)
        ensures
            r.authors.deep_view() == seq![public_key@],
            r.kinds@ == seq![KIND_REQUEST],
    {
        let authors: Vec<String> = vec![public_key.to_owned()];
        assert(authors.deep_view() =~= seq![public_key@]);
        let kinds: Vec<u16> = vec![KIND_REQUEST];
        assert(kinds@ =~= seq![KIND_REQUEST]);
        AuthorFilter { authors, kinds }
    }

    /// Which events the relays are asked to pass on for the clients: for each client, under its
    /// name, requests of the key that its connection string names.
    pub fn subscription_filters(&self, clients: &Vec<Client>) -> (r: Vec<(String, AuthorFilter)>)
        ensures
            r@.len() == clients@.len(),
            forall|i: int|
                0 <= i < clients@.len() ==> subscribes_to(#[trigger] r@[i], clients@[i]@),
    {
        let mut filters: Vec<(String, AuthorFilter)> = Vec::new();
        for i in 0..clients.len()
            invariant
                filters@.len() == i,
                forall|j: int| 0 <= j < i ==> subscribes_to(#[trigger] filters@[j], clients@[j]@),
        {
            let client = &clients[i];
            let filter = self.subscription_filter(client.uri().public_key.as_str());
            filters.push((client.name().to_owned(), filter));
        }
        filters
    }

    /// Keeps the subscription that was made for a connection string.
    pub fn subscribed(&mut self, name: String, subscription: String)
        ensures
            final(self).subscriptions() == old(self).subscriptions().insert(
                name@,
                subscription@,
            ),
            final(self).keys() == old(self).keys(),
            final(self).relays() == old(self).relays(),
            final(self).connections() == old(self).connections(),
    {
        self.subscriptions.set(name, subscription);
    }

    /// The event in which the wallet says what it can do.
    pub fn info_event(&self) -> (r: Event)
        ensures
            r@.pubkey == self.keys().public(),
            r@.kind == KIND_INFO,
            r@.content == info_text(),
            r@.tags == Seq::<Seq<Seq<char>>>::empty(),
            event_authentic(r@),
    {
        let content = info_content();
        let tags: Vec<Vec<String>> = Vec::new();
        assert(tags.deep_view() =~= Seq::<Seq<Seq<char>>>::empty());
        proof {
            reveal(Seq::filter);
        }
        Event::signed(&self.keys, KIND_INFO, content.as_str(), &tags)
    }

    /// Reads what an event asks for, or says why it is left unanswered.
    pub fn handle_event(&self, event: &Event, clients: &Vec<Client>) -> (r: Result<
        PendingRequest,
        Ignored,
    >)
        ensures
            outcome_is(
                r,
                service_request(event@, clients.deep_view(), self.keys().public()),
            ),
    {
        let ghost all = clients.deep_view();
        assert(all.skip(0) =~= all);
        for i in 0..clients.len()
            invariant
                all == clients.deep_view(),
                find_client(all, event@.pubkey) == find_client(all.skip(i as int), event@.pubkey),
        {
            let uri = clients[i].uri();
            assert(all.skip(i as int)[0] == clients@[i as int]@);
            assert(all.skip(i as int).drop_first() =~= all.skip(i + 1));
            if same_text(uri.public_key.as_str(), event.pubkey.as_str()) {
                return read_request(
                    event,
                    uri.secret.as_str(),
                    self.keys.public_key(),
                    uri.public_key.as_str(),
                );
            }
        }
        Err(Ignored::UnknownClient)
    }

    /// Says what the wallet's listeners are told of a reply.
    pub fn handle_local_notification(&self, reply: &Result<ResponseResult, Nip47Error>) -> (r:
        Option<NwcEvent>)
        ensures
            listeners_told(r, *reply),
    {
        match reply {
            Ok(ResponseResult::PayInvoice(paid)) => Some(
                NwcEvent::PayInvoice {
                    success: true,
                    preimage: Some(paid.preimage.clone()),
                    fees_sat: to_sats(paid.fees_paid),
                    error: None,
                },
            ),
            Ok(ResponseResult::ListTransactions(_)) => Some(NwcEvent::ListTransactions),
            Ok(ResponseResult::GetBalance(_)) => Some(NwcEvent::GetBalance),
            Err(error) => if error.code == ErrorCode::PaymentFailed {
                Some(
                    NwcEvent::PayInvoice {
                        success: false,
                        preimage: None,
                        fees_sat: None,
                        error: Some(error.message.clone()),
                    },
                )
            } else {
                None
            },
        }
    }

    /// Writes the answer to a request. There is none where the reply cannot be encrypted.
    pub fn respond(
        &self,
        pending: &PendingRequest,
        reply: &Result<ResponseResult, Nip47Error>,
    ) -> (r: Option<Event>)
        requires
            answers(call_method(pending@.call), *reply),
        ensures
            r is Some == nip44_accepts(
                self.keys().secret(),
                pending@.client_key,
                response_json(call_method(pending@.call), *reply),
            ),
            are_keys(self.keys().secret(), pending@.client_key) ==> r is Some == message_fits(
                response_json(call_method(pending@.call), *reply),
            ),
            r matches Some(event) ==> carries(
                event@,
                self.keys(),
                pending@.client_key,
                KIND_RESPONSE,
                response_tags(pending@),
                response_json(call_method(pending@.call), *reply),
            ),
    {
        answer(&self.keys, pending, reply)
    }

    /// Writes the events that tell the clients of a payment: one for each client for whom the
    /// notification can be encrypted with the key that its connection string names. Of a payment
    /// that was not made over lightning nobody is told.
    pub fn forward_payment_to_relays(&self, payment: &Payment, clients: &Vec<Client>) -> (r: Vec<
        Event,
    >)
        requires
            payment.details is Lightning ==> tells_in_msats(*payment),
        ensures
            match told_of(*payment) {
                Some(told) => {
                    let message = notification_json(
                        payment.payment_type == PaymentType::Send,
                        told,
                    );
                    events_tell(
                        r@,
                        self.keys(),
                        told_clients(
                            self.keys(),
                            clients.deep_view(),
                            Addressee::NamedKey,
                            message,
                        ),
                        Addressee::NamedKey,
                        message,
                    )
                },
                None => r@.len() == 0,
            },
    {
        match payment_notification(payment) {
            Some(notification) => {
                let message = notification.to_json();
                notify_clients(&self.keys, clients, Addressee::NamedKey, message.as_str())
            },
            None => Vec::new(),
        }
    }
}

} // verus!
