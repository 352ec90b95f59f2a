//! The wallet service as a plugin: it serves whoever writes to the wallet's key, and renews its
//! subscription whenever a connection string comes or goes.
use crate::cipher::{are_keys, message_fits, nip44_accepts};
use crate::directory::{entries_map, names_distinct, Directory};
use crate::event::{
    event_authentic, kept_tags, now, tags_expiration, Event, EventView, KIND_INFO, KIND_REQUEST,
    KIND_RESPONSE,
};
use crate::exchange::{
    answer, call_method, carries, events_tell, info_content, info_text, notify_clients,
    outcome_is, read_request, request_in, response_tags, told_clients, Addressee, Client,
    ClientView, Ignored, PendingRequest, PendingView,
};
use crate::keys::{nostr_key_pair, Keys};
use crate::model::{payment_notification, tells_in_msats, told_of, Payment, PaymentType};
use crate::nip47::{ErrorCode, Nip47Error};
use crate::response::{answers, notification_json, response_json, ResponseResult};
use crate::service::{optional_sats, to_sats, UnsetConnection};
use crate::text::lists_text;
use crate::uri::{connects, ConnectionDraft};
use vstd::prelude::*;

verus! {

/// What has happened in a wallet connection.
pub enum NwcEvent {
    ConnectedHandled,
    DisconnectedHandled,
    PayInvoiceHandled {
        success: bool,
        preimage: Option<String>,
        fees_sat: Option<u64>,
        error: Option<String>,
    },
    ListTransactionsHandled,
    GetBalanceHandled,
}

/// What the wallet's own listeners are told: what has happened, and which event brought it about.
pub struct SdkEvent {
    pub details: NwcEvent,
    pub event_id: String,
}

/// Whether the listeners are told of a reply as they should be: of every success, and of a payment
/// that failed, but of no other error; each time with the id of the event that asked.
pub open spec fn listeners_told(
    told: Option<SdkEvent>,
    reply: Result<ResponseResult, Nip47Error>,
    event_id: Seq<char>,
) -> bool {
    &&& told matches Some(event) ==> event.event_id@ == event_id
    &&& match reply {
        Ok(ResponseResult::PayInvoice(paid)) => told matches Some(event) && event.details matches
            NwcEvent::PayInvoiceHandled { success, preimage, fees_sat, error } && success
            && preimage.deep_view() == Some(paid.preimage@) && fees_sat == optional_sats(
            paid.fees_paid,
        ) && error is None,
        Ok(ResponseResult::ListTransactions(_)) => told matches Some(event) && event.details
            is ListTransactionsHandled,
        Ok(ResponseResult::GetBalance(_)) => told matches Some(event) && event.details
            is GetBalanceHandled,
        Err(e) => if e.code == ErrorCode::PaymentFailed {
            told matches Some(event) && event.details matches NwcEvent::PayInvoiceHandled {
                success,
                preimage,
                fees_sat,
                error,
            } && !success && preimage is None && fees_sat is None && error.deep_view() == Some(
                e.message@,
            )
        } else {
            told is None
        },
    }
}

/// Which events a relay is asked to pass on: those of the given kinds that bear a tag for one of
/// the given keys.
pub struct KeyTagFilter {
    /// The keys, each once.
    pub public_keys: Vec<String>,
    pub kinds: Vec<u16>,
}

/// The keys that the connection strings of the clients name.
pub open spec fn named_keys(clients: Seq<ClientView>) -> Seq<Seq<char>> {
    clients.map_values(|client: ClientView| client.uri.public_key)
}

/// Whether an event counts no more at the given time.
pub open spec fn expired(event: EventView, now: u64) -> bool {
    tags_expiration(event.tags) matches Some(time) && time < now
}

/// What an event asks the service for at the given time: it is passed over once it has expired;
/// it is decrypted with the wallet's secret key and its author's public key, and answered to its
/// author.
pub open spec fn plugin_request(event: EventView, keys: Keys, now: u64) -> Result<
    PendingView,
    Ignored,
> {
    if expired(event, now) {
        Err(Ignored::Expired)
    } else {
        request_in(event, keys.secret(), event.pubkey, event.pubkey)
    }
}

/// How far the service has come.
#[derive(Clone, Copy, Debug, PartialEq, Eq, Structural)]
pub enum Phase {
    /// It waits for the connection to the relays.
    Connecting,
    /// It tells the wallet's listeners that it is connected.
    Telling,
    /// It says what the wallet can do.
    Announcing,
    /// It loads its clients.
    Loading,
    /// It subscribes to what its clients write.
    Subscribing,
    /// It serves its clients.
    Serving,
    /// It has ended.
    Stopped,
}

/// What happens to the service.
#[derive(Clone, Copy, Debug, PartialEq, Eq, Structural)]
pub enum Happening {
    /// The relays are connected.
    Connected,
    /// The listeners have been told.
    Told,
    /// It was said what the wallet can do, or that has failed.
    Announced,
    /// The clients are loaded.
    Loaded,
    /// The clients cannot be loaded.
    LoadFailed,
    /// The subscription is made.
    Subscribed,
    /// The subscription cannot be made.
    SubscribeFailed,
    /// A payment of the wallet has succeeded.
    PaymentSucceeded,
    /// A relay has passed something on.
    RelayNotification,
    /// A connection string has come or gone.
    ConnectionsChanged,
    /// An event was served or a payment was forwarded.
    Done,
    /// The service is asked to end.
    Stop,
}

/// What the service does next.
#[derive(Clone, Copy, Debug, PartialEq, Eq, Structural)]
pub enum Task {
    /// Tell the listeners that the service is connected.
    TellConnected,
    /// Say what the wallet can do.
    Announce,
    /// Load the clients; from now on the service wants to know when connection strings change.
    LoadClients,
    /// Subscribe to what the clients write.
    Subscribe,
    /// Wait for the next happening.
    Wait,
    /// Tell the clients of the payment.
    ForwardPayment,
    /// Serve the event that the relay has passed on.
    HandleEvent,
    /// End, without touching the connection.
    End,
    /// End, tell the listeners that the service is disconnected, and disconnect from the relays.
    Disconnect,
}

/// Where a happening leads: through connecting, telling, announcing, loading and subscribing to
/// serving, in this order; back to loading when a connection string has come or gone; to the end
/// where the clients cannot be loaded or the subscription cannot be made; and from wherever it
/// stands to the disconnection when the service is asked to end. What does not belong to a phase is
/// passed over.
pub open spec fn next_phase(phase: Phase, happening: Happening) -> (Phase, Task) {
    match (phase, happening) {
        (_, Happening::Stop) => (Phase::Stopped, Task::Disconnect),
        (Phase::Stopped, _) => (Phase::Stopped, Task::End),
        (Phase::Connecting, Happening::Connected) => (Phase::Telling, Task::TellConnected),
        (Phase::Telling, Happening::Told) => (Phase::Announcing, Task::Announce),
        (Phase::Announcing, Happening::Announced) => (Phase::Loading, Task::LoadClients),
        (Phase::Loading, Happening::Loaded) => (Phase::Subscribing, Task::Subscribe),
        (Phase::Loading, Happening::LoadFailed) => (Phase::Stopped, Task::End),
        (Phase::Subscribing, Happening::Subscribed) => (Phase::Serving, Task::Wait),
        (Phase::Subscribing, Happening::SubscribeFailed) => (Phase::Stopped, Task::End),
        (Phase::Serving, Happening::PaymentSucceeded) => (Phase::Serving, Task::ForwardPayment),
        (Phase::Serving, Happening::RelayNotification) => (Phase::Serving, Task::HandleEvent),
        (Phase::Serving, Happening::ConnectionsChanged) => (Phase::Loading, Task::LoadClients),
        _ => (phase, Task::Wait),
    }
}

/// Says what the service does next.
pub fn step(phase: Phase, happening: Happening) -> (r: (Phase, Task))
    ensures
        r == next_phase(phase, happening),
{
    if happening == Happening::Stop {
        return (Phase::Stopped, Task::Disconnect);
    }
    match phase {
        Phase::Stopped => (Phase::Stopped, Task::End),
        Phase::Connecting => match happening {
            Happening::Connected => (Phase::Telling, Task::TellConnected),
            _ => (phase, Task::Wait),
        },
        Phase::Telling => match happening {
            Happening::Told => (Phase::Announcing, Task::Announce),
            _ => (phase, Task::Wait),
        },
        Phase::Announcing => match happening {
            Happening::Announced => (Phase::Loading, Task::LoadClients),
            _ => (phase, Task::Wait),
        },
        Phase::Loading => match happening {
            Happening::Loaded => (Phase::Subscribing, Task::Subscribe),
            Happening::LoadFailed => (Phase::Stopped, Task::End),
            _ => (phase, Task::Wait),
        },
        Phase::Subscribing => match happening {
            Happening::Subscribed => (Phase::Serving, Task::Wait),
            Happening::SubscribeFailed => (Phase::Stopped, Task::End),
            _ => (phase, Task::Wait),
        },
        Phase::Serving => match happening {
            Happening::PaymentSucceeded => (Phase::Serving, Task::ForwardPayment),
            Happening::RelayNotification => (Phase::Serving, Task::HandleEvent),
            Happening::ConnectionsChanged => (Phase::Loading, Task::LoadClients),
            _ => (phase, Task::Wait),
        },
    }
}

/// A service that hands out connection strings.
pub trait NwcService {
    /// The connection strings that are kept, by their names.
    spec fn connections(&self) -> Map<Seq<char>, Seq<char>>;

    /// Makes a connection string and keeps it under a name.
    fn add_connection_string(&mut self, name: String) -> (r: String)
        ensures
            final(self).connections() == old(self).connections().insert(name@, r@),
    ;

    /// Lists the connection strings that are kept.
    fn list_connection_strings(&self) -> (r: Vec<(String, String)>)
        ensures
            entries_map(r@) == self.connections(),
            names_distinct(r@),
    ;

    /// Removes the connection string under a name. Fails where there is none.
    fn remove_connection_string(&mut self, name: &str) -> (r: Result<(), UnsetConnection>)
        ensures
            r is Ok == old(self).connections().dom().contains(name@),
            final(self).connections() == old(self).connections().remove(name@),
    ;
}

/// How many changes of the connection strings wait for the running service after one that it wants
/// to know of, or does not; as many as can be counted.
pub open spec fn changes_after(changes: u64, wanted: bool) -> int {
    if wanted && changes < u64::MAX {
        changes + 1
    } else {
        changes as int
    }
}

/// The wallet service as a plugin.
pub struct SdkNwcService {
    keys: Keys,
    relays: Vec<String>,
    connections: Directory,
    listening: bool,
    changes: u64,
}

impl NwcService for SdkNwcService {
    closed spec fn connections(&self) -> Map<Seq<char>, Seq<char>> {
        self.connections@
    }

    fn add_connection_string(&mut self, name: String) -> (r: String)
        ensures
            final(self).keys() == old(self).keys(),
            final(self).relays() == old(self).relays(),
            final(self).listening() == old(self).listening(),
            final(self).changes() == changes_after(old(self).changes(), old(self).listening()),
            connects(r@, old(self).keys().public(), old(self).relays()),
    {
        let draft = self.draft_connection_string();
        let text = draft.as_str().to_owned();
        self.keep_connection_string(name, draft);
        text
    }

    fn list_connection_strings(&self) -> (r: Vec<(String, String)>) {
        self.connections.list()
    }

    fn remove_connection_string(&mut self, name: &str) -> (r: Result<(), UnsetConnection>)
        ensures
            final(self).keys() == old(self).keys(),
            final(self).relays() == old(self).relays(),
            final(self).listening() == old(self).listening(),
            final(self).changes() == changes_after(
                old(self).changes(),
                r is Ok && old(self).listening(),
            ),
    {
        match self.connections.remove(name) {
            Some(_) => {
                self.trigger_resubscription();
                Ok(())
            },
            None => Err(UnsetConnection),
        }
    }
}

impl SdkNwcService {
    /// The keys of the wallet.
    pub closed spec fn keys(&self) -> Keys {
        self.keys
    }

    /// The relays on which the wallet meets its clients.
    pub closed spec fn relays(&self) -> Seq<Seq<char>> {
        self.relays.deep_view()
    }

    /// Whether the running service wants to know when connection strings change.
    pub closed spec fn listening(&self) -> bool {
        self.listening
    }

    /// How many changes of the connection strings the running service has not taken notice of.
    pub closed spec fn changes(&self) -> u64 {
        self.changes
    }

    /// A service with the given secret key, relays and connection strings, which does not run yet.
    pub fn new(secret_key: &str, relays: Vec<String>, uris: &Vec<(String, String)>) -> (r: Option<
        SdkNwcService,
    >)
        ensures
            match r {
                Some(service) => {
                    &&& nostr_key_pair(secret_key@) == Some(
                        (service.keys().secret(), service.keys().public()),
                    )
                    &&& service.relays() == relays.deep_view()
                    &&& service.connections() == entries_map(uris@)
                    &&& !service.listening()
                    &&& service.changes() == 0
                },
                None => nostr_key_pair(secret_key@) is None,
            },
    {
        match Keys::parse(secret_key) {
            Some(keys) => Some(
                SdkNwcService {
                    keys,
                    relays,
                    connections: Directory::from_entries(uris),
                    listening: false,
                    changes: 0,
                },
            ),
            None => None,
        }
    }

    /// Lets the running service know that connection strings have changed, where there is one.
    pub fn trigger_resubscription(&mut self)
        ensures
            final(self).changes() == changes_after(old(self).changes(), old(self).listening()),
            final(self).listening() == old(self).listening(),
            final(self).keys() == old(self).keys(),
            final(self).relays() == old(self).relays(),
            final(self).connections() == old(self).connections(),
    {
        if self.listening && self.changes < u64::MAX {
            self.changes = self.changes + 1;
        }
    }

    /// Makes a connection string, which is not kept yet.
    pub fn draft_connection_string(&self) -> (r: ConnectionDraft)
        ensures
            r.public_key() == self.keys().public(),
            r.relays() == self.relays(),
            connects(r.text(), self.keys().public(), self.relays()),
    {
        ConnectionDraft::new(&self.keys, &self.relays)
    }

    /// Keeps a connection string under a name, and lets the running service know.
    pub fn keep_connection_string(&mut self, name: String, draft: ConnectionDraft)
        ensures
            final(self).connections() == old(self).connections().insert(name@, draft.text()),
            final(self).changes() == changes_after(old(self).changes(), old(self).listening()),
            final(self).listening() == old(self).listening(),
            final(self).keys() == old(self).keys(),
            final(self).relays() == old(self).relays(),
    {
        self.connections.set(name, draft.as_str().to_owned());
        self.trigger_resubscription();
    }

    /// Whether a connection string is kept under a name.
    pub fn is_set(&self, name: &str) -> (r: bool)
        ensures
            r == self.connections().dom().contains(name@),
    {
        self.connections.get(name).is_some()
    }

    /// Takes over the connection strings of the database in place of those that are kept.
    pub fn load_connections(&mut self, uris: &Vec<(String, String)>)
        ensures
            final(self).connections() == entries_map(uris@),
            final(self).changes() == old(self).changes(),
            final(self).listening() == old(self).listening(),
            final(self).keys() == old(self).keys(),
            final(self).relays() == old(self).relays(),
    {
        self.connections = Directory::from_entries(uris);
    }

    /// The running service wants to know from now on when connection strings change.
    pub fn listen(&mut self)
        ensures
            final(self).listening(),
            final(self).changes() == old(self).changes(),
            final(self).keys() == old(self).keys(),
            final(self).relays() == old(self).relays(),
            final(self).connections() == old(self).connections(),
    {
        self.listening = true;
    }

    /// Whether there is a change of the connection strings, of which notice is taken herewith.
    pub fn take_change(&mut self) -> (r: bool)
        ensures
            r == (old(self).changes() > 0),
            final(self).changes() == if r {
                old(self).changes() - 1
            } else {
                0
            },
            final(self).listening() == old(self).listening(),
            final(self).keys() == old(self).keys(),
            final(self).relays() == old(self).relays(),
            final(self).connections() == old(self).connections(),
    {
        if self.changes > 0 {
            self.changes = self.changes - 1;
            true
        } else {
            false
        }
    }

    /// The name of the plugin.
    pub fn id(&self) -> (r: String)
        ensures
            r@ == "nwc"@,
    {
        "nwc".to_owned()
    }

    /// What the listeners are told once the service is connected.
    pub fn on_start(&self) -> (r: SdkEvent)
        ensures
            r.details is ConnectedHandled,
            r.event_id@ == "service_start"@,
    {
        SdkEvent { details: NwcEvent::ConnectedHandled, event_id: "service_start".to_owned() }
    }

    /// Ends the interest in changes, and says what the listeners are told once the service has
    /// ended.
    pub fn on_stop(&mut self) -> (r: SdkEvent)
        ensures
            r.details is DisconnectedHandled,
            r.event_id@ == "service_stop"@,
            !final(self).listening(),
            final(self).changes() == 0,
            final(self).keys() == old(self).keys(),
            final(self).relays() == old(self).relays(),
            final(self).connections() == old(self).connections(),
    {
        self.listening = false;
        self.changes = 0;
        SdkEvent { details: NwcEvent::DisconnectedHandled, event_id: "service_stop".to_owned() }
    }

    /// Which events the relays are asked to pass on: requests that bear a tag for one of the keys
    /// that the connection strings of the clients name.
    pub fn resubscribe(&self, clients: &Vec<Client>) -> (r: KeyTagFilter)
        ensures
            r.public_keys.deep_view().to_set() == named_keys(clients.deep_view()).to_set(),
            r.public_keys.deep_view().no_duplicates(),
            r.kinds@ == seq![KIND_REQUEST],
    {
        let mut public_keys: Vec<String> = Vec::new();
        let ghost named = named_keys(clients.deep_view());
        for i in 0..clients.len()
            invariant
                named == named_keys(clients.deep_view()),
                public_keys.deep_view().no_duplicates(),
                forall|key: Seq<char>| #[trigger]
                    public_keys.deep_view().contains(key) <==> named.take(i as int).contains(key),
        {
            let uri = clients[i].uri();
            let ghost key = uri@.public_key;
            let ghost before = public_keys.deep_view();
            assert(named.take(i + 1) =~= named.take(i as int).push(key));
            let known = lists_text(&public_keys, uri.public_key.as_str());
            if !known {
                public_keys.push(uri.public_key.clone());
                assert(public_keys.deep_view() =~= before.push(key));
            }
            assert forall|k: Seq<char>| #[trigger]
                public_keys.deep_view().contains(k) <==> named.take(i + 1).contains(k) by {
                lemma_push_contains(before, key, k);
                lemma_push_contains(named.take(i as int), key, k);
            }
        }
        assert(named.take(named.len() as int) =~= named);
        assert(public_keys.deep_view().to_set() =~= named.to_set());
        let kinds: Vec<u16> = vec![KIND_REQUEST];
        assert(kinds@ =~= seq![KIND_REQUEST]);
        KeyTagFilter { public_keys, kinds }
    }

    /// The event in which the wallet says what it can do and how it encrypts.
    pub fn info_event(&self) -> (r: Event)
        ensures
            r@.pubkey == self.keys().public(),
            r@.kind == KIND_INFO,
            r@.content == info_text(),
            r@.tags == seq![seq!["encryption"@, "nip44_v2"@]],
            event_authentic(r@),
    {
        let content = info_content();
        let tag: Vec<String> = vec!["encryption".to_owned(), "nip44_v2".to_owned()];
        assert(tag.deep_view() =~= seq!["encryption"@, "nip44_v2"@]);
        let tags: Vec<Vec<String>> = vec![tag];
        let ghost written = seq![seq!["encryption"@, "nip44_v2"@]];
        assert(tags.deep_view() =~= written);
        proof {
            reveal_strlit("encryption");
            reveal(Seq::filter);
            assert("encryption"@.len() != seq!['p'].len());
            assert(written.drop_last() =~= Seq::<Seq<Seq<char>>>::empty());
            assert(kept_tags(written, self.keys().public()) =~= written);
        }
        Event::signed(&self.keys, KIND_INFO, content.as_str(), &tags)
    }

    /// Reads what an event asks for at the given time, or says why it is left unanswered.
    pub fn handle_event_at(&self, event: &Event, now: u64) -> (r: Result<PendingRequest, Ignored>)
        ensures
            outcome_is(r, plugin_request(event@, self.keys(), now)),
    {
        if let Some(time) = event.expiration() {
            if time < now {
                return Err(Ignored::Expired);
            }
        }
        read_request(event, self.keys.secret_key(), event.pubkey.as_str(), event.pubkey.as_str())
    }

    /// Reads what an event asks for by the clock of the machine, or says why it is left unanswered.
    pub fn handle_event(&self, event: &Event) -> (r: Result<PendingRequest, Ignored>)
        ensures
            exists|now: u64| outcome_is(r, #[trigger] plugin_request(event@, self.keys(), now)),
    {
        let time = now();
        self.handle_event_at(event, time)
    }

    /// Says what the wallet's listeners are told of a reply to the event with the given id.
    pub fn handle_local_notification(
        &self,
        reply: &Result<ResponseResult, Nip47Error>,
        event_id: &str,
    ) -> (r: Option<SdkEvent>)
        ensures
            listeners_told(r, *reply, event_id@),
    {
        let details = match reply {
            Ok(ResponseResult::PayInvoice(paid)) => NwcEvent::PayInvoiceHandled {
                success: true,
                preimage: Some(paid.preimage.clone()),
                fees_sat: to_sats(paid.fees_paid),
                error: None,
            },
            Ok(ResponseResult::ListTransactions(_)) => NwcEvent::ListTransactionsHandled,
            Ok(ResponseResult::GetBalance(_)) => NwcEvent::GetBalanceHandled,
            Err(error) => {
                if error.code != ErrorCode::PaymentFailed {
                    return None;
                }
                NwcEvent::PayInvoiceHandled {
                    success: false,
                    preimage: None,
                    fees_sat: None,
                    error: Some(error.message.clone()),
                }
            },
        };
        Some(SdkEvent { details, event_id: event_id.to_owned() })
    }

    /// Writes the answer to a request. There is none where the reply cannot be encrypted.
    pub fn respond(
        &self,
        pending: &PendingRequest,
        reply: &Result<ResponseResult, Nip47Error>,
    ) -> (r: Option<Event>)
        requires
            answers(call_method(pending@.call), *reply),
        ensures
            r is Some == nip44_accepts(
                self.keys().secret(),
                pending@.client_key,
                response_json(call_method(pending@.call), *reply),
            ),
            are_keys(self.keys().secret(), pending@.client_key) ==> r is Some == message_fits(
                response_json(call_method(pending@.call), *reply),
            ),
            r matches Some(event) ==> carries(
                event@,
                self.keys(),
                pending@.client_key,
                KIND_RESPONSE,
                response_tags(pending@),
                response_json(call_method(pending@.call), *reply),
            ),
    {
        answer(&self.keys, pending, reply)
    }

    /// Writes the events that tell the clients of a payment: one for each client for whom the
    /// notification can be encrypted with its own key. Of a payment that was not made over
    /// lightning nobody is told.
    pub fn forward_payment_to_clients(&self, payment: &Payment, clients: &Vec<Client>) -> (r: Vec<
        Event,
    >)
        requires
            payment.details is Lightning ==> tells_in_msats(*payment),
        ensures
            match told_of(*payment) {
                Some(told) => {
                    let message = notification_json(
                        payment.payment_type == PaymentType::Send,
                        told,
                    );
                    events_tell(
                        r@,
                        self.keys(),
                        told_clients(
                            self.keys(),
                            clients.deep_view(),
                            Addressee::Client,
                            message,
                        ),
                        Addressee::Client,
                        message,
                    )
                },
                None => r@.len() == 0,
            },
    {
        match payment_notification(payment) {
            Some(notification) => {
                let message = notification.to_json();
                notify_clients(&self.keys, clients, Addressee::Client, message.as_str())
            },
            None => Vec::new(),
        }
    }
}

proof fn lemma_push_contains(list: Seq<Seq<char>>, last: Seq<char>, key: Seq<char>)
    ensures
        list.push(last).contains(key) <==> list.contains(key) || last == key,
{
    if list.push(last).contains(key) {
        let i = choose|i: int| 0 <= i < list.push(last).len() && list.push(last)[i] == key;
        if i < list.len() {
            assert(list[i] == key);
        }
    }
    if list.contains(key) {
        let i = choose|i: int| 0 <= i < list.len() && list[i] == key;
        assert(list.push(last)[i] == key);
    }
    if last == key {
        assert(list.push(last)[list.len() as int] == key);
    }
}

} // verus!
