//! What the two wallet services share: their clients, the reading of a request, the writing of an
//! encrypted event.
use crate::cipher::{
    are_keys, decrypt, decrypts_to, encrypt, message_fits, nip44_accepts, plaintext,
};
use crate::event::{
    event_authentic, event_tag, event_tag_view, kept_tags, key_tag, key_tag_view, Event,
    EventView, KIND_NOTIFICATION, KIND_RESPONSE,
};
use crate::keys::{generate_secret_hex, is_key_pair, nostr_key_pair, Keys};
use crate::nip47::{
    parsed_request, ListTransactionsRequest, Method, Nip47Error, PayInvoiceRequest,
    PayInvoiceView, Request, RequestView,
};
use crate::response::{answers, response_json, write_response, ResponseResult};
use crate::text::key_hex;
use crate::uri::{parsed_uri, UriView, WalletConnectUri};
use vstd::prelude::*;

verus! {

/// A client of the wallet: the name under which its connection string is kept, and what that
/// string says.
pub struct Client {
    name: String,
    uri: WalletConnectUri,
}

/// The mathematical content of a [`Client`].
pub struct ClientView {
    pub name: Seq<char>,
    pub uri: UriView,
}

impl View for Client {
    type V = ClientView;

    closed spec fn view(&self) -> ClientView {
        ClientView { name: self.name@, uri: self.uri@ }
    }
}

impl DeepView for Client {
    type V = ClientView;

    open spec fn deep_view(&self) -> ClientView {
        self@
    }
}

/// Whether the connection string of a client holds a wallet's key and a client's secret key.
pub open spec fn client_keys(client: ClientView) -> bool {
    &&& key_hex(client.uri.public_key)
    &&& nostr_key_pair(client.uri.secret) matches Some(pair)
    &&& is_key_pair(client.uri.secret, pair.1)
}

/// The public key that belongs to a client's secret key.
pub open spec fn client_public(client: ClientView) -> Seq<char> {
    match nostr_key_pair(client.uri.secret) {
        Some(pair) => pair.1,
        None => Seq::empty(),
    }
}

impl Client {
    #[verifier::type_invariant]
    spec fn well_formed(self) -> bool {
        client_keys(self@)
    }

    /// Reads a client out of the name and the text of a connection string.
    pub fn parse(name: &str, uri: &str) -> (r: Option<Client>)
        ensures
            match r {
                Some(client) => {
                    &&& parsed_uri(uri@) == Some(client@.uri)
                    &&& client@.name == name@
                },
                None => parsed_uri(uri@) is None,
            },
    {
        match WalletConnectUri::parse(uri) {
            Some(uri) => Some(Client { name: name.to_owned(), uri }),
            None => None,
        }
    }

    /// The name under which the connection string is kept.
    pub fn name(&self) -> (r: &str)
        ensures
            r@ == self@.name,
    {
        self.name.as_str()
    }

    /// What the connection string says.
    pub fn uri(&self) -> (r: &WalletConnectUri)
        ensures
            r@ == self@.uri,
            client_keys(self@),
    {
        proof {
            use_type_invariant(self);
        }
        &self.uri
    }

    /// The keys of the client.
    pub fn keys(&self) -> (r: Keys)
        ensures
            r.secret() == self@.uri.secret,
            r.public() == client_public(self@),
            client_keys(self@),
    {
        proof {
            use_type_invariant(self);
        }
        Keys::parse(self.uri.secret.as_str()).unwrap()
    }
}

/// The clients in a list of names and connection strings: those whose string can be read, in their
/// order.
pub open spec fn active_clients(uris: Seq<(String, String)>) -> Seq<ClientView>
    decreases uris.len(),
{
    if uris.len() == 0 {
        Seq::empty()
    } else {
        let front = active_clients(uris.drop_last());
        match parsed_uri(uris.last().1@) {
            Some(uri) => front.push(ClientView { name: uris.last().0@, uri }),
            None => front,
        }
    }
}

/// Reads the clients out of the names and connection strings that are kept, and leaves out each
/// string that cannot be read.
pub fn list_clients(uris: &Vec<(String, String)>) -> (r: Vec<Client>)
    ensures
        r.deep_view() == active_clients(uris@),
{
    let mut clients: Vec<Client> = Vec::new();
    assert(uris@.take(0) =~= Seq::<(String, String)>::empty());
    assert(clients.deep_view() =~= Seq::<ClientView>::empty());
    for i in 0..uris.len()
        invariant
            clients.deep_view() == active_clients(uris@.take(i as int)),
    {
        assert(uris@.take(i + 1).drop_last() =~= uris@.take(i as int));
        let ghost before = clients.deep_view();
        match Client::parse(uris[i].0.as_str(), uris[i].1.as_str()) {
            Some(client) => {
                let ghost seen = client@;
                clients.push(client);
                assert(clients.deep_view() =~= before.push(seen));
            },
            None => {},
        }
    }
    assert(uris@.take(uris@.len() as int) =~= uris@);
    clients
}

/// What a request asks the wallet to do.
pub enum HandlerCall {
    PayInvoice(PayInvoiceRequest),
    ListTransactions(ListTransactionsRequest),
    GetBalance,
}

/// The mathematical content of a [`HandlerCall`].
pub enum CallView {
    PayInvoice(PayInvoiceView),
    ListTransactions(ListTransactionsRequest),
    GetBalance,
}

impl View for HandlerCall {
    type V = CallView;

    open spec fn view(&self) -> CallView {
        match self {
            HandlerCall::PayInvoice(request) => CallView::PayInvoice(request@),
            HandlerCall::ListTransactions(request) => CallView::ListTransactions(*request),
            HandlerCall::GetBalance => CallView::GetBalance,
        }
    }
}

/// The method that is called.
pub open spec fn call_method(call: CallView) -> Method {
    match call {
        CallView::PayInvoice(_) => Method::PayInvoice,
        CallView::ListTransactions(_) => Method::ListTransactions,
        CallView::GetBalance => Method::GetBalance,
    }
}

impl HandlerCall {
    /// The method that is called.
    pub fn method(&self) -> (r: Method)
        ensures
            r == call_method(self@),
    {
        match self {
            HandlerCall::PayInvoice(_) => Method::PayInvoice,
            HandlerCall::ListTransactions(_) => Method::ListTransactions,
            HandlerCall::GetBalance => Method::GetBalance,
        }
    }
}

/// Why an event is left unanswered.
#[derive(Clone, Copy, Debug, PartialEq, Eq, Structural)]
pub enum Ignored {
    /// It comes from none of the wallet's clients.
    UnknownClient,
    /// It has expired.
    Expired,
    /// Its id or its signature is wrong.
    InvalidSignature,
    /// Its content cannot be decrypted.
    Undecryptable,
    /// Its content is not a request.
    Unreadable,
    /// Its content is a request that the wallet does not serve.
    Unhandled,
}

/// A request that waits for the wallet.
pub struct PendingRequest {
    /// The event that made the request.
    pub event_id: String,
    /// The public key for which the answer is encrypted.
    pub client_key: String,
    /// What the wallet is asked to do.
    pub call: HandlerCall,
}

/// The mathematical content of a [`PendingRequest`].
pub struct PendingView {
    pub event_id: Seq<char>,
    pub client_key: Seq<char>,
    pub call: CallView,
}

impl View for PendingRequest {
    type V = PendingView;

    open spec fn view(&self) -> PendingView {
        PendingView { event_id: self.event_id@, client_key: self.client_key@, call: self.call@ }
    }
}

/// What a decrypted text asks the wallet to do.
pub open spec fn call_in(text: Seq<char>) -> Result<CallView, Ignored> {
    match parsed_request(text) {
        Some(RequestView::PayInvoice(request)) => Ok(CallView::PayInvoice(request)),
        Some(RequestView::ListTransactions(request)) => Ok(CallView::ListTransactions(request)),
        Some(RequestView::GetBalance) => Ok(CallView::GetBalance),
        Some(_) => Err(Ignored::Unhandled),
        None => Err(Ignored::Unreadable),
    }
}

/// What an event with the given id asks for, once its author is known to be served: its signature
/// counts first, then its content, which is decrypted with `secret_key` and `public_key`; the
/// answer goes to `client_key`.
pub open spec fn request_in(
    event: EventView,
    secret_key: Seq<char>,
    public_key: Seq<char>,
    client_key: Seq<char>,
) -> Result<PendingView, Ignored> {
    if !event_authentic(event) {
        Err(Ignored::InvalidSignature)
    } else {
        match plaintext(secret_key, public_key, event.content) {
            Some(text) => match call_in(text) {
                Ok(call) => Ok(PendingView { event_id: event.id, client_key, call }),
                Err(ignored) => Err(ignored),
            },
            None => Err(Ignored::Undecryptable),
        }
    }
}

/// Whether the outcome of reading an event is the given one.
pub open spec fn outcome_is(
    r: Result<PendingRequest, Ignored>,
    expected: Result<PendingView, Ignored>,
) -> bool {
    match r {
        Ok(pending) => expected == Ok::<PendingView, Ignored>(pending@),
        Err(ignored) => expected == Err::<PendingView, Ignored>(ignored),
    }
}

/// Reads the request out of a decrypted text.
pub fn read_call(text: &str) -> (r: Result<HandlerCall, Ignored>)
    ensures
        match r {
            Ok(call) => call_in(text@) == Ok::<CallView, Ignored>(call@),
            Err(ignored) => call_in(text@) == Err::<CallView, Ignored>(ignored),
        },
{
    match Request::parse(text) {
        Some(Request::PayInvoice(request)) => Ok(HandlerCall::PayInvoice(request)),
        Some(Request::ListTransactions(request)) => Ok(HandlerCall::ListTransactions(request)),
        Some(Request::GetBalance) => Ok(HandlerCall::GetBalance),
        Some(_) => Err(Ignored::Unhandled),
        None => Err(Ignored::Unreadable),
    }
}

/// Checks, decrypts and reads an event, whose answer goes to `client_key`.
pub fn read_request(event: &Event, secret_key: &str, public_key: &str, client_key: &str) -> (r:
    Result<PendingRequest, Ignored>)
    ensures
        outcome_is(r, request_in(event@, secret_key@, public_key@, client_key@)),
{
    if !event.verify() {
        return Err(Ignored::InvalidSignature);
    }
    match decrypt(secret_key, public_key, event.content.as_str()) {
        Some(text) => match read_call(text.as_str()) {
            Ok(call) => Ok(
                PendingRequest {
                    event_id: event.id.clone(),
                    client_key: client_key.to_owned(),
                    call,
                },
            ),
            Err(ignored) => Err(ignored),
        },
        None => Err(Ignored::Undecryptable),
    }
}

/// Whether an event is one that the holder of the keys wrote and signed, of the given kind and
/// with the given tags but for one that names its author, in which the holder of the secret key
/// behind `reader` reads the message.
pub open spec fn carries(
    event: EventView,
    keys: Keys,
    reader: Seq<char>,
    kind: u16,
    tags: Seq<Seq<Seq<char>>>,
    message: Seq<char>,
) -> bool {
    &&& event.pubkey == keys.public()
    &&& event.kind == kind
    &&& event.tags == kept_tags(tags, keys.public())
    &&& event_authentic(event)
    &&& decrypts_to(keys.secret(), reader, event.content, message)
}

/// Encrypts a message for a reader and signs the event that carries it. There is none where the
/// message cannot be encrypted.
pub fn encrypted_event(
    keys: &Keys,
    reader: &str,
    kind: u16,
    tags: &Vec<Vec<String>>,
    message: &str,
) -> (r: Option<Event>)
    requires
        forall|i: int| 0 <= i < tags@.len() ==> #[trigger] tags@[i]@.len() > 0,
    ensures
        r is Some == nip44_accepts(keys.secret(), reader@, message@),
        are_keys(keys.secret(), reader@) ==> r is Some == message_fits(message@),
        r matches Some(event) ==> carries(
            event@,
            *keys,
            reader@,
            kind,
            tags.deep_view(),
            message@,
        ),
{
    match encrypt(keys.secret_key(), reader, message) {
        Some(content) => Some(Event::signed(keys, kind, content.as_str(), tags)),
        None => None,
    }
}

/// The tags of an answer: it points to the event that asked and to the key it is for.
pub open spec fn response_tags(pending: PendingView) -> Seq<Seq<Seq<char>>> {
    seq![event_tag_view(pending.event_id), key_tag_view(pending.client_key)]
}

/// Writes the answer to a request: an event that points to the one that asked, in which the client
/// reads the reply. There is none where the reply cannot be encrypted.
pub fn answer(
    keys: &Keys,
    pending: &PendingRequest,
    reply: &Result<ResponseResult, Nip47Error>,
) -> (r: Option<Event>)
    requires
        answers(call_method(pending@.call), *reply),
    ensures
        r is Some == nip44_accepts(
            keys.secret(),
            pending@.client_key,
            response_json(call_method(pending@.call), *reply),
        ),
        are_keys(keys.secret(), pending@.client_key) ==> r is Some == message_fits(
            response_json(call_method(pending@.call), *reply),
        ),
        r matches Some(event) ==> carries(
            event@,
            *keys,
            pending@.client_key,
            KIND_RESPONSE,
            response_tags(pending@),
            response_json(call_method(pending@.call), *reply),
        ),
{
    let content = write_response(pending.call.method(), reply);
    let tags: Vec<Vec<String>> = vec![
        event_tag(pending.event_id.as_str()),
        key_tag(pending.client_key.as_str()),
    ];
    assert(tags.deep_view() =~= response_tags(pending@));
    encrypted_event(keys, pending.client_key.as_str(), KIND_RESPONSE, &tags, content.as_str())
}

/// For whom a notification is encrypted.
#[derive(Clone, Copy, Debug, PartialEq, Eq, Structural)]
pub enum Addressee {
    /// The holder of the key that the connection string names.
    NamedKey,
    /// The holder of the secret key that the connection string hands out.
    Client,
}

/// The public key for which a notification to a client is encrypted.
pub open spec fn reader_key(client: ClientView, addressee: Addressee) -> Seq<char> {
    match addressee {
        Addressee::NamedKey => client.uri.public_key,
        Addressee::Client => client_public(client),
    }
}

/// The clients who are told a message: those for whom it can be encrypted, in their order.
pub open spec fn told_clients(
    keys: Keys,
    clients: Seq<ClientView>,
    addressee: Addressee,
    message: Seq<char>,
) -> Seq<ClientView> {
    clients.filter(
        |client: ClientView| nip44_accepts(keys.secret(), reader_key(client, addressee), message),
    )
}

/// Whether the events tell the clients the message, each client by one event.
pub open spec fn events_tell(
    events: Seq<Event>,
    keys: Keys,
    clients: Seq<ClientView>,
    addressee: Addressee,
    message: Seq<char>,
) -> bool {
    &&& events.len() == clients.len()
    &&& forall|i: int|
        0 <= i < events.len() ==> carries(
            (#[trigger] events[i])@,
            keys,
            reader_key(clients[i], addressee),
            KIND_NOTIFICATION,
            seq![key_tag_view(clients[i].uri.public_key)],
            message,
        )
}

/// Writes the events that tell a message to the clients, and passes over each client for whom it
/// cannot be encrypted.
pub fn notify_clients(
    keys: &Keys,
    clients: &Vec<Client>,
    addressee: Addressee,
    message: &str,
) -> (r: Vec<Event>)
    ensures
        events_tell(
            r@,
            *keys,
            told_clients(*keys, clients.deep_view(), addressee, message@),
            addressee,
            message@,
        ),
{
    let mut events: Vec<Event> = Vec::new();
    let ghost all = clients.deep_view();
    let ghost accepts = |client: ClientView|
        nip44_accepts(keys.secret(), reader_key(client, addressee), message@);
    proof {
        reveal(Seq::filter);
        assert(all.take(0) =~= Seq::<ClientView>::empty());
    }
    for i in 0..clients.len()
        invariant
            all == clients.deep_view(),
            accepts == (|client: ClientView|
                nip44_accepts(keys.secret(), reader_key(client, addressee), message@)),
            events_tell(events@, *keys, all.take(i as int).filter(accepts), addressee, message@),
    {
        let client = &clients[i];
        let ghost told = all.take(i as int).filter(accepts);
        proof {
            reveal(Seq::filter);
            assert(all.take(i + 1).drop_last() =~= all.take(i as int));
            assert(all.take(i + 1).last() == client@);
        }
        let tags: Vec<Vec<String>> = vec![key_tag(client.uri().public_key.as_str())];
        assert(tags.deep_view() =~= seq![key_tag_view(client@.uri.public_key)]);
        let written = match addressee {
            Addressee::NamedKey => encrypted_event(
                keys,
                client.uri().public_key.as_str(),
                KIND_NOTIFICATION,
                &tags,
                message,
            ),
            Addressee::Client => {
                let reader = client.keys();
                encrypted_event(keys, reader.public_key(), KIND_NOTIFICATION, &tags, message)
            },
        };
        match written {
            Some(event) => {
                let ghost before = events@;
                events.push(event);
                assert forall|j: int| 0 <= j < events@.len() implies carries(
                    (#[trigger] events@[j])@,
                    *keys,
                    reader_key(told.push(client@)[j], addressee),
                    KIND_NOTIFICATION,
                    seq![key_tag_view(told.push(client@)[j].uri.public_key)],
                    message@,
                ) by {
                    if j < before.len() {
                        assert(events@[j] == before[j]);
                    }
                }
            },
            None => {},
        }
    }
    assert(all.take(clients@.len() as int) =~= all);
    events
}

/// What the wallet says it can do: the methods it serves, and that it notifies.
pub open spec fn info_text() -> Seq<char> {
    Method::PayInvoice.name() + " "@ + Method::ListTransactions.name() + " "@
        + Method::GetBalance.name() + "notifications"@
}

/// Writes what the wallet says it can do.
pub fn info_content() -> (r: String)
    ensures
        r@ == info_text(),
{
    let mut content = Method::PayInvoice.as_str().to_owned();
    content.append(" ");
    content.append(Method::ListTransactions.as_str());
    content.append(" ");
    content.append(Method::GetBalance.as_str());
    content.append("notifications");
    content
}

/// The secret key of the wallet, and whether it has to be stored for the next session.
pub enum SecretKeyChoice {
    /// A key that was configured or stored before.
    Known(String),
    /// A key that was made just now and has to be stored.
    Fresh(String),
}

/// The key that is known: the configured one before the stored one. `None` where neither is there
/// or the stored one cannot be read.
pub open spec fn known_key(
    configured: Option<String>,
    stored: Result<Option<String>, String>,
) -> Option<Seq<char>> {
    match configured {
        Some(key) => Some(key@),
        None => match stored {
            Ok(Some(key)) => Some(key@),
            _ => None,
        },
    }
}

/// Chooses the wallet's secret key: the configured one, else the stored one, else a new one.
pub fn get_or_create_secret_key(
    configured: &Option<String>,
    stored: &Result<Option<String>, String>,
) -> (r: SecretKeyChoice)
    ensures
        match r {
            SecretKeyChoice::Known(key) => known_key(*configured, *stored) == Some(key@),
            SecretKeyChoice::Fresh(key) => known_key(*configured, *stored) is None && (
            nostr_key_pair(key@) matches Some(pair) && is_key_pair(key@, pair.1)),
        },
{
    if let Some(key) = configured {
        return SecretKeyChoice::Known(key.clone());
    }
    if let Ok(Some(key)) = stored {
        return SecretKeyChoice::Known(key.clone());
    }
    SecretKeyChoice::Fresh(generate_secret_hex())
}

} // verus!
