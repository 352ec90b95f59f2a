use breez_nwc::event::{Event, KIND_NOTIFICATION, KIND_REQUEST};
use breez_nwc::exchange::{list_clients, Client, HandlerCall, Ignored, PendingRequest};
use breez_nwc::keys::Keys;
use breez_nwc::model::{Payment, PaymentDetails, PaymentType};
use breez_nwc::nip47::{ErrorCode, Nip47Error};
use breez_nwc::plugin;
use breez_nwc::plugin::{NwcService, SdkNwcService};
use breez_nwc::response::{GetBalanceResponse, PayInvoiceResponse, ResponseResult};
use breez_nwc::service;
use breez_nwc::service::{BreezNWCService, NWCService, UnsetConnection};
use breez_nwc::uri::{connection_string, WalletConnectUri};

const WALLET: &str = "7f7ff03d123792d6ac594bfa67bf6d0c0ab55b6b1fdb6249303fe861f1ccba9a";
const CLIENT: &str = "0000000000000000000000000000000000000000000000000000000000000003";
const STRANGER: &str = "0000000000000000000000000000000000000000000000000000000000000005";

fn relays() -> Vec<String> {
    vec!["wss://relay.example.com".to_string()]
}

fn core_service() -> BreezNWCService {
    BreezNWCService::new(WALLET, relays(), &Vec::new()).unwrap()
}

/// A new connection string of the core, with its subscription.
fn connect(service: &mut BreezNWCService, name: &str, subscription: &str) -> String {
    let draft = service.draft_connection_string();
    service.new_connection_string(name.to_string(), draft, Ok(subscription.to_string())).unwrap()
}

fn sdk() -> SdkNwcService {
    SdkNwcService::new(WALLET, relays(), &Vec::new()).unwrap()
}

fn public(secret: &str) -> String {
    Keys::parse(secret).unwrap().public_key().to_string()
}

fn client() -> Client {
    let text = connection_string(&public(WALLET), &relays(), CLIENT).unwrap();
    Client::parse("app", &text).unwrap()
}

/// An event of one key's holder for another's, as the `nostr` crate itself would write it.
fn outside_event(author: &str, reader: &str, message: &str, tags: Vec<nostr::Tag>) -> Event {
    let author = nostr::Keys::parse(author).unwrap();
    let reader = nostr::Keys::parse(reader).unwrap();
    let content = nostr::nips::nip44::encrypt(
        author.secret_key(),
        &reader.public_key(),
        message,
        nostr::nips::nip44::Version::V2,
    )
    .unwrap();
    let event = nostr::EventBuilder::new(nostr::Kind::WalletConnectRequest, content)
        .tags(tags)
        .sign_with_keys(&author)
        .unwrap();
    Event {
        id: event.id.to_hex(),
        pubkey: event.pubkey.to_hex(),
        created_at: event.created_at.as_u64(),
        kind: event.kind.as_u16(),
        tags: event.tags.to_vec().into_iter().map(|tag| tag.to_vec()).collect(),
        content: event.content,
        sig: event.sig.to_string(),
    }
}

/// What the holder of a secret key reads in an event, with the `nostr` crate itself.
fn outside_read(secret: &str, event: &Event) -> Option<String> {
    let secret = nostr::SecretKey::from_hex(secret).unwrap();
    let author = nostr::PublicKey::from_hex(&event.pubkey).unwrap();
    nostr::nips::nip44::decrypt(&secret, &author, &event.content).ok()
}

fn refused(r: Result<PendingRequest, Ignored>) -> Ignored {
    match r {
        Ok(_) => panic!("the event should be left unanswered"),
        Err(ignored) => ignored,
    }
}

fn lightning() -> Payment {
    Payment {
        payment_type: PaymentType::Receive,
        amount_sat: 21,
        fees_sat: 0,
        timestamp: 1700000000,
        details: PaymentDetails::Lightning {
            invoice: None,
            description: "tea".to_string(),
            preimage: None,
            payment_hash: None,
        },
    }
}

fn paid() -> Result<ResponseResult, Nip47Error> {
    Ok(ResponseResult::PayInvoice(PayInvoiceResponse {
        preimage: "pre".to_string(),
        fees_paid: Some(3999),
    }))
}

fn balance() -> Result<ResponseResult, Nip47Error> {
    Ok(ResponseResult::GetBalance(GetBalanceResponse { balance: 5000 }))
}

fn failed(code: ErrorCode) -> Result<ResponseResult, Nip47Error> {
    Err(Nip47Error { code, message: "no route".to_string() })
}

const GET_BALANCE: &str = "{\"method\":\"get_balance\",\"params\":{}}";

#[test]
fn services_need_a_secret_key() {
    assert!(BreezNWCService::new("no key", relays(), &Vec::new()).is_none());
    assert!(SdkNwcService::new("no key", relays(), &Vec::new()).is_none());
}

#[test]
fn core_connections_come_and_go() {
    let mut service = core_service();
    let removal = service.remove_connection_string("app");
    assert_eq!(removal.outcome, Err(UnsetConnection));
    assert_eq!(removal.subscription, None);
    let text = connect(&mut service, "app", "sub1");
    let other = connect(&mut service, "other", "sub2");
    assert_ne!(text, other);
    let uri = WalletConnectUri::parse(&text).unwrap();
    assert_eq!(uri.public_key, public(WALLET));
    assert_eq!(uri.relays, relays());
    let mut list = service.list_connection_strings();
    list.sort();
    assert_eq!(list, vec![("app".to_string(), text), ("other".to_string(), other.clone())]);
    let removal = service.remove_connection_string("app");
    assert_eq!(removal.outcome, Ok(()));
    assert_eq!(removal.subscription.as_deref(), Some("sub1"));
    let removal = service.remove_connection_string("app");
    assert_eq!(removal.outcome, Err(UnsetConnection));
    assert_eq!(removal.subscription, None);
    assert_eq!(service.list_connection_strings(), vec![("other".to_string(), other)]);
    assert_eq!(service.remove_connection_string("other").subscription.as_deref(), Some("sub2"));
}

#[test]
fn core_keeps_a_string_without_a_subscription() {
    let mut service = core_service();
    connect(&mut service, "app", "sub1");
    let draft = service.draft_connection_string();
    let text = draft.as_str().to_string();
    let refused = service.new_connection_string("app".to_string(), draft, Err("no relay".to_string()));
    assert_eq!(refused, Err("no relay".to_string()));
    assert_eq!(service.list_connection_strings(), vec![("app".to_string(), text)]);
    assert_eq!(service.remove_connection_string("app").subscription.as_deref(), Some("sub1"));
}

#[test]
fn core_forgets_the_subscription_of_an_unset_string() {
    let mut service = core_service();
    connect(&mut service, "app", "sub1");
    service.load_connections(&Vec::new());
    let removal = service.remove_connection_string("app");
    assert_eq!(removal.outcome, Err(UnsetConnection));
    assert_eq!(removal.subscription.as_deref(), Some("sub1"));
    assert_eq!(service.remove_connection_string("app").subscription, None);
}

#[test]
fn core_loads_connections_from_the_session_before() {
    let mut service = core_service();
    let text = connect(&mut service, "app", "sub1");
    let kept = service.list_connection_strings();
    let again = BreezNWCService::new(WALLET, relays(), &kept).unwrap();
    assert_eq!(again.list_connection_strings(), vec![("app".to_string(), text)]);
}

#[test]
fn core_subscribes_for_each_connection() {
    let mut service = core_service();
    assert_eq!(service.public_key(), public(WALLET));
    let filter = service.subscription_filter(&client().uri().public_key);
    assert_eq!(filter.authors, vec![public(WALLET)]);
    assert_eq!(filter.kinds, vec![23194]);
    service.subscribed("app".to_string(), "sub1".to_string());
    assert_eq!(service.remove_connection_string("other").subscription, None);
    assert_eq!(service.remove_connection_string("app").subscription.as_deref(), Some("sub1"));
    assert_eq!(service.remove_connection_string("app").subscription, None);
}

#[test]
fn core_subscribes_to_loaded_clients() {
    let mut before = core_service();
    let text = connect(&mut before, "app", "sub1");
    let named = connection_string(&public(STRANGER), &relays(), CLIENT).unwrap();
    let kept = vec![
        ("app".to_string(), text),
        ("broken".to_string(), "nonsense".to_string()),
        ("other".to_string(), named),
    ];
    let filters = core_service().subscription_filters(&list_clients(&kept));
    assert_eq!(filters.len(), 2);
    assert_eq!(filters[0].0, "app");
    assert_eq!(filters[0].1.authors, vec![public(WALLET)]);
    assert_eq!(filters[0].1.kinds, vec![23194]);
    assert_eq!(filters[1].0, "other");
    assert_eq!(filters[1].1.authors, vec![public(STRANGER)]);
}

#[test]
fn strings_are_drafted_kept_and_loaded() {
    let mut service = core_service();
    let draft = service.draft_connection_string();
    assert!(WalletConnectUri::parse(draft.as_str()).is_some());
    assert!(service.list_connection_strings().is_empty());
    connect(&mut service, "app", "sub1");
    let mut again = sdk();
    again.listen();
    again.load_connections(&service.list_connection_strings());
    assert!(again.is_set("app"));
    assert!(!again.is_set("other"));
    assert!(!again.take_change());
    let draft = again.draft_connection_string();
    assert!(!again.take_change());
    again.keep_connection_string("other".to_string(), draft);
    assert!(again.take_change());
    assert!(again.is_set("other"));
    service.load_connections(&Vec::new());
    assert!(service.list_connection_strings().is_empty());
}

#[test]
fn clients_are_those_whose_strings_can_be_read() {
    let text = connection_string(&public(WALLET), &relays(), CLIENT).unwrap();
    let uris = vec![
        ("one".to_string(), text.clone()),
        ("broken".to_string(), "nonsense".to_string()),
        ("two".to_string(), text),
    ];
    let clients = list_clients(&uris);
    let names: Vec<&str> = clients.iter().map(|client| client.name()).collect();
    assert_eq!(names, vec!["one", "two"]);
    assert_eq!(clients[0].uri().secret, CLIENT);
    assert_eq!(clients[0].keys().public_key(), public(CLIENT));
}

#[test]
fn core_serves_the_key_that_a_connection_names() {
    let service = core_service();
    let clients = vec![client()];
    let event = outside_event(WALLET, CLIENT, GET_BALANCE, Vec::new());
    let pending = service.handle_event(&event, &clients).ok().unwrap();
    assert_eq!(pending.event_id, event.id);
    assert_eq!(pending.client_key, public(WALLET));
    assert!(matches!(pending.call, HandlerCall::GetBalance));
}

#[test]
fn core_ignores_other_authors() {
    let service = core_service();
    let event = outside_event(STRANGER, WALLET, GET_BALANCE, Vec::new());
    assert_eq!(refused(service.handle_event(&event, &vec![client()])), Ignored::UnknownClient);
    let event = outside_event(WALLET, CLIENT, GET_BALANCE, Vec::new());
    assert_eq!(refused(service.handle_event(&event, &Vec::new())), Ignored::UnknownClient);
}

#[test]
fn core_ignores_forged_and_foreign_content() {
    let service = core_service();
    let clients = vec![client()];
    let mut event = outside_event(WALLET, CLIENT, GET_BALANCE, Vec::new());
    event.created_at += 1;
    assert_eq!(refused(service.handle_event(&event, &clients)), Ignored::InvalidSignature);
    let event = outside_event(WALLET, STRANGER, GET_BALANCE, Vec::new());
    assert_eq!(refused(service.handle_event(&event, &clients)), Ignored::Undecryptable);
    let event = outside_event(WALLET, CLIENT, "hello", Vec::new());
    assert_eq!(refused(service.handle_event(&event, &clients)), Ignored::Unreadable);
    let event = outside_event(WALLET, CLIENT, "{\"method\":\"get_info\"}", Vec::new());
    assert_eq!(refused(service.handle_event(&event, &clients)), Ignored::Unhandled);
}

#[test]
fn plugin_answers_a_client() {
    let service = sdk();
    let event = outside_event(CLIENT, WALLET, GET_BALANCE, Vec::new());
    let pending = service.handle_event(&event).ok().unwrap();
    assert_eq!(pending.event_id, event.id);
    assert_eq!(pending.client_key, public(CLIENT));
    let answer = service.respond(&pending, &balance()).unwrap();
    assert!(answer.verify());
    assert_eq!(answer.pubkey, public(WALLET));
    assert_eq!(answer.kind, 23195);
    assert_eq!(
        answer.tags,
        vec![
            vec!["e".to_string(), event.id.clone()],
            vec!["p".to_string(), public(CLIENT)],
        ]
    );
    assert_eq!(
        outside_read(CLIENT, &answer).as_deref(),
        Some("{\"result_type\":\"get_balance\",\"error\":null,\"result\":{\"balance\":5000}}")
    );
    assert_eq!(outside_read(STRANGER, &answer), None);
}

#[test]
fn plugin_answers_with_errors() {
    let service = sdk();
    let text = "{\"method\":\"pay_invoice\",\"params\":{\"invoice\":\"lnbc1\"}}";
    let event = outside_event(CLIENT, WALLET, text, Vec::new());
    let pending = service.handle_event(&event).ok().unwrap();
    match &pending.call {
        HandlerCall::PayInvoice(request) => assert_eq!(request.invoice, "lnbc1"),
        _ => panic!("a payment was asked for"),
    }
    let answer = service.respond(&pending, &failed(ErrorCode::PaymentFailed)).unwrap();
    assert_eq!(
        outside_read(CLIENT, &answer).as_deref(),
        Some("{\"result_type\":\"pay_invoice\",\"error\":{\"code\":\"PAYMENT_FAILED\",\"message\":\"no route\"},\"result\":null}")
    );
}

#[test]
fn plugin_does_not_answer_what_does_not_fit() {
    let service = sdk();
    let event = outside_event(CLIENT, WALLET, GET_BALANCE, Vec::new());
    let pending = service.handle_event(&event).ok().unwrap();
    let reply = Err(Nip47Error { code: ErrorCode::Other, message: "x".repeat(70000) });
    assert!(service.respond(&pending, &reply).is_none());
}

#[test]
fn plugin_ignores_expired_events() {
    let service = sdk();
    let tag = nostr::Tag::expiration(nostr::Timestamp::from_secs(1000));
    let event = outside_event(CLIENT, WALLET, GET_BALANCE, vec![tag]);
    assert!(service.handle_event_at(&event, 999).is_ok());
    assert!(service.handle_event_at(&event, 1000).is_ok());
    assert_eq!(refused(service.handle_event_at(&event, 1001)), Ignored::Expired);
    assert_eq!(refused(service.handle_event(&event)), Ignored::Expired);
    let tag = nostr::Tag::expiration(nostr::Timestamp::from_secs(u64::MAX));
    let event = outside_event(CLIENT, WALLET, GET_BALANCE, vec![tag]);
    assert!(service.handle_event(&event).is_ok());
}

#[test]
fn plugin_ignores_forged_and_foreign_content() {
    let service = sdk();
    let mut event = outside_event(CLIENT, WALLET, GET_BALANCE, Vec::new());
    event.id = "00".repeat(32);
    assert_eq!(refused(service.handle_event(&event)), Ignored::InvalidSignature);
    let event = outside_event(CLIENT, STRANGER, GET_BALANCE, Vec::new());
    assert_eq!(refused(service.handle_event(&event)), Ignored::Undecryptable);
    let event = outside_event(CLIENT, WALLET, "[]", Vec::new());
    assert_eq!(refused(service.handle_event(&event)), Ignored::Unreadable);
    let event = outside_event(CLIENT, WALLET, "{\"method\":\"get_info\"}", Vec::new());
    assert_eq!(refused(service.handle_event(&event)), Ignored::Unhandled);
}

#[test]
fn plugin_signals_changes_while_it_listens() {
    let mut service = sdk();
    service.add_connection_string("early".to_string());
    assert!(!service.take_change());
    service.listen();
    let text = service.add_connection_string("app".to_string());
    assert!(WalletConnectUri::parse(&text).is_some());
    assert!(service.take_change());
    assert!(!service.take_change());
    assert_eq!(service.remove_connection_string("nobody"), Err(UnsetConnection));
    assert!(!service.take_change());
    assert_eq!(service.remove_connection_string("app"), Ok(()));
    assert!(service.take_change());
    assert_eq!(service.list_connection_strings().len(), 1);
    service.add_connection_string("one".to_string());
    service.add_connection_string("two".to_string());
    assert!(service.take_change());
    assert!(service.take_change());
    assert!(!service.take_change());
    service.add_connection_string("three".to_string());
    let event = service.on_stop();
    assert!(!service.take_change());
    assert!(matches!(event.details, plugin::NwcEvent::DisconnectedHandled));
    assert_eq!(event.event_id, "service_stop");
    service.add_connection_string("late".to_string());
    assert!(!service.take_change());
}

#[test]
fn plugin_subscribes_to_each_key_once() {
    let service = sdk();
    let other = connection_string(&public(STRANGER), &relays(), CLIENT).unwrap();
    let clients = vec![client(), Client::parse("other", &other).unwrap(), client()];
    let filter = service.resubscribe(&clients);
    assert_eq!(filter.public_keys, vec![public(WALLET), public(STRANGER)]);
    assert_eq!(filter.kinds, vec![KIND_REQUEST]);
    assert!(service.resubscribe(&Vec::new()).public_keys.is_empty());
}

#[test]
fn wallet_says_what_it_can_do() {
    let event = core_service().info_event();
    assert_eq!(event.kind, 13194);
    assert_eq!(event.content, "pay_invoice list_transactions get_balancenotifications");
    assert!(event.tags.is_empty());
    assert!(event.verify());
    let event = sdk().info_event();
    assert_eq!(event.tags, vec![vec!["encryption".to_string(), "nip44_v2".to_string()]]);
    assert_eq!(event.pubkey, public(WALLET));
    assert!(event.verify());
    assert_eq!(sdk().id(), "nwc");
    assert_eq!(sdk().on_start().event_id, "service_start");
    assert!(matches!(sdk().on_start().details, plugin::NwcEvent::ConnectedHandled));
}

#[test]
fn core_listeners_are_told_of_replies() {
    let service = core_service();
    match service.handle_local_notification(&paid()) {
        Some(service::NwcEvent::PayInvoice { success, preimage, fees_sat, error }) => {
            assert!(success);
            assert_eq!(preimage.as_deref(), Some("pre"));
            assert_eq!(fees_sat, Some(3));
            assert_eq!(error, None);
        }
        _ => panic!("the payment succeeded"),
    }
    match service.handle_local_notification(&failed(ErrorCode::PaymentFailed)) {
        Some(service::NwcEvent::PayInvoice { success, preimage, fees_sat, error }) => {
            assert!(!success);
            assert_eq!(preimage, None);
            assert_eq!(fees_sat, None);
            assert_eq!(error.as_deref(), Some("no route"));
        }
        _ => panic!("the payment failed"),
    }
    assert!(service.handle_local_notification(&failed(ErrorCode::Internal)).is_none());
    let event = service.handle_local_notification(&balance());
    assert!(matches!(event, Some(service::NwcEvent::GetBalance)));
    let listed = Ok(ResponseResult::ListTransactions(Vec::new()));
    let event = service.handle_local_notification(&listed);
    assert!(matches!(event, Some(service::NwcEvent::ListTransactions)));
}

#[test]
fn plugin_listeners_are_told_of_replies() {
    let service = sdk();
    let event = service.handle_local_notification(&paid(), "id1").unwrap();
    assert_eq!(event.event_id, "id1");
    match event.details {
        plugin::NwcEvent::PayInvoiceHandled { success, preimage, fees_sat, error } => {
            assert!(success);
            assert_eq!(preimage.as_deref(), Some("pre"));
            assert_eq!(fees_sat, Some(3));
            assert_eq!(error, None);
        }
        _ => panic!("the payment succeeded"),
    }
    let event = service.handle_local_notification(&failed(ErrorCode::PaymentFailed), "id2").unwrap();
    match event.details {
        plugin::NwcEvent::PayInvoiceHandled { success, error, .. } => {
            assert!(!success);
            assert_eq!(error.as_deref(), Some("no route"));
        }
        _ => panic!("the payment failed"),
    }
    assert!(service.handle_local_notification(&failed(ErrorCode::NotFound), "id3").is_none());
    let event = service.handle_local_notification(&balance(), "id4").unwrap();
    assert!(matches!(event.details, plugin::NwcEvent::GetBalanceHandled));
    let listed = Ok(ResponseResult::ListTransactions(Vec::new()));
    let event = service.handle_local_notification(&listed, "id5").unwrap();
    assert!(matches!(event.details, plugin::NwcEvent::ListTransactionsHandled));
    assert_eq!(event.event_id, "id5");
}

#[test]
fn plugin_notifies_clients_with_their_own_keys() {
    let service = sdk();
    let events = service.forward_payment_to_clients(&lightning(), &vec![client()]);
    assert_eq!(events.len(), 1);
    assert_eq!(events[0].kind, KIND_NOTIFICATION);
    assert!(events[0].verify());
    assert_eq!(
        outside_read(CLIENT, &events[0]).as_deref(),
        Some("{\"notification_type\":\"payment_received\",\"notification\":{\"type\":\"incoming\",\"invoice\":\"\",\"description\":\"tea\",\"preimage\":\"\",\"payment_hash\":\"\",\"amount\":21000,\"fees_paid\":0,\"created_at\":1700000000,\"settled_at\":1700000000}}")
    );
    let mut other = lightning();
    other.details = PaymentDetails::Other;
    assert!(service.forward_payment_to_clients(&other, &vec![client()]).is_empty());
}

#[test]
fn core_notifies_the_named_keys() {
    let service = core_service();
    let named = connection_string(&public(STRANGER), &relays(), CLIENT).unwrap();
    let clients = vec![client(), Client::parse("other", &named).unwrap()];
    let events = service.forward_payment_to_relays(&lightning(), &clients);
    assert_eq!(events.len(), 2);
    assert!(outside_read(WALLET, &events[0]).is_some());
    assert!(outside_read(STRANGER, &events[1]).is_some());
    assert!(outside_read(CLIENT, &events[1]).is_none());
    assert!(events[0].tags.is_empty());
    assert_eq!(events[1].tags, vec![vec!["p".to_string(), public(STRANGER)]]);
    let mut long = lightning();
    long.details = PaymentDetails::Lightning {
        invoice: None,
        description: "x".repeat(70000),
        preimage: None,
        payment_hash: None,
    };
    assert!(service.forward_payment_to_relays(&long, &clients).is_empty());
}

#[test]
fn core_goes_through_its_phases() {
    use_core_steps(
        &[
            service::Happening::RelayNotification,
            service::Happening::Connected,
            service::Happening::Announced,
            service::Happening::PaymentSucceeded,
            service::Happening::Loaded,
            service::Happening::RelayNotification,
            service::Happening::Subscribed,
            service::Happening::PaymentSucceeded,
            service::Happening::Done,
            service::Happening::RelayNotification,
            service::Happening::Shutdown,
            service::Happening::RelayNotification,
        ],
        &[
            service::Task::Wait,
            service::Task::Announce,
            service::Task::LoadClients,
            service::Task::Wait,
            service::Task::Subscribe,
            service::Task::Wait,
            service::Task::Wait,
            service::Task::ForwardPayment,
            service::Task::Wait,
            service::Task::HandleEvent,
            service::Task::Disconnect,
            service::Task::End,
        ],
    );
    use_core_steps(
        &[
            service::Happening::Connected,
            service::Happening::Announced,
            service::Happening::LoadFailed,
            service::Happening::Loaded,
        ],
        &[
            service::Task::Announce,
            service::Task::LoadClients,
            service::Task::End,
            service::Task::End,
        ],
    );
    use_core_steps(
        &[
            service::Happening::Connected,
            service::Happening::Announced,
            service::Happening::Loaded,
            service::Happening::SubscribeFailed,
            service::Happening::RelayNotification,
        ],
        &[
            service::Task::Announce,
            service::Task::LoadClients,
            service::Task::Subscribe,
            service::Task::End,
            service::Task::End,
        ],
    );
}

fn use_core_steps(happenings: &[service::Happening], tasks: &[service::Task]) {
    let mut phase = service::Phase::Connecting;
    for i in 0..happenings.len() {
        let (next, task) = service::step(phase, happenings[i]);
        assert_eq!(task, tasks[i]);
        phase = next;
    }
}

#[test]
fn plugin_goes_through_its_phases() {
    let happenings = [
        plugin::Happening::Connected,
        plugin::Happening::Told,
        plugin::Happening::Announced,
        plugin::Happening::RelayNotification,
        plugin::Happening::Loaded,
        plugin::Happening::Subscribed,
        plugin::Happening::RelayNotification,
        plugin::Happening::Done,
        plugin::Happening::PaymentSucceeded,
        plugin::Happening::ConnectionsChanged,
        plugin::Happening::Loaded,
        plugin::Happening::SubscribeFailed,
        plugin::Happening::RelayNotification,
        plugin::Happening::Stop,
    ];
    let tasks = [
        plugin::Task::TellConnected,
        plugin::Task::Announce,
        plugin::Task::LoadClients,
        plugin::Task::Wait,
        plugin::Task::Subscribe,
        plugin::Task::Wait,
        plugin::Task::HandleEvent,
        plugin::Task::Wait,
        plugin::Task::ForwardPayment,
        plugin::Task::LoadClients,
        plugin::Task::Subscribe,
        plugin::Task::End,
        plugin::Task::End,
        plugin::Task::Disconnect,
    ];
    let mut phase = plugin::Phase::Connecting;
    for i in 0..happenings.len() {
        let (next, task) = plugin::step(phase, happenings[i]);
        assert_eq!(task, tasks[i]);
        phase = next;
    }
    let (phase, task) = plugin::step(plugin::Phase::Loading, plugin::Happening::LoadFailed);
    assert_eq!(phase, plugin::Phase::Stopped);
    assert_eq!(task, plugin::Task::End);
}
