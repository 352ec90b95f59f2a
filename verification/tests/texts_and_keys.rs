use breez_nwc::cipher::{decrypt, encrypt};
use breez_nwc::directory::Directory;
use breez_nwc::event::{event_tag, key_tag, now, Event, KIND_RESPONSE};
use breez_nwc::exchange::{get_or_create_secret_key, info_content, SecretKeyChoice};
use breez_nwc::keys::Keys;
use breez_nwc::random::generate_random_string;
use breez_nwc::text::{joined, lists_text, or_empty, same_text};
use breez_nwc::uri::{connection_string, usable_relays, ConnectionDraft, WalletConnectUri};

const SECRET: &str = "7f7ff03d123792d6ac594bfa67bf6d0c0ab55b6b1fdb6249303fe861f1ccba9a";
const PUBLIC: &str = "17162c921dc4d2518f9a101db33695df1afb56ab82f5ff3e5da6eec3ca5cd917";
const OTHER_SECRET: &str = "0000000000000000000000000000000000000000000000000000000000000003";

fn strings(list: &[&str]) -> Vec<String> {
    list.iter().map(|s| s.to_string()).collect()
}

#[test]
fn texts_are_compared_and_joined() {
    assert!(same_text("abc", "abc"));
    assert!(!same_text("abc", "abd"));
    assert_eq!(joined("ab", "cd"), "abcd");
    assert_eq!(or_empty(&Some("x".to_string())), "x");
    assert_eq!(or_empty(&None), "");
    assert!(lists_text(&strings(&["a", "b"]), "b"));
    assert!(!lists_text(&strings(&["a", "b"]), "c"));
}

#[test]
fn keys_are_read_from_hexadecimal_and_bech32() {
    let keys = Keys::parse(SECRET).unwrap();
    assert_eq!(keys.secret_key(), SECRET);
    assert_eq!(keys.public_key(), PUBLIC);
    let bech32 = "nsec10allq0gjx7fddtzef0ax00mdps9t2kmtrldkyjfs8l5xruwvh2dq0lhhkp";
    let same = Keys::parse(bech32).unwrap();
    assert_eq!(same.secret_key(), SECRET);
    assert_eq!(same.public_key(), PUBLIC);
}

#[test]
fn keys_refuse_other_texts() {
    assert!(Keys::parse("").is_none());
    assert!(Keys::parse("not a key").is_none());
    let zero = "0".repeat(64);
    assert!(Keys::parse(&zero).is_none());
}

#[test]
fn message_is_read_by_its_addressee() {
    let wallet = Keys::parse(SECRET).unwrap();
    let client = Keys::parse(OTHER_SECRET).unwrap();
    let payload = encrypt(wallet.secret_key(), client.public_key(), "hello").unwrap();
    assert_ne!(payload, "hello");
    let read = decrypt(client.secret_key(), wallet.public_key(), &payload);
    assert_eq!(read.as_deref(), Some("hello"));
    assert!(decrypt(OTHER_SECRET, client.public_key(), &payload).is_none());
}

#[test]
fn message_must_fit() {
    let wallet = Keys::parse(SECRET).unwrap();
    let client = Keys::parse(OTHER_SECRET).unwrap();
    assert!(encrypt(wallet.secret_key(), client.public_key(), "").is_none());
    let longest = "x".repeat(65408);
    assert!(encrypt(wallet.secret_key(), client.public_key(), &longest).is_some());
    let too_long = "x".repeat(65409);
    assert!(encrypt(wallet.secret_key(), client.public_key(), &too_long).is_none());
    assert!(encrypt(wallet.secret_key(), "no key", "hello").is_none());
}

#[test]
fn payload_must_be_whole() {
    let wallet = Keys::parse(SECRET).unwrap();
    let client = Keys::parse(OTHER_SECRET).unwrap();
    assert!(decrypt(wallet.secret_key(), client.public_key(), "").is_none());
    assert!(decrypt(wallet.secret_key(), client.public_key(), "hello").is_none());
    let empty = "A".repeat(88);
    assert!(decrypt(wallet.secret_key(), client.public_key(), &empty).is_none());
}

#[test]
fn signed_event_is_genuine_until_touched() {
    let wallet = Keys::parse(SECRET).unwrap();
    let client = Keys::parse(OTHER_SECRET).unwrap();
    let id = "ab".repeat(32);
    let tags = vec![event_tag(&id), key_tag(client.public_key())];
    let mut event = Event::signed(&wallet, KIND_RESPONSE, "content", &tags);
    assert_eq!(event.pubkey, PUBLIC);
    assert_eq!(event.kind, 23195);
    assert_eq!(event.content, "content");
    assert_eq!(event.tags, tags);
    assert!(event.verify());
    event.content = "other".to_string();
    assert!(!event.verify());
}

#[test]
fn signed_event_drops_a_tag_for_its_author() {
    let wallet = Keys::parse(SECRET).unwrap();
    let tags = vec![key_tag(PUBLIC)];
    let event = Event::signed(&wallet, KIND_RESPONSE, "content", &tags);
    assert!(event.tags.is_empty());
    assert!(event.verify());
}

#[test]
fn expiration_is_found_in_the_tags() {
    let wallet = Keys::parse(SECRET).unwrap();
    let tags = vec![strings(&["expiration", "1600000000"])];
    let event = Event::signed(&wallet, KIND_RESPONSE, "content", &tags);
    assert_eq!(event.expiration(), Some(1600000000));
    let event = Event::signed(&wallet, KIND_RESPONSE, "content", &Vec::new());
    assert_eq!(event.expiration(), None);
    assert!(now() > 1600000000);
}

#[test]
fn connection_string_says_what_was_put_in() {
    let relays = strings(&["wss://relay.example.com/", "not a relay", "ws://127.0.0.1:7777"]);
    assert_eq!(usable_relays(&relays), strings(&["wss://relay.example.com/", "ws://127.0.0.1:7777"]));
    let text = connection_string(PUBLIC, &relays, OTHER_SECRET).unwrap();
    assert_eq!(
        text,
        format!(
            "nostr+walletconnect://{PUBLIC}?secret={OTHER_SECRET}&relay=wss%3A%2F%2Frelay.example.com&relay=ws%3A%2F%2F127.0.0.1%3A7777"
        )
    );
    let uri = WalletConnectUri::parse(&text).unwrap();
    assert_eq!(uri.public_key, PUBLIC);
    assert_eq!(uri.secret, OTHER_SECRET);
    assert_eq!(uri.relays, strings(&["wss://relay.example.com", "ws://127.0.0.1:7777"]));
    assert_eq!(uri.lud16, None);
}

#[test]
fn connection_string_without_relays_is_not_read() {
    let text = connection_string(PUBLIC, &strings(&["https://example.com"]), OTHER_SECRET).unwrap();
    assert!(WalletConnectUri::parse(&text).is_none());
    assert!(connection_string("no key", &Vec::new(), OTHER_SECRET).is_none());
}

#[test]
fn connection_string_with_an_unstable_relay_is_not_read() {
    let relays = strings(&["ws:/\\example.com/http://a"]);
    assert_eq!(usable_relays(&relays), relays);
    let text = connection_string(PUBLIC, &relays, OTHER_SECRET).unwrap();
    assert!(WalletConnectUri::parse(&text).is_none());
}

#[test]
fn connection_string_keeps_a_lightning_address() {
    let text = format!(
        "nostr+walletconnect://{PUBLIC}?relay=wss%3A%2F%2Frelay.example.com&secret={OTHER_SECRET}&lud16=a%40b.c"
    );
    let uri = WalletConnectUri::parse(&text).unwrap();
    assert_eq!(uri.lud16.as_deref(), Some("a@b.c"));
    assert!(WalletConnectUri::parse("nostr+walletconnect://").is_none());
    assert!(WalletConnectUri::parse("").is_none());
}

#[test]
fn new_connections_hand_out_new_keys() {
    let wallet = Keys::parse(SECRET).unwrap();
    let relays = strings(&["wss://relay.example.com"]);
    let one = WalletConnectUri::parse(ConnectionDraft::new(&wallet, &relays).as_str()).unwrap();
    let two = WalletConnectUri::parse(ConnectionDraft::new(&wallet, &relays).as_str()).unwrap();
    assert_eq!(one.public_key, PUBLIC);
    assert_eq!(one.relays, relays);
    assert_ne!(one.secret, two.secret);
    assert!(Keys::parse(&one.secret).is_some());
}

#[test]
fn secret_key_is_the_configured_the_stored_or_a_new_one() {
    let configured = Some("configured".to_string());
    let stored = Ok(Some("stored".to_string()));
    match get_or_create_secret_key(&configured, &stored) {
        SecretKeyChoice::Known(key) => assert_eq!(key, "configured"),
        SecretKeyChoice::Fresh(_) => panic!("the configured key counts"),
    }
    match get_or_create_secret_key(&None, &stored) {
        SecretKeyChoice::Known(key) => assert_eq!(key, "stored"),
        SecretKeyChoice::Fresh(_) => panic!("the stored key counts"),
    }
    let fresh = match get_or_create_secret_key(&None, &Ok(None)) {
        SecretKeyChoice::Known(_) => panic!("no key is known"),
        SecretKeyChoice::Fresh(key) => key,
    };
    assert!(Keys::parse(&fresh).is_some());
    match get_or_create_secret_key(&None, &Ok(Some(fresh.clone()))) {
        SecretKeyChoice::Known(key) => assert_eq!(key, fresh),
        SecretKeyChoice::Fresh(_) => panic!("the key of the session before counts"),
    }
    let broken = Err("no database".to_string());
    assert!(matches!(get_or_create_secret_key(&None, &broken), SecretKeyChoice::Fresh(_)));
}

#[test]
fn info_names_the_methods() {
    assert_eq!(info_content(), "pay_invoice list_transactions get_balancenotifications");
}

#[test]
fn directory_keeps_one_text_by_name() {
    let mut directory = Directory::new();
    assert!(directory.list().is_empty());
    directory.set("a".to_string(), "1".to_string());
    directory.set("b".to_string(), "2".to_string());
    directory.set("a".to_string(), "3".to_string());
    assert_eq!(directory.get("a").as_deref(), Some("3"));
    assert_eq!(directory.get("c"), None);
    let mut list = directory.list();
    list.sort();
    assert_eq!(
        list,
        vec![("a".to_string(), "3".to_string()), ("b".to_string(), "2".to_string())]
    );
    assert_eq!(directory.remove("a").as_deref(), Some("3"));
    assert_eq!(directory.remove("a"), None);
    assert_eq!(directory.list().len(), 1);
    let again = Directory::from_entries(&list);
    assert_eq!(again.get("b").as_deref(), Some("2"));
}

#[test]
fn random_text_has_the_size_and_the_characters() {
    assert_eq!(generate_random_string(0), "");
    let text = generate_random_string(40);
    assert_eq!(text.len(), 40);
    assert!(text.chars().all(|c| c.is_ascii_alphanumeric()));
    assert_ne!(text, generate_random_string(40));
}
