//! The encryption of what a client and the wallet say to each other.
use crate::keys::is_key_pair;
use vstd::prelude::*;
use vstd::string::StrSliceExecFns;
use vstd::utf8::encode_utf8;

verus! {

/// The message that `nostr::nips::nip44::decrypt` finds in a payload, for the reader's secret key
/// and the writer's public key, or `None` where it refuses.
pub uninterp spec fn nip44_plaintext(
    secret_key: Seq<char>,
    public_key: Seq<char>,
    payload: Seq<char>,
) -> Option<Seq<char>>;

/// Whether `nostr::nips::nip44::encrypt` derives a key for a conversation from a secret key and a
/// public key.
pub uninterp spec fn conversation_possible(secret_key: Seq<char>, public_key: Seq<char>) -> bool;

/// The number of bytes in the longest message that is encrypted.
pub const MAX_MESSAGE_LEN: usize = 65408;

/// Whether a message is neither empty nor too long to be encrypted.
pub open spec fn message_fits(message: Seq<char>) -> bool {
    1 <= encode_utf8(message).len() <= MAX_MESSAGE_LEN
}

/// Whether a message is encrypted with the writer's secret key for the reader's public key.
pub open spec fn nip44_accepts(
    secret_key: Seq<char>,
    public_key: Seq<char>,
    message: Seq<char>,
) -> bool {
    conversation_possible(secret_key, public_key) && message_fits(message)
}

/// Whether the two keys are the writer's secret key and the reader's public key, each with its
/// other half.
pub open spec fn are_keys(secret_key: Seq<char>, public_key: Seq<char>) -> bool {
    (exists|writer: Seq<char>| is_key_pair(secret_key, writer)) && (exists|reader: Seq<char>|
        is_key_pair(reader, public_key))
}

/// The length of a payload that is too short for a message, yet long enough for a nonce and a
/// message authentication code: eighty-eight characters stand for sixty-four to sixty-six bytes.
pub const EMPTY_PAYLOAD_LEN: usize = 88;

/// The message in a payload, as [`decrypt`] reads it.
pub open spec fn plaintext(
    secret_key: Seq<char>,
    public_key: Seq<char>,
    payload: Seq<char>,
) -> Option<Seq<char>> {
    if payload.len() == EMPTY_PAYLOAD_LEN {
        None
    } else {
        nip44_plaintext(secret_key, public_key, payload)
    }
}

/// Calls `nostr::nips::nip44::decrypt`. Claimed: the result depends on the keys and the payload
/// alone. A payload of [`EMPTY_PAYLOAD_LEN`] characters is left out: it may hold too few bytes for
/// the length of a message, where that function does not return.
#[verifier::external_body]
fn nip44_decrypt(secret_key: &str, public_key: &str, payload: &str) -> (r: Option<String>)
    requires
        payload@.len() != EMPTY_PAYLOAD_LEN,
    ensures
        r.deep_view() == nip44_plaintext(secret_key@, public_key@, payload@),
{
    let secret_key = nostr::SecretKey::from_hex(secret_key).ok()?;
    let public_key = nostr::PublicKey::from_hex(public_key).ok()?;
    nostr::nips::nip44::decrypt(&secret_key, &public_key, payload).ok()
}

/// Calls `nostr::nips::nip44::encrypt` in version two of the format. The payload is random.
/// Claimed: there is one where the two keys make a conversation possible and the message fits; the
/// keys of two key pairs do; a payload is never shorter than one hundred and thirty-two characters;
/// and with the other side's secret key and the writer's public key it is decrypted to the message.
#[verifier::external_body]
fn nip44_encrypt(secret_key: &str, public_key: &str, message: &str) -> (r: Option<String>)
    ensures
        r is Some == nip44_accepts(secret_key@, public_key@, message@),
        r is Some ==> conversation_possible(secret_key@, public_key@),
        message_fits(message@) ==> are_keys(secret_key@, public_key@) ==> r is Some,
        r matches Some(payload) ==> payload@.len() >= 132,
        r matches Some(payload) ==> forall|reader: Seq<char>, writer: Seq<char>|
            is_key_pair(secret_key@, writer) && is_key_pair(reader, public_key@)
                ==> #[trigger] nip44_plaintext(reader, writer, payload@) == Some(message@),
{
    let secret_key = nostr::SecretKey::from_hex(secret_key).ok()?;
    let public_key = nostr::PublicKey::from_hex(public_key).ok()?;
    let version = nostr::nips::nip44::Version::V2;
    nostr::nips::nip44::encrypt(&secret_key, &public_key, message, version).ok()
}

/// Decrypts a payload with the reader's secret key and the writer's public key.
pub fn decrypt(secret_key: &str, public_key: &str, payload: &str) -> (r: Option<String>)
    ensures
        r.deep_view() == plaintext(secret_key@, public_key@, payload@),
{
    if payload.unicode_len() == EMPTY_PAYLOAD_LEN {
        None
    } else {
        nip44_decrypt(secret_key, public_key, payload)
    }
}

/// Encrypts a message with the writer's secret key for the holder of the reader's public key.
pub fn encrypt(secret_key: &str, public_key: &str, message: &str) -> (r: Option<String>)
    ensures
        r is Some == nip44_accepts(secret_key@, public_key@, message@),
        are_keys(secret_key@, public_key@) ==> r is Some == message_fits(message@),
        r matches Some(payload) ==> decrypts_to(secret_key@, public_key@, payload@, message@),
{
    nip44_encrypt(secret_key, public_key, message)
}

/// Whether the holder of the secret key behind `reader_public` reads `message` out of a payload
/// that the holder of `writer_secret` wrote.
pub open spec fn decrypts_to(
    writer_secret: Seq<char>,
    reader_public: Seq<char>,
    payload: Seq<char>,
    message: Seq<char>,
) -> bool {
    forall|reader: Seq<char>, writer: Seq<char>|
        is_key_pair(writer_secret, writer) && is_key_pair(reader, reader_public)
            ==> #[trigger] plaintext(reader, writer, payload) == Some(message)
}

} // verus!
