//! Nostr events: what a relay carries between a client and the wallet.
use crate::keys::{nostr_key_pair, Keys};
use vstd::prelude::*;

verus! {

/// The kind of the event in which the wallet says what it can do.
pub const KIND_INFO: u16 = 13194;

/// The kind of the event in which a client asks for something.
pub const KIND_REQUEST: u16 = 23194;

/// The kind of the event in which the wallet answers.
pub const KIND_RESPONSE: u16 = 23195;

/// The kind of the event in which the wallet tells of a payment.
pub const KIND_NOTIFICATION: u16 = 23196;

/// A signed event.
pub struct Event {
    /// The event's id, in hexadecimal.
    pub id: String,
    /// The author's public key, in hexadecimal.
    pub pubkey: String,
    /// When it was made, in seconds since the epoch.
    pub created_at: u64,
    /// What it is for.
    pub kind: u16,
    /// Its tags, each a list of texts.
    pub tags: Vec<Vec<String>>,
    /// What it says.
    pub content: String,
    /// The author's signature, in hexadecimal.
    pub sig: String,
}

/// The mathematical content of an [`Event`].
pub struct EventView {
    pub id: Seq<char>,
    pub pubkey: Seq<char>,
    pub created_at: u64,
    pub kind: u16,
    pub tags: Seq<Seq<Seq<char>>>,
    pub content: Seq<char>,
    pub sig: Seq<char>,
}

impl View for Event {
    type V = EventView;

    open spec fn view(&self) -> EventView {
        EventView {
            id: self.id@,
            pubkey: self.pubkey@,
            created_at: self.created_at,
            kind: self.kind,
            tags: self.tags.deep_view(),
            content: self.content@,
            sig: self.sig@,
        }
    }
}

/// Whether `nostr::Event::verify` accepts an event: its id is the one of what it says, and its
/// signature is the author's.
pub uninterp spec fn event_authentic(event: EventView) -> bool;

/// The time that `nostr::Tags::expiration` finds in a list of tags.
pub uninterp spec fn tags_expiration(tags: Seq<Seq<Seq<char>>>) -> Option<u64>;

/// A tag that names the author of the event that bears it.
pub open spec fn names_author(tag: Seq<Seq<char>>, author: Seq<char>) -> bool {
    tag.len() >= 2 && tag[0] == seq!['p'] && tag[1] == author
}

/// The tags that a signed event keeps: those that do not name its own author.
pub open spec fn kept_tags(tags: Seq<Seq<Seq<char>>>, author: Seq<char>) -> Seq<Seq<Seq<char>>> {
    tags.filter(|tag: Seq<Seq<char>>| !names_author(tag, author))
}

/// Calls `nostr::Event::verify` on the event. Claimed: whether it accepts depends on the event
/// alone; a text in the event that is no id, key or signature counts as refused.
#[verifier::external_body]
fn verify_event(event: &Event) -> (r: Option<()>)
    ensures
        r is Some == event_authentic(event@),
{
    let id = nostr::EventId::from_hex(&event.id).ok()?;
    let pubkey = nostr::PublicKey::from_hex(&event.pubkey).ok()?;
    let created_at = nostr::Timestamp::from_secs(event.created_at);
    let kind = nostr::Kind::from_u16(event.kind);
    let tags = nostr::Tags::parse(event.tags.clone()).ok()?;
    let sig: nostr::secp256k1::schnorr::Signature = event.sig.parse().ok()?;
    let content = event.content.clone();
    nostr::Event::new(id, pubkey, created_at, kind, tags, content, sig).verify().ok()
}

/// Calls `nostr::Tags::expiration`. Claimed: the result depends on the tags alone.
#[verifier::external_body]
fn find_expiration(tags: &Vec<Vec<String>>) -> (r: Option<u64>)
    ensures
        r == tags_expiration(tags.deep_view()),
{
    let tags = nostr::Tags::parse(tags.clone()).ok()?;
    tags.expiration().map(|time| time.as_u64())
}

/// Calls `nostr::Timestamp::now`, the seconds since the epoch by the machine's clock, of which
/// nothing is claimed.
#[verifier::external_body]
fn clock() -> (r: u64) {
    nostr::Timestamp::now().as_u64()
}

/// Calls `nostr::EventBuilder::sign_with_keys` on an event of the given kind, content and tags.
/// Claimed: it succeeds for every secret key and every list of tags none of which is empty; the
/// event bears the key's public key, the kind, the content, and the tags but for those that name
/// the author; and `nostr::Event::verify` accepts it. Its id, its time and its signature depend on
/// the clock and on chance.
#[verifier::external_body]
fn sign_event(secret_key: &str, kind: u16, content: &str, tags: &Vec<Vec<String>>) -> (r: Option<
    Event,
>)
    ensures
        r is Some <==> nostr_key_pair(secret_key@) is Some && forall|i: int|
            0 <= i < tags@.len() ==> #[trigger] tags@[i]@.len() > 0,
        r matches Some(event) ==> {
            &&& nostr_key_pair(secret_key@) matches Some(pair)
            &&& event@.pubkey == pair.1
            &&& event@.kind == kind
            &&& event@.content == content@
            &&& event@.tags == kept_tags(tags.deep_view(), pair.1)
            &&& event_authentic(event@)
        },
{
    let keys = nostr::Keys::parse(secret_key).ok()?;
    let list = nostr::Tags::parse(tags.clone()).ok()?;
    let builder = nostr::EventBuilder::new(nostr::Kind::from_u16(kind), content).tags(list);
    let signed = builder.sign_with_keys(&keys).ok()?;
    Some(Event {
        id: signed.id.to_hex(),
        pubkey: signed.pubkey.to_hex(),
        created_at: signed.created_at.as_u64(),
        kind: signed.kind.as_u16(),
        tags: signed.tags.to_vec().into_iter().map(|tag| tag.to_vec()).collect(),
        content: signed.content,
        sig: signed.sig.to_string(),
    })
}

impl Event {
    /// Whether the event's id is the one of what it says and its signature is the author's.
    pub fn verify(&self) -> (r: bool)
        ensures
            r == event_authentic(self@),
    {
        verify_event(self).is_some()
    }

    /// When the event ceases to count, where it says so.
    pub fn expiration(&self) -> (r: Option<u64>)
        ensures
            r == tags_expiration(self@.tags),
    {
        find_expiration(&self.tags)
    }

    /// Makes and signs an event.
    pub fn signed(keys: &Keys, kind: u16, content: &str, tags: &Vec<Vec<String>>) -> (r: Event)
        requires
            forall|i: int| 0 <= i < tags@.len() ==> #[trigger] tags@[i]@.len() > 0,
        ensures
            r@.pubkey == keys.public(),
            r@.kind == kind,
            r@.content == content@,
            r@.tags == kept_tags(tags.deep_view(), keys.public()),
            event_authentic(r@),
    {
        let secret_key = keys.secret_key();
        sign_event(secret_key, kind, content, tags).unwrap()
    }
}

/// The current time, in seconds since the epoch.
pub fn now() -> (r: u64) {
    clock()
}

/// The tag that points to an event.
pub open spec fn event_tag_view(id: Seq<char>) -> Seq<Seq<char>> {
    seq![seq!['e'], id]
}

/// The tag that points to a public key.
pub open spec fn key_tag_view(public_key: Seq<char>) -> Seq<Seq<char>> {
    seq![seq!['p'], public_key]
}

/// Writes the tag that points to an event.
pub fn event_tag(id: &str) -> (r: Vec<String>)
    ensures
        r.deep_view() == event_tag_view(id@),
        r@.len() > 0,
{
    proof {
        reveal_strlit("e");
    }
    let tag: Vec<String> = vec!["e".to_owned(), id.to_owned()];
    assert("e"@ =~= seq!['e']);
    assert(tag.deep_view() =~= event_tag_view(id@));
    tag
}

/// Writes the tag that points to a public key.
pub fn key_tag(public_key: &str) -> (r: Vec<String>)
    ensures
        r.deep_view() == key_tag_view(public_key@),
        r@.len() > 0,
{
    proof {
        reveal_strlit("p");
    }
    let tag: Vec<String> = vec!["p".to_owned(), public_key.to_owned()];
    assert("p"@ =~= seq!['p']);
    assert(tag.deep_view() =~= key_tag_view(public_key@));
    tag
}

} // verus!
