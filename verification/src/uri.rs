//! Connection strings: the URIs that hand a client its key and the relays to meet on.
use crate::keys::{generate_secret_hex, is_key_pair, nostr_key_pair, Keys};
use crate::text::key_hex;
use vstd::prelude::*;

verus! {

/// What a connection string says.
pub struct WalletConnectUri {
    /// The public key of the wallet, in hexadecimal.
    pub public_key: String,
    /// The relays to meet on.
    pub relays: Vec<String>,
    /// The secret key of the client, in hexadecimal.
    pub secret: String,
    /// A lightning address, where the string names one.
    pub lud16: Option<String>,
}

/// The mathematical content of a [`WalletConnectUri`].
pub struct UriView {
    pub public_key: Seq<char>,
    pub relays: Seq<Seq<char>>,
    pub secret: Seq<char>,
    pub lud16: Option<Seq<char>>,
}

impl View for WalletConnectUri {
    type V = UriView;

    open spec fn view(&self) -> UriView {
        UriView {
            public_key: self.public_key@,
            relays: self.relays.deep_view(),
            secret: self.secret@,
            lud16: self.lud16.deep_view(),
        }
    }
}

/// What `nostr::nips::nip47::NostrWalletConnectURI::from_str` reads out of a text, or `None` where
/// it refuses the text.
pub uninterp spec fn parsed_uri(text: Seq<char>) -> Option<UriView>;

/// The text by which `nostr::RelayUrl::parse` knows a relay, without a slash at its end, or `None`
/// where it refuses the text it is given.
pub uninterp spec fn relay_text(text: Seq<char>) -> Option<Seq<char>>;

/// The text that `nostr::nips::nip47::NostrWalletConnectURI` displays for a public key, relays and
/// a secret key, or `None` where one of them is no such thing.
pub uninterp spec fn connection_text(
    public_key: Seq<char>,
    relays: Seq<Seq<char>>,
    secret: Seq<char>,
) -> Option<Seq<char>>;

/// Calls `NostrWalletConnectURI::from_str` and writes the keys in hexadecimal and each relay as it
/// displays. Claimed: the result depends on the text alone; a string that is accepted names at
/// least one relay, and holds a secret key.
#[verifier::external_body]
fn parse_uri(text: &str) -> (r: Option<WalletConnectUri>)
    ensures
        match r {
            Some(uri) => parsed_uri(text@) == Some(uri@),
            None => parsed_uri(text@) is None,
        },
        r matches Some(uri) ==> {
            &&& key_hex(uri@.public_key)
            &&& nostr_key_pair(uri@.secret) matches Some(pair) && is_key_pair(uri@.secret, pair.1)
            &&& uri@.relays.len() > 0
        },
{
    let uri: nostr::nips::nip47::NostrWalletConnectURI = text.parse().ok()?;
    Some(WalletConnectUri {
        public_key: uri.public_key.to_hex(),
        relays: uri.relays.iter().map(|relay| relay.to_string()).collect(),
        secret: uri.secret.to_secret_hex(),
        lud16: uri.lud16,
    })
}

/// The relays that are accepted, in their order.
pub open spec fn accepted_relays(relays: Seq<Seq<char>>) -> Seq<Seq<char>> {
    relays.filter(|relay: Seq<char>| relay_text(relay) is Some)
}

/// The texts by which the relays that are accepted are known, in their order.
pub open spec fn known_relays(relays: Seq<Seq<char>>) -> Seq<Seq<char>> {
    accepted_relays(relays).map_values(|relay: Seq<char>| relay_text(relay)->0)
}

/// What a connection string says that was written for a public key, relays and a secret key. The
/// string names the relays by the texts by which they are known, and the reader accepts or refuses
/// these in turn; where it accepts none, it refuses the string.
pub open spec fn connection_read(
    public_key: Seq<char>,
    relays: Seq<Seq<char>>,
    secret: Seq<char>,
) -> Option<UriView> {
    let read = known_relays(known_relays(relays));
    if read.len() > 0 {
        Some(UriView { public_key, relays: read, secret, lud16: None })
    } else {
        None
    }
}

/// Calls `nostr::RelayUrl::parse` and writes the relay without a slash at its end. Claimed: the
/// result depends on the text alone.
#[verifier::external_body]
fn parse_relay(text: &str) -> (r: Option<String>)
    ensures
        r.deep_view() == relay_text(text@),
{
    let relay = nostr::RelayUrl::parse(text).ok()?;
    Some(relay.as_str_without_trailing_slash().to_owned())
}

/// Calls `NostrWalletConnectURI::new` without a lightning address and displays the result.
/// Claimed: the text depends on the three arguments alone; there is one for a public key and a
/// secret key in lower-case hexadecimal and relays that are accepted; and where it is not longer
/// than a URL can be, `NostrWalletConnectURI::from_str` reads the two keys out of it, and of the
/// relays those whose own text is accepted in turn.
#[verifier::external_body]
fn display_uri(public_key: &str, relays: &Vec<String>, secret: &str) -> (r: Option<String>)
    ensures
        r.deep_view() == connection_text(public_key@, relays.deep_view(), secret@),
        key_hex(public_key@) && nostr_key_pair(secret@) is Some && key_hex(secret@) && (forall|i: int|
            0 <= i < relays@.len() ==> relay_text(#[trigger] relays@[i]@) is Some) ==> r is Some,
        r matches Some(text) ==> key_hex(public_key@) && key_hex(secret@) && text@.len() <= u32::MAX
            ==> parsed_uri(text@) == connection_read(public_key@, relays.deep_view(), secret@),
{
    let public_key = nostr::PublicKey::from_hex(public_key).ok()?;
    let relays: Result<Vec<nostr::RelayUrl>, _> = relays.iter().map(|r| r.parse()).collect();
    let secret = nostr::SecretKey::from_hex(secret).ok()?;
    let uri = nostr::nips::nip47::NostrWalletConnectURI::new(public_key, relays.ok()?, secret, None);
    Some(uri.to_string())
}

impl WalletConnectUri {
    /// Reads a connection string.
    pub fn parse(text: &str) -> (r: Option<WalletConnectUri>)
        ensures
            match r {
                Some(uri) => parsed_uri(text@) == Some(uri@),
                None => parsed_uri(text@) is None,
            },
            r matches Some(uri) ==> {
                &&& key_hex(uri@.public_key)
                &&& nostr_key_pair(uri@.secret) matches Some(pair) && is_key_pair(
                    uri@.secret,
                    pair.1,
                )
                &&& uri@.relays.len() > 0
            },
    {
        parse_uri(text)
    }
}

/// Keeps the relays that are accepted, in their order.
pub fn usable_relays(relays: &Vec<String>) -> (r: Vec<String>)
    ensures
        r.deep_view() == accepted_relays(relays.deep_view()),
        forall|i: int| 0 <= i < r@.len() ==> relay_text(#[trigger] r@[i]@) is Some,
{
    let mut kept: Vec<String> = Vec::new();
    let ghost all = relays.deep_view();
    let ghost accepted = |relay: Seq<char>| relay_text(relay) is Some;
    proof {
        reveal(Seq::filter);
        assert(all.take(0) =~= Seq::<Seq<char>>::empty());
    }
    assert(kept.deep_view() =~= all.take(0).filter(accepted));
    for i in 0..relays.len()
        invariant
            all == relays.deep_view(),
            accepted == (|relay: Seq<char>| relay_text(relay) is Some),
            kept.deep_view() == all.take(i as int).filter(accepted),
            forall|j: int| 0 <= j < kept@.len() ==> relay_text(#[trigger] kept@[j]@) is Some,
    {
        proof {
            reveal(Seq::filter);
            assert(all.take(i + 1).drop_last() =~= all.take(i as int));
            assert(all.take(i + 1).last() == relays@[i as int]@);
        }
        if parse_relay(relays[i].as_str()).is_some() {
            let ghost before = kept.deep_view();
            kept.push(relays[i].clone());
            assert(kept.deep_view() =~= before.push(relays@[i as int]@));
        }
    }
    assert(all.take(relays@.len() as int) =~= all);
    kept
}

proof fn lemma_accepted_once(relays: Seq<Seq<char>>)
    ensures
        accepted_relays(accepted_relays(relays)) == accepted_relays(relays),
    decreases relays.len(),
{
    reveal(Seq::filter);
    if relays.len() > 0 {
        let front = relays.drop_last();
        lemma_accepted_once(front);
        if relay_text(relays.last()) is Some {
            let kept = accepted_relays(front);
            assert(accepted_relays(relays) == kept.push(relays.last()));
            assert(kept.push(relays.last()).drop_last() =~= kept);
        }
    }
}

/// Writes the connection string of a client of the wallet: it names those of the relays that are
/// accepted, and hands the client its secret key.
pub fn connection_string(public_key: &str, relays: &Vec<String>, secret: &str) -> (r: Option<
    String,
>)
    ensures
        r.deep_view() == connection_text(
            public_key@,
            accepted_relays(relays.deep_view()),
            secret@,
        ),
        key_hex(public_key@) && nostr_key_pair(secret@) is Some && key_hex(secret@) ==> r is Some,
        r matches Some(text) ==> key_hex(public_key@) && key_hex(secret@) && text@.len() <= u32::MAX
            ==> parsed_uri(text@) == connection_read(public_key@, relays.deep_view(), secret@),
{
    let kept = usable_relays(relays);
    proof {
        lemma_accepted_once(relays.deep_view());
    }
    display_uri(public_key, &kept, secret)
}

/// Whether a text is a connection string of the holder of a public key: it hands out some secret
/// key and names the relays that are accepted, and says so to whoever reads it.
pub open spec fn connects(text: Seq<char>, public_key: Seq<char>, relays: Seq<Seq<char>>) -> bool {
    exists|secret: Seq<char>| #[trigger] connects_with(text, public_key, relays, secret)
}

/// Whether a text is a connection string of the holder of a public key that hands out the given
/// secret key.
pub open spec fn connects_with(
    text: Seq<char>,
    public_key: Seq<char>,
    relays: Seq<Seq<char>>,
    secret: Seq<char>,
) -> bool {
    &&& nostr_key_pair(secret) matches Some(pair)
    &&& is_key_pair(secret, pair.1)
    &&& connection_text(public_key, accepted_relays(relays), secret) == Some(text)
    &&& text.len() <= u32::MAX ==> parsed_uri(text) == connection_read(public_key, relays, secret)
}

/// A new connection string, which is not kept yet.
pub struct ConnectionDraft {
    text: String,
    public_key: Ghost<Seq<char>>,
    relays: Ghost<Seq<Seq<char>>>,
}

impl ConnectionDraft {
    #[verifier::type_invariant]
    spec fn well_formed(self) -> bool {
        connects(self.text@, self.public_key@, self.relays@)
    }

    /// The string.
    pub closed spec fn text(&self) -> Seq<char> {
        self.text@
    }

    /// The public key of the wallet that it was made for.
    pub closed spec fn public_key(&self) -> Seq<char> {
        self.public_key@
    }

    /// The relays that it was made for.
    pub closed spec fn relays(&self) -> Seq<Seq<char>> {
        self.relays@
    }

    /// Makes a secret key and writes the connection string that hands it out.
    pub fn new(keys: &Keys, relays: &Vec<String>) -> (r: ConnectionDraft)
        ensures
            r.public_key() == keys.public(),
            r.relays() == relays.deep_view(),
            connects(r.text(), keys.public(), relays.deep_view()),
    {
        let secret = generate_secret_hex();
        let text = connection_string(keys.public_key(), relays, secret.as_str()).unwrap();
        assert(connects_with(text@, keys.public(), relays.deep_view(), secret@));
        ConnectionDraft {
            text,
            public_key: Ghost(keys.public()),
            relays: Ghost(relays.deep_view()),
        }
    }

    /// The string, which connects with the wallet over the relays that it was made for.
    pub fn as_str(&self) -> (r: &str)
        ensures
            r@ == self.text(),
            connects(r@, self.public_key(), self.relays()),
    {
        proof {
            use_type_invariant(self);
        }
        self.text.as_str()
    }
}

} // verus!
