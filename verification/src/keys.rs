//! Nostr key pairs.
use crate::text::key_hex;
use vstd::prelude::*;

verus! {

/// The secret and the public key, both in hexadecimal, that `nostr::Keys::parse` reads out of a
/// text, or `None` where it refuses the text.
pub uninterp spec fn nostr_key_pair(text: Seq<char>) -> Option<(Seq<char>, Seq<char>)>;

/// Whether `secret` is the hexadecimal form of a secret key and `public` that of its public key.
pub open spec fn is_key_pair(secret: Seq<char>, public: Seq<char>) -> bool {
    &&& key_hex(secret)
    &&& key_hex(public)
    &&& nostr_key_pair(secret) == Some((secret, public))
}

/// Calls `nostr::Keys::parse`, which accepts a secret key in hexadecimal or in bech32, and writes
/// both keys in lower-case hexadecimal. Claimed: the result depends on the text alone, and the
/// hexadecimal form of the secret key is itself read as the same pair.
#[verifier::external_body]
fn parse_key_pair(text: &str) -> (r: Option<(String, String)>)
    ensures
        match r {
            Some(pair) => nostr_key_pair(text@) == Some((pair.0@, pair.1@)) && is_key_pair(
                pair.0@,
                pair.1@,
            ),
            None => nostr_key_pair(text@) is None,
        },
{
    let keys = nostr::Keys::parse(text).ok()?;
    Some((keys.secret_key().to_secret_hex(), keys.public_key().to_hex()))
}

/// Calls `nostr::SecretKey::generate` and writes the key in hexadecimal. The key is random;
/// claimed is only that it is a secret key in lower-case hexadecimal.
#[verifier::external_body]
pub(crate) fn generate_secret_hex() -> (r: String)
    ensures
        key_hex(r@),
        nostr_key_pair(r@) matches Some(pair) && is_key_pair(r@, pair.1),
{
    nostr::SecretKey::generate().to_secret_hex()
}

/// The keys of one side of a conversation, in lower-case hexadecimal.
pub struct Keys {
    secret_key: String,
    public_key: String,
}

impl Keys {
    #[verifier::type_invariant]
    spec fn well_formed(self) -> bool {
        is_key_pair(self.secret_key@, self.public_key@)
    }

    /// The secret key.
    pub closed spec fn secret(&self) -> Seq<char> {
        self.secret_key@
    }

    /// The public key.
    pub closed spec fn public(&self) -> Seq<char> {
        self.public_key@
    }

    /// Reads a secret key, in hexadecimal or bech32, and derives its public key.
    pub fn parse(text: &str) -> (r: Option<Keys>)
        ensures
            match r {
                Some(keys) => {
                    &&& nostr_key_pair(text@) == Some((keys.secret(), keys.public()))
                    &&& is_key_pair(keys.secret(), keys.public())
                },
                None => nostr_key_pair(text@) is None,
            },
    {
        match parse_key_pair(text) {
            Some((secret_key, public_key)) => Some(Keys { secret_key, public_key }),
            None => None,
        }
    }

    /// The secret key in hexadecimal.
    pub fn secret_key(&self) -> (r: &str)
        ensures
            r@ == self.secret(),
            is_key_pair(self.secret(), self.public()),
    {
        proof {
            use_type_invariant(self);
        }
        self.secret_key.as_str()
    }

    /// The public key in hexadecimal.
    pub fn public_key(&self) -> (r: &str)
        ensures
            r@ == self.public(),
            is_key_pair(self.secret(), self.public()),
    {
        proof {
            use_type_invariant(self);
        }
        self.public_key.as_str()
    }
}

} // verus!
