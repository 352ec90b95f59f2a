//! What is kept by name, what a connection string says, and how the services go their way.
use crate::directory::{entries_map, names_distinct};
use crate::keys::{is_key_pair, nostr_key_pair};
use crate::plugin;
use crate::service;
use crate::uri::{
    accepted_relays, connection_text, connects, connects_with, known_relays, parsed_uri,
    relay_text, WalletConnectUri,
};
use vstd::prelude::*;

verus! {

/// Under each name the last text counts that a list gives for it, and under no other name any.
pub proof fn law_last_entry_counts(
    entries: Seq<(String, String)>,
    i: int,
    name: Seq<char>,
)
    requires
        -1 <= i < entries.len(),
        i >= 0 ==> entries[i].0@ == name,
        forall|j: int| i < j < entries.len() ==> (#[trigger] entries[j]).0@ != name,
    ensures
        i >= 0 ==> entries_map(entries).contains_pair(name, entries[i].1@),
        i == -1 ==> !entries_map(entries).contains_key(name),
    decreases entries.len(),
{
    if entries.len() > 0 {
        let front = entries.drop_last();
        assert(entries.last() == entries[entries.len() - 1]);
        if i < entries.len() - 1 {
            assert(entries[entries.len() - 1].0@ != name);
            assert forall|j: int| i < j < front.len() implies (#[trigger] front[j]).0@ != name by {
                assert(front[j] == entries[j]);
            }
            law_last_entry_counts(front, i, name);
        }
    }
}

/// Where each name stands once in a list, every entry of the list counts.
pub proof fn law_distinct_entries_count(entries: Seq<(String, String)>, i: int)
    requires
        names_distinct(entries),
        0 <= i < entries.len(),
    ensures
        entries_map(entries).contains_pair(entries[i].0@, entries[i].1@),
{
    assert forall|j: int| i < j < entries.len() implies (#[trigger] entries[j]).0@
        != entries[i].0@ by {}
    law_last_entry_counts(entries, i, entries[i].0@);
}

/// A connection string names every relay that is accepted, in their order, by the text by which it
/// is known, and no other.
pub proof fn law_accepted_relays_are_named(relays: Seq<Seq<char>>, relay: Seq<char>)
    ensures
        accepted_relays(Seq::empty()).len() == 0,
        known_relays(Seq::empty()).len() == 0,
        relay_text(relay) is None ==> accepted_relays(relays.push(relay)) == accepted_relays(relays)
            && known_relays(relays.push(relay)) == known_relays(relays),
        relay_text(relay) matches Some(text) ==> accepted_relays(relays.push(relay))
            == accepted_relays(relays).push(relay) && known_relays(relays.push(relay))
            == known_relays(relays).push(text),
{
    reveal(Seq::filter);
    assert(relays.push(relay).drop_last() =~= relays);
    if let Some(text) = relay_text(relay) {
        assert(known_relays(relays.push(relay)) =~= known_relays(relays).push(text));
    }
}

/// Whoever reads a new connection string finds in it the wallet's public key, the secret key that
/// was made for it, no lightning address, and the relays that are accepted.
pub proof fn law_connection_string_is_read(
    text: Seq<char>,
    public_key: Seq<char>,
    relays: Seq<Seq<char>>,
    secret: Seq<char>,
    uri: WalletConnectUri,
)
    requires
        connects_with(text, public_key, relays, secret),
        text.len() <= u32::MAX,
        parsed_uri(text) == Some(uri@),
    ensures
        uri.public_key@ == public_key,
        uri.secret@ == secret,
        uri.lud16 is None,
        uri.relays.deep_view() == known_relays(known_relays(relays)),
{
}

/// A connection string of a wallet hands out some secret key.
pub proof fn law_connection_string_hands_out_a_key(
    text: Seq<char>,
    public_key: Seq<char>,
    relays: Seq<Seq<char>>,
)
    requires
        connects(text, public_key, relays),
    ensures
        exists|secret: Seq<char>, public: Seq<char>| #[trigger]
            is_key_pair(secret, public) && connection_text(
                public_key,
                accepted_relays(relays),
                secret,
            ) == Some(text),
{
    let secret = choose|secret: Seq<char>| #[trigger]
        connects_with(text, public_key, relays, secret);
    assert(nostr_key_pair(secret) matches Some(pair) && is_key_pair(secret, pair.1));
}

/// A key pair is a secret key of sixty-four lower-case hexadecimal digits, and the public key of the
/// same form that is read out of it.
pub proof fn law_key_pair_is_read_from_its_secret(secret: Seq<char>, public: Seq<char>)
    ensures
        is_key_pair(secret, public) <==> {
            &&& nostr_key_pair(secret) == Some((secret, public))
            &&& secret.len() == 64
            &&& public.len() == 64
            &&& forall|i: int| 0 <= i < 64 ==> is_lower_hex(#[trigger] secret[i])
            &&& forall|i: int| 0 <= i < 64 ==> is_lower_hex(#[trigger] public[i])
        },
{
}

/// A digit, or a letter from `a` to `f`.
pub open spec fn is_lower_hex(c: char) -> bool {
    ('0' <= c && c <= '9') || ('a' <= c && c <= 'f')
}

/// The core goes from connecting over announcing, loading and subscribing to serving, each time on
/// the happening that ends a phase; it ends where loading or subscribing fails, disconnects whenever
/// it is asked to end, handles every notification and forwards every payment while it serves, and
/// passes over whatever else happens.
pub proof fn law_core_goes_its_way(phase: service::Phase, happening: service::Happening)
    ensures
        ({
            let (next, task) = service::next_phase(phase, happening);
            if phase == service::Phase::Stopped {
                next == service::Phase::Stopped && task == service::Task::End
            } else if happening == service::Happening::Shutdown {
                next == service::Phase::Stopped && task == service::Task::Disconnect
            } else {
                match phase {
                    service::Phase::Connecting => if happening == service::Happening::Connected {
                        next == service::Phase::Announcing && task == service::Task::Announce
                    } else {
                        next == phase && task == service::Task::Wait
                    },
                    service::Phase::Announcing => if happening == service::Happening::Announced {
                        next == service::Phase::Loading && task == service::Task::LoadClients
                    } else {
                        next == phase && task == service::Task::Wait
                    },
                    service::Phase::Loading => if happening == service::Happening::Loaded {
                        next == service::Phase::Subscribing && task == service::Task::Subscribe
                    } else if happening == service::Happening::LoadFailed {
                        next == service::Phase::Stopped && task == service::Task::End
                    } else {
                        next == phase && task == service::Task::Wait
                    },
                    service::Phase::Subscribing => if happening == service::Happening::Subscribed {
                        next == service::Phase::Serving && task == service::Task::Wait
                    } else if happening == service::Happening::SubscribeFailed {
                        next == service::Phase::Stopped && task == service::Task::End
                    } else {
                        next == phase && task == service::Task::Wait
                    },
                    _ => {
                        &&& next == phase
                        &&& task == service::Task::ForwardPayment <==> happening
                            == service::Happening::PaymentSucceeded
                        &&& task == service::Task::HandleEvent <==> happening
                            == service::Happening::RelayNotification
                        &&& happening != service::Happening::PaymentSucceeded && happening
                            != service::Happening::RelayNotification ==> task
                            == service::Task::Wait
                    },
                }
            }
        }),
{
}

/// The plugin goes from connecting over telling, announcing, loading and subscribing to serving,
/// each time on the happening that ends a phase, and back to loading when a connection string has
/// come or gone; it ends where loading or subscribing fails, disconnects whenever it is asked to end,
/// handles every notification and forwards every payment while it serves, and passes over whatever
/// else happens.
pub proof fn law_plugin_goes_its_way(phase: plugin::Phase, happening: plugin::Happening)
    ensures
        ({
            let (next, task) = plugin::next_phase(phase, happening);
            if happening == plugin::Happening::Stop {
                next == plugin::Phase::Stopped && task == plugin::Task::Disconnect
            } else {
                match phase {
                    plugin::Phase::Stopped => next == plugin::Phase::Stopped && task
                        == plugin::Task::End,
                    plugin::Phase::Connecting => if happening == plugin::Happening::Connected {
                        next == plugin::Phase::Telling && task == plugin::Task::TellConnected
                    } else {
                        next == phase && task == plugin::Task::Wait
                    },
                    plugin::Phase::Telling => if happening == plugin::Happening::Told {
                        next == plugin::Phase::Announcing && task == plugin::Task::Announce
                    } else {
                        next == phase && task == plugin::Task::Wait
                    },
                    plugin::Phase::Announcing => if happening == plugin::Happening::Announced {
                        next == plugin::Phase::Loading && task == plugin::Task::LoadClients
                    } else {
                        next == phase && task == plugin::Task::Wait
                    },
                    plugin::Phase::Loading => if happening == plugin::Happening::Loaded {
                        next == plugin::Phase::Subscribing && task == plugin::Task::Subscribe
                    } else if happening == plugin::Happening::LoadFailed {
                        next == plugin::Phase::Stopped && task == plugin::Task::End
                    } else {
                        next == phase && task == plugin::Task::Wait
                    },
                    plugin::Phase::Subscribing => if happening == plugin::Happening::Subscribed {
                        next == plugin::Phase::Serving && task == plugin::Task::Wait
                    } else if happening == plugin::Happening::SubscribeFailed {
                        next == plugin::Phase::Stopped && task == plugin::Task::End
                    } else {
                        next == phase && task == plugin::Task::Wait
                    },
                    plugin::Phase::Serving => if happening
                        == plugin::Happening::ConnectionsChanged {
                        next == plugin::Phase::Loading && task == plugin::Task::LoadClients
                    } else {
                        &&& next == phase
                        &&& task == plugin::Task::ForwardPayment <==> happening
                            == plugin::Happening::PaymentSucceeded
                        &&& task == plugin::Task::HandleEvent <==> happening
                            == plugin::Happening::RelayNotification
                        &&& happening != plugin::Happening::PaymentSucceeded && happening
                            != plugin::Happening::RelayNotification ==> task == plugin::Task::Wait
                    },
                }
            }
        }),
{
}

} // verus!
