//! The cache of what the wallet has seen of its chain: updates in memory, and the rules by which
//! they are kept in a store of numbered, encrypted entries.
use crate::text::joined;
use crate::update_bytes::{is_sound, sound_encoding};
use aes_gcm_siv::aead::AeadInPlace;
use aes_gcm_siv::Nonce;
use vstd::prelude::*;
use vstd::slice::slice_subrange;

verus! {

/// The name of the object store that holds the updates.
pub const IDB_STORE_NAME: &'static str = "BREEZ_SDK_LIQUID_WALLET_CACHE_STORE";

/// The number of bytes at the start of an encrypted update that hold its nonce.
pub const NONCE_LEN: usize = 12;

/// How long an encoded update may be to be encrypted: two to the power of thirty-six bytes.
pub const MAX_ENCRYPTED_LEN: u64 = 68719476736;

/// What the wallet has seen of its chain since it last looked.
#[verifier::external_type_specification]
#[verifier::external_body]
pub struct ExUpdate(lwk_wollet::Update);

/// What tells a wallet from others, from which the cipher of its updates is made.
#[verifier::external_type_specification]
#[verifier::external_body]
pub struct ExWolletDescriptor(lwk_wollet::WolletDescriptor);

/// What an update holds, in the bytes that `lwk_wollet::Update::serialize` writes for it, or `None`
/// where it cannot be written.
pub uninterp spec fn update_encoding(update: lwk_wollet::Update) -> Option<Seq<u8>>;

/// The update that `lwk_wollet::Update::deserialize` reads out of bytes, or `None` where it refuses
/// them.
pub uninterp spec fn decoded_update(bytes: Seq<u8>) -> Option<lwk_wollet::Update>;

/// The bytes that the cipher of `lwk_wollet::WolletDescriptor::cipher` decrypts with a nonce, or
/// `None` where it refuses the encrypted bytes.
pub uninterp spec fn decrypted_bytes(
    nonce: Seq<u8>,
    encrypted: Seq<u8>,
    desc: lwk_wollet::WolletDescriptor,
) -> Option<Seq<u8>>;

/// The bytes that an entry of the store is decrypted to: it begins with the nonce.
pub open spec fn decrypted_entry(sealed: Seq<u8>, desc: lwk_wollet::WolletDescriptor) -> Option<
    Seq<u8>,
> {
    decrypted_bytes(
        sealed.subrange(0, NONCE_LEN as int),
        sealed.subrange(NONCE_LEN as int, sealed.len() as int),
        desc,
    )
}

/// The update in an entry of the store. There is none where the entry cannot be decrypted, or where
/// what it is decrypted to is refused or cannot be handed to the decoder.
pub open spec fn opened_update(sealed: Seq<u8>, desc: lwk_wollet::WolletDescriptor) -> Option<
    lwk_wollet::Update,
> {
    match decrypted_entry(sealed, desc) {
        Some(bytes) => if sound_encoding(bytes) {
            decoded_update(bytes)
        } else {
            None
        },
        None => None,
    }
}

/// Whether an update can be encrypted: it can be written in not more bytes than the cipher takes.
pub open spec fn sealable(update: lwk_wollet::Update) -> bool {
    &&& update_encoding(update) matches Some(bytes)
    &&& bytes.len() <= MAX_ENCRYPTED_LEN
}

/// Whether the encoding of an update is decoded to the update itself.
pub open spec fn stable_update(update: lwk_wollet::Update) -> bool {
    &&& update_encoding(update) matches Some(bytes)
    &&& sound_encoding(bytes)
    &&& decoded_update(bytes) == Some(update)
}

/// Calls `lwk_wollet::Update::serialize_encrypted`, whose nonce is random. Claimed: just the updates
/// that can be written and are not too long are encrypted; and the bytes begin with a nonce, with
/// which the rest is decrypted to the encoding of the update.
#[verifier::external_body]
fn encrypt_update(update: &lwk_wollet::Update, desc: &lwk_wollet::WolletDescriptor) -> (r: Option<
    Vec<u8>,
>)
    ensures
        r is Some == sealable(*update),
        r matches Some(sealed) ==> sealed@.len() >= NONCE_LEN,
        r matches Some(sealed) ==> decrypted_entry(sealed@, *desc) == update_encoding(*update),
{
    update.serialize_encrypted(desc).ok()
}

/// Decrypts with the cipher that `lwk_wollet::WolletDescriptor::cipher` hands out. Claimed: the
/// result depends on the nonce, the encrypted bytes and the descriptor alone. A nonce of another
/// length than the cipher's is left out: with it the call does not return.
#[verifier::external_body]
fn decrypt_bytes(nonce: &[u8], encrypted: &[u8], desc: &lwk_wollet::WolletDescriptor) -> (r: Option<
    Vec<u8>,
>)
    requires
        nonce@.len() == NONCE_LEN,
    ensures
        match r {
            Some(bytes) => decrypted_bytes(nonce@, encrypted@, *desc) == Some(bytes@),
            None => decrypted_bytes(nonce@, encrypted@, *desc) is None,
        },
{
    let mut bytes = encrypted.to_vec();
    desc.cipher().decrypt_in_place(Nonce::from_slice(nonce), b"", &mut bytes).ok()?;
    Some(bytes)
}

/// Calls `lwk_wollet::Update::deserialize_decrypted`. Claimed: the update is the one that the
/// decrypted bytes are decoded to, and its own encoding is decoded to it. Left out are entries
/// without a whole nonce, and entries that are decrypted to bytes that cannot be handed to the
/// decoder: with them the call does not return.
#[verifier::external_body]
fn decrypt_update(sealed: &Vec<u8>, desc: &lwk_wollet::WolletDescriptor) -> (r: Option<
    lwk_wollet::Update,
>)
    requires
        sealed@.len() >= NONCE_LEN,
        decrypted_entry(sealed@, *desc) matches Some(bytes) ==> sound_encoding(bytes),
    ensures
        match r {
            Some(update) => opened_update(sealed@, *desc) == Some(update),
            None => decrypted_entry(sealed@, *desc) matches Some(bytes) ==> decoded_update(bytes)
                is None,
        },
        r matches Some(update) ==> stable_update(update),
{
    lwk_wollet::Update::deserialize_decrypted(sealed, desc).ok()
}

/// The greatest of the keys that could be read. `None` where there is none.
pub open spec fn max_index(keys: Seq<Option<u32>>) -> Option<u32>
    decreases keys.len(),
{
    if keys.len() == 0 {
        None
    } else {
        match (keys.last(), max_index(keys.drop_last())) {
            (Some(key), Some(max)) => Some(
                if key > max {
                    key
                } else {
                    max
                },
            ),
            (Some(key), None) => Some(key),
            (None, max) => max,
        }
    }
}

/// The greatest key is one of the keys, and none is greater; there is none only where no key could
/// be read.
pub proof fn law_max_index_is_greatest(keys: Seq<Option<u32>>)
    ensures
        match max_index(keys) {
            Some(max) => {
                &&& keys.contains(Some(max))
                &&& forall|i: int|
                    0 <= i < keys.len() ==> ((#[trigger] keys[i]) matches Some(key) ==> key <= max)
            },
            None => forall|i: int| 0 <= i < keys.len() ==> #[trigger] keys[i] is None,
        },
    decreases keys.len(),
{
    if keys.len() > 0 {
        let front = keys.drop_last();
        law_max_index_is_greatest(front);
        assert forall|i: int| 0 <= i < front.len() implies front[i] == keys[i] by {}
        assert(keys[keys.len() - 1] == keys.last());
        if let Some(max) = max_index(front) {
            let i = choose|i: int| 0 <= i < front.len() && front[i] == Some(max);
            assert(keys[i] == Some(max));
        }
        assert forall|i: int| 0 <= i < keys.len() implies ((#[trigger] keys[i]) matches Some(key)
            ==> max_index(keys) matches Some(max) && key <= max) by {
            if i < front.len() {
                assert(front[i] == keys[i]);
            }
        }
    }
}

/// The greatest of the keys that could be read. `None` where there is none.
pub fn get_max_index(keys: &Vec<Option<u32>>) -> (r: Option<u32>)
    ensures
        r == max_index(keys@),
{
    let mut max: Option<u32> = None;
    for i in 0..keys.len()
        invariant
            max == max_index(keys@.take(i as int)),
    {
        assert(keys@.take(i + 1).drop_last() =~= keys@.take(i as int));
        if let Some(key) = keys[i] {
            match max {
                Some(known) => if key > known {
                    max = Some(key);
                },
                None => {
                    max = Some(key);
                },
            }
        }
    }
    assert(keys@.take(keys@.len() as int) =~= keys@);
    max
}

/// Why an update is not stored.
#[derive(Clone, Copy, Debug, PartialEq, Eq, Structural)]
pub enum IndexError {
    /// The index would leave a gap behind the greatest one.
    Gap { index: u32, max_index: u32 },
    /// The first index is not zero.
    NotFirst { index: u32 },
}

/// Why an update may not be stored at an index, where it may not: the first index is zero, and no
/// index lies more than one behind the greatest so far.
pub open spec fn index_refusal(index: u32, max_index: Option<u32>) -> Option<IndexError> {
    match max_index {
        Some(max) => if index > max + 1 {
            Some(IndexError::Gap { index, max_index: max })
        } else {
            None
        },
        None => if index != 0 {
            Some(IndexError::NotFirst { index })
        } else {
            None
        },
    }
}

/// Whether the stored updates are to be thrown away: their number does not fit the greatest index.
pub open spec fn has_gap(count: nat, max_index: Option<u32>) -> bool {
    max_index matches Some(max) && max + 1 != count
}

/// What is loaded from the store.
pub enum Loaded {
    /// The updates, in their order.
    Updates(Vec<lwk_wollet::Update>),
    /// Nothing: there is a gap, and the store is to be cleared.
    Clear,
}

/// Why nothing is loaded from the store.
pub enum LoadError {
    /// An entry could not be read.
    Entry(String),
    /// An entry could not be decrypted or decoded.
    Deserialize,
}

/// Whether the first entries of the store could be read and decrypted to the given updates.
pub open spec fn entries_opened(
    entries: Seq<Result<Vec<u8>, String>>,
    desc: lwk_wollet::WolletDescriptor,
    updates: Seq<lwk_wollet::Update>,
) -> bool {
    &&& updates.len() <= entries.len()
    &&& forall|i: int|
        0 <= i < updates.len() ==> {
            &&& (#[trigger] entries[i]) matches Ok(sealed)
            &&& opened_update(sealed@, desc) == Some(updates[i])
            &&& stable_update(updates[i])
        }
}

/// Whether an entry is the first that cannot be loaded, and why.
pub open spec fn first_failure(
    entries: Seq<Result<Vec<u8>, String>>,
    desc: lwk_wollet::WolletDescriptor,
    at: int,
    error: LoadError,
) -> bool {
    &&& 0 <= at < entries.len()
    &&& forall|i: int|
        0 <= i < at ==> ((#[trigger] entries[i]) matches Ok(sealed) && opened_update(
            sealed@,
            desc,
        ) is Some)
    &&& match entries[at] {
        Ok(sealed) => opened_update(sealed@, desc) is None && error is Deserialize,
        Err(said) => error matches LoadError::Entry(e) && e@ == said@,
    }
}

/// Keeps the updates of the wallet whose descriptor is `desc` in a database.
pub struct IndexedDbWalletStorage {
    pub db_name: String,
    pub desc: lwk_wollet::WolletDescriptor,
}

impl IndexedDbWalletStorage {
    /// The storage for a wallet that works in the given directory.
    pub fn new(working_dir: &str, desc: lwk_wollet::WolletDescriptor) -> (r: IndexedDbWalletStorage)
        ensures
            r.db_name@ == working_dir@ + "-wallet-cache"@,
            r.desc == desc,
    {
        IndexedDbWalletStorage { db_name: joined(working_dir, "-wallet-cache"), desc }
    }

    /// Encrypts an update for the store.
    pub fn seal_update(&self, update: &lwk_wollet::Update) -> (r: Option<Vec<u8>>)
        ensures
            r is Some == sealable(*update),
            r matches Some(sealed) ==> sealed@.len() >= NONCE_LEN,
            r matches Some(sealed) ==> decrypted_entry(sealed@, self.desc) == update_encoding(
                *update,
            ),
    {
        encrypt_update(update, &self.desc)
    }

    /// Decrypts an entry of the store and decodes the update in it. An entry that is decrypted to
    /// bytes that cannot be handed to the decoder is refused.
    pub fn open_update(&self, sealed: &Vec<u8>) -> (r: Option<lwk_wollet::Update>)
        requires
            sealed@.len() >= NONCE_LEN,
        ensures
            match r {
                Some(update) => opened_update(sealed@, self.desc) == Some(update)
                    && stable_update(update),
                None => opened_update(sealed@, self.desc) is None,
            },
    {
        let nonce = slice_subrange(sealed.as_slice(), 0, NONCE_LEN);
        let encrypted = slice_subrange(sealed.as_slice(), NONCE_LEN, sealed.len());
        match decrypt_bytes(nonce, encrypted, &self.desc) {
            Some(bytes) => if is_sound(&bytes) {
                decrypt_update(sealed, &self.desc)
            } else {
                None
            },
            None => None,
        }
    }

    /// Says whether an update may be stored at an index, for the keys that the store holds.
    pub fn persist_update(&self, index: u32, keys: &Vec<Option<u32>>) -> (r: Result<
        (),
        IndexError,
    >)
        requires
            max_index(keys@) != Some(u32::MAX),
        ensures
            match index_refusal(index, max_index(keys@)) {
                Some(error) => r == Err::<(), IndexError>(error),
                None => r is Ok,
            },
    {
        match get_max_index(keys) {
            Some(max) => {
                if index > max + 1 {
                    return Err(IndexError::Gap { index, max_index: max });
                }
            },
            None => {
                if index != 0 {
                    return Err(IndexError::NotFirst { index });
                }
            },
        }
        Ok(())
    }

    /// Decrypts the entries of the store, for the keys that it holds. Where there is a gap, nothing
    /// is decrypted and the store is to be cleared.
    pub fn load_updates(
        &self,
        entries: &Vec<Result<Vec<u8>, String>>,
        keys: &Vec<Option<u32>>,
    ) -> (r: Result<Loaded, LoadError>)
        requires
            max_index(keys@) is Some ==> 0 < entries@.len() <= u32::MAX,
            forall|i: int|
                0 <= i < entries@.len() ==> ((#[trigger] entries@[i]) matches Ok(sealed)
                    ==> sealed@.len() >= NONCE_LEN),
        ensures
            match r {
                Ok(Loaded::Clear) => has_gap(entries@.len(), max_index(keys@)),
                Ok(Loaded::Updates(updates)) => {
                    &&& !has_gap(entries@.len(), max_index(keys@))
                    &&& updates@.len() == entries@.len()
                    &&& entries_opened(entries@, self.desc, updates@)
                },
                Err(error) => {
                    &&& !has_gap(entries@.len(), max_index(keys@))
                    &&& exists|at: int| #[trigger]
                        first_failure(entries@, self.desc, at, error)
                },
            },
    {
        if let Some(max) = get_max_index(keys) {
            if max != entries.len() as u32 - 1 {
                return Ok(Loaded::Clear);
            }
        }
        let mut updates: Vec<lwk_wollet::Update> = Vec::new();
        for i in 0..entries.len()
            invariant
                updates@.len() == i,
                entries_opened(entries@, self.desc, updates@),
                forall|j: int|
                    0 <= j < entries@.len() ==> ((#[trigger] entries@[j]) matches Ok(sealed)
                        ==> sealed@.len() >= NONCE_LEN),
                !has_gap(entries@.len(), max_index(keys@)),
        {
            match &entries[i] {
                Ok(sealed) => match self.open_update(sealed) {
                    Some(update) => {
                        updates.push(update);
                    },
                    None => {
                        let error = LoadError::Deserialize;
                        assert(first_failure(entries@, self.desc, i as int, error));
                        return Err(error);
                    },
                },
                Err(said) => {
                    let error = LoadError::Entry(said.clone());
                    assert(first_failure(entries@, self.desc, i as int, error));
                    return Err(error);
                },
            }
        }
        Ok(Loaded::Updates(updates))
    }
}

/// Updates in memory, and what is to be stored of them.
pub struct AsyncLwkPersister<U> {
    updates: Vec<U>,
}

impl<U> View for AsyncLwkPersister<U> {
    type V = Seq<U>;

    closed spec fn view(&self) -> Seq<U> {
        self.updates@
    }
}

/// The updates after one was put at an index: in the place of the one that stood there, or behind
/// all others.
pub open spec fn updates_after<U>(updates: Seq<U>, update: U, write_index: usize) -> Seq<U> {
    if write_index < updates.len() {
        updates.update(write_index as int, update)
    } else {
        updates.push(update)
    }
}

impl<U: Clone> AsyncLwkPersister<U> {
    /// Holds the updates that were loaded.
    pub fn new(updates: Vec<U>) -> (r: AsyncLwkPersister<U>)
        ensures
            r@ == updates@,
    {
        AsyncLwkPersister { updates }
    }

    /// The update at an index, where there is one.
    pub fn get(&self, index: usize) -> (r: Option<&U>)
        ensures
            match r {
                Some(update) => index < self@.len() && *update == self@[index as int],
                None => index >= self@.len(),
            },
    {
        if index < self.updates.len() {
            Some(&self.updates[index])
        } else {
            None
        }
    }

    /// The last update, where there is one.
    pub fn last(&self) -> (r: Option<&U>)
        ensures
            match r {
                Some(update) => self@.len() > 0 && *update == self@.last(),
                None => self@.len() == 0,
            },
    {
        if self.updates.len() > 0 {
            Some(&self.updates[self.updates.len() - 1])
        } else {
            None
        }
    }

    /// How many updates there are.
    pub fn len(&self) -> (r: usize)
        ensures
            r == self@.len(),
    {
        self.updates.len()
    }

    /// Puts an update at an index, and says what is to be stored: a copy of the update, and the
    /// index.
    pub fn push(&mut self, update: U, write_index: usize) -> (r: (U, u32))
        ensures
            final(self)@ == updates_after(old(self)@, update, write_index),
            cloned(update, r.0),
            r.1 == write_index as u32,
    {
        let job = (update.clone(), write_index as u32);
        if write_index < self.updates.len() {
            self.updates.set(write_index, update);
        } else {
            self.updates.push(update);
        }
        job
    }

    /// Forgets all updates.
    pub fn clear(&mut self)
        ensures
            final(self)@ == Seq::<U>::empty(),
    {
        self.updates.clear();
    }
}

/// The wallet's cache.
pub struct AsyncWalletCachePersister<U> {
    pub lwk_persister: AsyncLwkPersister<U>,
}

impl<U: Clone> AsyncWalletCachePersister<U> {
    /// A cache that holds the updates that were loaded.
    pub fn new(updates: Vec<U>) -> (r: AsyncWalletCachePersister<U>)
        ensures
            r.lwk_persister@ == updates@,
    {
        AsyncWalletCachePersister { lwk_persister: AsyncLwkPersister::new(updates) }
    }

    /// The updates in memory.
    pub fn get_lwk_persister(&self) -> (r: &AsyncLwkPersister<U>)
        ensures
            *r == self.lwk_persister,
    {
        &self.lwk_persister
    }

    /// Forgets the updates in memory once those in the store are gone; where clearing the store has
    /// failed, they stay.
    pub fn clear_cache(&mut self, cleared: Result<(), String>) -> (r: Result<(), String>)
        ensures
            r == cleared,
            final(self).lwk_persister@ == if cleared is Ok {
                Seq::<U>::empty()
            } else {
                old(self).lwk_persister@
            },
    {
        if cleared.is_ok() {
            self.lwk_persister.clear();
        }
        cleared
    }
}

/// The task that stores updates. It gives up for good as soon as one cannot be stored: an update
/// that is stored after one that is not may leave the store inconsistent.
#[derive(Clone, Copy, Debug, PartialEq, Eq, Structural)]
pub struct PersistTask {
    pub active: bool,
}

impl PersistTask {
    /// A task that has not failed yet.
    pub fn new() -> (r: PersistTask)
        ensures
            r.active,
    {
        PersistTask { active: true }
    }

    /// Takes note of whether an update was stored, and says whether the task goes on.
    pub fn stored(&mut self, success: bool) -> (r: bool)
        ensures
            final(self).active == (old(self).active && success),
            r == final(self).active,
    {
        self.active = self.active && success;
        self.active
    }
}

} // verus!
