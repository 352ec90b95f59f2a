use aes_gcm_siv::aead::AeadInPlace;
use aes_gcm_siv::Nonce;
use breez_nwc::update_bytes::is_sound;
use breez_nwc::wallet_cache::{
    get_max_index, AsyncLwkPersister, AsyncWalletCachePersister, IndexError,
    IndexedDbWalletStorage, LoadError, Loaded, PersistTask, IDB_STORE_NAME,
};
use lwk_wollet::elements::{BlockExtData, BlockHash, BlockHeader, Script, TxMerkleNode};
use lwk_wollet::{Chain, DownloadTxResult, Update, WolletDescriptor};
use std::collections::BTreeMap;
use std::str::FromStr;

const DESCRIPTOR: &str = "ct(slip77(ab5824f4477b4ebb00a132adfd8eb0b7935cf24f6ac151add5d1913db374ce92),elwpkh([759db348/84'/1'/0']tpubDCRMaF33e44pcJj534LXVhFbHibPbJ5vuLhSSPFAw57kYURv4tzXFL6LSnd78bkjqdmE3USedkbpXJUPA1tdzKfuYSL7PianceqAhwL2UkA/<0;1>/*))#cch6wrnp";

fn descriptor() -> WolletDescriptor {
    WolletDescriptor::from_str(DESCRIPTOR).unwrap()
}

fn storage() -> IndexedDbWalletStorage {
    IndexedDbWalletStorage::new("test-load-updates", descriptor())
}

fn lwk_update(height: u32) -> Update {
    Update {
        version: 1,
        wollet_status: 1,
        new_txs: DownloadTxResult::default(),
        txid_height_new: Vec::new(),
        txid_height_delete: Vec::new(),
        timestamps: Vec::new(),
        scripts_with_blinding_pubkey: Vec::new(),
        tip: BlockHeader {
            version: 0x20000000,
            prev_blockhash: <BlockHash as lwk_wollet::elements::hashes::Hash>::all_zeros(),
            merkle_root: <TxMerkleNode as lwk_wollet::elements::hashes::Hash>::all_zeros(),
            time: 0,
            height,
            ext: BlockExtData::Proof { challenge: Script::new(), solution: Script::new() },
        },
    }
}

/// An entry that the wallet's cipher decrypts to the given bytes.
fn entry_of(bytes: &[u8]) -> Vec<u8> {
    let mut entry = vec![7; 12];
    let mut encrypted = bytes.to_vec();
    descriptor()
        .cipher()
        .encrypt_in_place(Nonce::from_slice(&entry), b"", &mut encrypted)
        .unwrap();
    entry.append(&mut encrypted);
    entry
}

/// A store of numbered entries, in memory.
struct Store {
    entries: BTreeMap<u32, Vec<u8>>,
}

impl Store {
    fn keys(&self) -> Vec<Option<u32>> {
        self.entries.keys().map(|key| Some(*key)).collect()
    }

    fn persist(&mut self, storage: &IndexedDbWalletStorage, update: Update, index: u32) -> bool {
        let sealed = storage.seal_update(&update).unwrap();
        if storage.persist_update(index, &self.keys()).is_err() {
            return false;
        }
        self.entries.insert(index, sealed);
        true
    }

    fn load(&mut self, storage: &IndexedDbWalletStorage) -> Vec<Update> {
        let entries: Vec<Result<Vec<u8>, String>> = self.entries.values().cloned().map(Ok).collect();
        match storage.load_updates(&entries, &self.keys()) {
            Ok(Loaded::Updates(updates)) => updates,
            Ok(Loaded::Clear) => {
                self.entries.clear();
                Vec::new()
            }
            Err(_) => panic!("the store should be readable"),
        }
    }
}

#[test]
fn test_load_updates() {
    let storage = storage();
    let mut store = Store { entries: BTreeMap::new() };

    // Non-contiguous keys are prevented (first index is 0)
    assert!(!store.persist(&storage, lwk_update(1), 1));
    assert!(store.load(&storage).is_empty());

    assert!(store.persist(&storage, lwk_update(5), 0));
    assert!(store.persist(&storage, lwk_update(10), 1));

    // Overwriting is allowed
    assert!(store.persist(&storage, lwk_update(15), 1));

    let updates = store.load(&storage);
    assert_eq!(updates, vec![lwk_update(5), lwk_update(15)]);

    // Non-contiguous keys are prevented
    assert!(!store.persist(&storage, lwk_update(10), 3));
    assert_eq!(store.load(&storage).len(), 2);

    // If for any reason there is a gap, the cache is cleared on load
    assert!(store.persist(&storage, lwk_update(15), 2));
    store.entries.remove(&1);
    assert_eq!(store.load(&storage).len(), 0);
    assert!(store.entries.is_empty());
}

#[test]
fn storage_is_named_after_its_directory() {
    let storage = storage();
    assert_eq!(storage.db_name, "test-load-updates-wallet-cache");
    assert_eq!(storage.desc.to_string(), DESCRIPTOR);
    assert_eq!(IDB_STORE_NAME, "BREEZ_SDK_LIQUID_WALLET_CACHE_STORE");
}

#[test]
fn greatest_key_is_found() {
    assert_eq!(get_max_index(&vec![]), None);
    assert_eq!(get_max_index(&vec![None, None]), None);
    assert_eq!(get_max_index(&vec![Some(3), None, Some(7), Some(0)]), Some(7));
}

#[test]
fn refused_indices_are_explained() {
    let storage = storage();
    assert_eq!(storage.persist_update(2, &vec![]), Err(IndexError::NotFirst { index: 2 }));
    assert_eq!(storage.persist_update(0, &vec![]), Ok(()));
    assert_eq!(storage.persist_update(0, &vec![None]), Ok(()));
    let keys = vec![Some(0), Some(1)];
    assert_eq!(
        storage.persist_update(3, &keys),
        Err(IndexError::Gap { index: 3, max_index: 1 })
    );
    assert_eq!(storage.persist_update(2, &keys), Ok(()));
    assert_eq!(storage.persist_update(0, &keys), Ok(()));
}

#[test]
fn sealed_update_is_opened_for_its_wallet_alone() {
    let storage = storage();
    let sealed = storage.seal_update(&lwk_update(9)).unwrap();
    assert_ne!(sealed, lwk_update(9).serialize().unwrap());
    let mut other = storage;
    let keys = vec![Some(0)];
    match other.load_updates(&vec![Ok(sealed.clone())], &keys) {
        Ok(Loaded::Updates(updates)) => assert_eq!(updates, vec![lwk_update(9)]),
        _ => panic!("the update should be loaded"),
    }
    let text = DESCRIPTOR.replace("<0;1>", "0");
    other.desc = WolletDescriptor::from_str(text.split('#').next().unwrap()).unwrap();
    assert!(matches!(
        other.load_updates(&vec![Ok(sealed)], &keys),
        Err(LoadError::Deserialize)
    ));
}

#[test]
fn unreadable_entries_are_reported() {
    let storage = storage();
    let sealed = storage.seal_update(&lwk_update(9)).unwrap();
    let entries = vec![Ok(sealed), Err("no bytes".to_string())];
    match storage.load_updates(&entries, &vec![Some(0), Some(1)]) {
        Err(LoadError::Entry(error)) => assert_eq!(error, "no bytes"),
        _ => panic!("the second entry cannot be read"),
    }
    let entries = vec![Ok(vec![0; 12]), Err("no bytes".to_string())];
    assert!(matches!(
        storage.load_updates(&entries, &vec![Some(0), Some(1)]),
        Err(LoadError::Deserialize)
    ));
    match storage.load_updates(&Vec::new(), &Vec::new()) {
        Ok(Loaded::Updates(updates)) => assert!(updates.is_empty()),
        _ => panic!("an empty store is loaded"),
    }
}

#[test]
fn update_that_cannot_be_written_is_refused() {
    let storage = storage();
    let mut unwritable = lwk_update(1);
    unwritable.version = 2;
    unwritable.scripts_with_blinding_pubkey.push((Chain::External, 0u32.into(), Script::new(), None));
    assert!(storage.seal_update(&unwritable).is_none());
}

#[test]
fn stored_update_is_loaded_at_its_index() {
    let storage = storage();
    let mut store = Store { entries: BTreeMap::new() };
    let mut loaded: Vec<Update> = Vec::new();
    for (index, height) in [(0, 5), (1, 6), (2, 7), (1, 8), (0, 9), (3, 10)] {
        assert!(store.persist(&storage, lwk_update(height), index));
        let mut expected = loaded;
        if (index as usize) < expected.len() {
            expected[index as usize] = lwk_update(height);
        } else {
            expected.push(lwk_update(height));
        }
        loaded = store.load(&storage);
        assert_eq!(loaded, expected);
    }
    assert_eq!(loaded.len(), 4);
}

#[test]
fn update_of_a_later_version_is_stored_but_not_loaded() {
    let storage = storage();
    let mut later = lwk_update(1);
    later.version = 3;
    let sealed = storage.seal_update(&later).unwrap();
    assert!(storage.open_update(&sealed).is_none());
}

#[test]
fn opened_update_is_stored_and_loaded_again() {
    let storage = storage();
    let mut update = lwk_update(12);
    update.timestamps.push((12, 44));
    update.scripts_with_blinding_pubkey.push((Chain::Internal, 3u32.into(), Script::new(), None));
    let opened = storage.open_update(&storage.seal_update(&update).unwrap()).unwrap();
    assert_eq!(opened, update);
    let again = storage.open_update(&storage.seal_update(&opened).unwrap()).unwrap();
    assert_eq!(again, opened);
}

#[test]
fn entry_with_an_impossible_count_is_refused() {
    let storage = storage();
    let bytes: [u8; 16] =
        [0x89, 0x61, 0xb8, 0xc8, 0, 0, 0, 255, 255, 255, 255, 255, 255, 255, 255, 255];
    assert!(!is_sound(&bytes.to_vec()));
    assert!(storage.open_update(&entry_of(&bytes)).is_none());
    assert!(matches!(
        storage.load_updates(&vec![Ok(entry_of(&bytes))], &vec![Some(0)]),
        Err(LoadError::Deserialize)
    ));
    for empty_lists in 1..4 {
        let mut bytes = vec![0x89, 0x61, 0xb8, 0xc8, 0, 0, 0];
        bytes.extend(vec![0; empty_lists]);
        bytes.extend([255; 9]);
        assert!(!is_sound(&bytes));
        assert!(storage.open_update(&entry_of(&bytes)).is_none());
    }
}

#[test]
fn entry_with_a_factor_out_of_range_is_refused() {
    let storage = storage();
    for (factor, others) in [(68..100, 108..140), (108..140, 68..100)] {
        let mut bytes = vec![0x89, 0x61, 0xb8, 0xc8, 0, 0, 1];
        let mut unblinded = vec![0; 140];
        unblinded[others].fill(1);
        unblinded[factor].fill(255);
        bytes.append(&mut unblinded);
        assert!(!is_sound(&bytes));
        assert!(storage.open_update(&entry_of(&bytes)).is_none());
    }
}

#[test]
fn other_bytes_are_left_to_the_decoder() {
    let storage = storage();
    for bytes in [vec![], vec![1, 2, 3], vec![0x89, 0x61, 0xb8, 0xc8, 3], vec![0x89, 0x61, 0xb8, 0xc8, 1, 0]] {
        assert!(is_sound(&bytes));
        assert!(storage.open_update(&entry_of(&bytes)).is_none());
    }
    let bytes = lwk_update(1).serialize().unwrap();
    assert!(is_sound(&bytes));
    assert_eq!(storage.open_update(&entry_of(&bytes)), Some(lwk_update(1)));
    let mut short = vec![0x89, 0x61, 0xb8, 0xc8, 0, 0, 1];
    short.extend([0; 90]);
    assert!(is_sound(&short));
    assert!(storage.open_update(&entry_of(&short)).is_none());
}

#[test]
fn memory_holds_what_is_pushed() {
    let mut persister = AsyncLwkPersister::new(vec!["a".to_string()]);
    assert_eq!(persister.push("b".to_string(), 1), ("b".to_string(), 1));
    assert_eq!(persister.push("c".to_string(), 1), ("c".to_string(), 1));
    assert_eq!(persister.len(), 2);
    assert_eq!(persister.get(0).map(|s| s.as_str()), Some("a"));
    assert_eq!(persister.get(1).map(|s| s.as_str()), Some("c"));
    assert_eq!(persister.get(2), None);
    assert_eq!(persister.last().map(|s| s.as_str()), Some("c"));
    persister.clear();
    assert_eq!(persister.len(), 0);
    assert_eq!(persister.last(), None);
}

#[test]
fn cache_is_cleared_after_its_store() {
    let mut cache = AsyncWalletCachePersister::new(vec![1u8, 2]);
    assert_eq!(cache.clear_cache(Err("locked".to_string())), Err("locked".to_string()));
    assert_eq!(cache.get_lwk_persister().len(), 2);
    assert_eq!(cache.clear_cache(Ok(())), Ok(()));
    assert_eq!(cache.get_lwk_persister().len(), 0);
}

#[test]
fn storing_gives_up_for_good() {
    let mut task = PersistTask::new();
    assert!(task.stored(true));
    assert!(!task.stored(false));
    assert!(!task.stored(true));
    assert!(!task.active);
}
