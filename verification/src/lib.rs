//! Nostr Wallet Connect for a lightning wallet: what a client asks over relays is checked,
//! decrypted, served by the wallet and answered, and clients are told of payments. Beside it stands
//! the cache of what the wallet has seen of its chain.
pub mod text;
pub mod keys;
pub mod uri;
pub mod event;
pub mod cipher;
pub mod nip47;
pub mod json;
pub mod response;
pub mod model;
pub mod handler;
pub mod directory;
pub mod exchange;
pub mod service;
pub mod plugin;
pub mod relay;
pub mod update_bytes;
pub mod wallet_cache;
pub mod random;
pub mod laws;
