//! Searches the Ed25519 keyspace for a public key whose z-base-32 encoding
//! begins with a chosen prefix, using parallel random sampling, and exports
//! the winning secret key as a passphrase-protected recovery file.

pub mod aggregate;
pub mod alphabet;
pub mod keys;
pub mod search;
pub mod validate;
