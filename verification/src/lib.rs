//! The signer side of the Nostr Connect protocol as a library without I/O:
//! the envelope codec, the request router, the queue of requests that wait
//! for the operator, and the connection state machine.

pub mod connection;
pub mod error;
pub mod keys;
pub mod keystr_model;
pub mod listen;
pub mod nip46;
pub mod pending;
pub mod relays;
pub mod router;
pub mod signer;
pub mod status_messages;
pub mod text;
