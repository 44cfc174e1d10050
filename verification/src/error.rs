//! The errors of the application, with the text that each one shows.

use vstd::prelude::*;

verus! {

/// Anything that can go wrong. A variant that passes on the failure of another
/// component carries that component's own text.
#[derive(Clone, Debug, PartialEq, Eq)]
pub enum Error {
    /// Key not set (secret key or public key)
    KeyNotSet,
    /// No unsaved changes to save
    KeyNoChangeToSave,
    /// Saving not allowed
    KeySaveNotAllowed,
    /// Loading not allowed
    KeyLoadNotAllowed,
    /// Key error
    KeyError(String),
    /// Secp256k1 key error
    KeyErrorSecp256k1(String),
    /// Invalid encrypted key
    KeyInvalidEncrypted,
    /// Encryption error
    KeyEncryption,
    /// Invalid encryption version
    KeyInvalidEncryptionVersion,
    /// Mandatory encryption password missing
    KeyEncryptionPasswordMissing,
    /// Encryption passwords don't match
    KeyEncryptionPasswordMismatch,
    /// Invalid BIP39 mnemonic
    KeyMnemonic(String),
    /// BIP32 key derivation error
    KeyDerivation(String),
    /// Nip19 error
    SignatureError(String),
    /// Nip26 error
    Nip26Error(String),
    /// IO error, e.g. file/folder error
    IoError(String),
    /// JSON serialization error
    JsonError(String),
    /// Nostr connect error (NIP-46)
    Nip46Error(String),
    /// Relay client error
    RelayClientError(String),
    /// Signer is already connected, disconnect first
    SignerAlreadyConnected,
    /// Internal event queue receive error
    InternalEventQueueReceive,
    /// Internal event queue send error
    InternalEventQueueSend,
    /// Internal EventBuilder error
    EventBuilderError(String),
}

/// The text that an error shows.
pub open spec fn error_text(error: Error) -> Seq<char> {
    match error {
        Error::KeyNotSet => "Key not set"@,
        Error::KeyNoChangeToSave => "No changes to save"@,
        Error::KeySaveNotAllowed => "Saving not allowed, check settings"@,
        Error::KeyLoadNotAllowed => "Loading not allowed, check settings"@,
        Error::KeyError(text) => text@,
        Error::KeyErrorSecp256k1(text) => text@,
        Error::KeyInvalidEncrypted => "Invalid encrypted key"@,
        Error::KeyEncryption => "Encryption error"@,
        Error::KeyInvalidEncryptionVersion => "Invalid encryption version"@,
        Error::KeyEncryptionPasswordMissing =>
            "Mandatory encryption password missing. Check password and security settings"@,
        Error::KeyEncryptionPasswordMismatch => "Encryption passwords don't match"@,
        Error::KeyMnemonic(text) => text@,
        Error::KeyDerivation(text) => text@,
        Error::SignatureError(text) => text@,
        Error::Nip26Error(text) => text@,
        Error::IoError(text) => text@,
        Error::JsonError(text) => text@,
        Error::Nip46Error(text) => text@,
        Error::RelayClientError(text) => text@,
        Error::SignerAlreadyConnected => "Signer is already connected, disconnect first"@,
        Error::InternalEventQueueReceive => "receiving on an empty and disconnected channel"@,
        Error::InternalEventQueueSend => "Internal event queue send error"@,
        Error::EventBuilderError(text) => text@,
    }
}

impl Error {
    /// The text that this error shows.
    pub fn message(&self) -> (res: String)
        ensures
            res@ == error_text(*self),
    {
        match self {
            Error::KeyNotSet => "Key not set".to_owned(),
            Error::KeyNoChangeToSave => "No changes to save".to_owned(),
            Error::KeySaveNotAllowed => "Saving not allowed, check settings".to_owned(),
            Error::KeyLoadNotAllowed => "Loading not allowed, check settings".to_owned(),
            Error::KeyError(text) => text.clone(),
            Error::KeyErrorSecp256k1(text) => text.clone(),
            Error::KeyInvalidEncrypted => "Invalid encrypted key".to_owned(),
            Error::KeyEncryption => "Encryption error".to_owned(),
            Error::KeyInvalidEncryptionVersion => "Invalid encryption version".to_owned(),
            Error::KeyEncryptionPasswordMissing =>
                "Mandatory encryption password missing. Check password and security settings".to_owned(),
            Error::KeyEncryptionPasswordMismatch => "Encryption passwords don't match".to_owned(),
            Error::KeyMnemonic(text) => text.clone(),
            Error::KeyDerivation(text) => text.clone(),
            Error::SignatureError(text) => text.clone(),
            Error::Nip26Error(text) => text.clone(),
            Error::IoError(text) => text.clone(),
            Error::JsonError(text) => text.clone(),
            Error::Nip46Error(text) => text.clone(),
            Error::RelayClientError(text) => text.clone(),
            Error::SignerAlreadyConnected => "Signer is already connected, disconnect first".to_owned(),
            Error::InternalEventQueueReceive => "receiving on an empty and disconnected channel".to_owned(),
            Error::InternalEventQueueSend => "Internal event queue send error".to_owned(),
            Error::EventBuilderError(text) => text.clone(),
        }
    }
}

} // verus!
