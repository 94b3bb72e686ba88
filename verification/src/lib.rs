//! A bridge layer between a dynamically typed host runtime and the GPGME
//! cryptographic engine: value codecs for the native enumerations, an
//! error/result envelope, a model of the native context's configuration
//! state, and a static classification of operations by blocking behaviour.
//!
//! The native engine itself — key storage, the cryptographic transforms,
//! the subprocess round trips — is an external collaborator. What stands
//! here is everything the bridge decides on its own: how untyped host
//! values are validated and converted into exact native representations,
//! how engine answers are rendered back, what each operation does to a
//! context's configuration, and which operations may block.

pub mod context;
pub mod dispatch;
pub mod encrypt_flags;
pub mod engine;
pub mod error;
pub mod hash_algorithm;
pub mod helpers;
pub mod import_result;
pub mod key_algorithm;
pub mod keys;
pub mod notation;
pub mod pinentry_mode;
pub mod pka_trust;
pub mod protocol;
pub mod sign_mode;
pub mod validity;
pub mod value;
pub mod verification;

pub use context::ContextState;
pub use context::GetFlagResponse;
pub use error::BridgeError;
pub use error::OpResult;
pub use hash_algorithm::HashAlgorithm;
pub use key_algorithm::KeyAlgorithm;
pub use keys::KeyData;
pub use keys::keys_not_empty;
pub use pinentry_mode::PinentryMode;
pub use pka_trust::PkaTrust;
pub use protocol::Protocol;
pub use sign_mode::SignMode;
pub use validity::Validity;
pub use value::HostValue;
