//! Signing core of a hardware-wallet application for the Vara network.
//!
//! The library holds the verified logic: the command dispatcher, the signing
//! session, the derivation-path policy, the public-key encodings and the
//! status words. The secure element's key derivation, its signing and the
//! device's screen and buttons are driven by the application around it.
pub mod apdu;
pub mod app;
pub mod encoding;
pub mod error;
pub mod get_public_key;
pub mod menu;
pub mod path;
pub mod settings;
pub mod signer;
pub mod utils;

pub use error::ErrorCode;
