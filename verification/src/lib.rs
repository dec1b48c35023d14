//! Authenticated encryption with ChaCha20-Poly1305 and XChaCha20-Poly1305.
//!
//! A cipher instance owns a validated 32-byte key and takes the nonce with
//! every call. Key and nonce lengths are checked before the primitive runs,
//! and every failure comes back as a typed [`error::CryptoError`].

pub mod error;
pub mod primitive;
pub mod laws;
pub mod session;
pub mod random;
pub mod chacha;

pub use chacha::{ChaCha20Poly1305, XChaCha20Poly1305};
pub use error::{CryptoError, ErrorKind};
pub use random::CryptoUtils;
