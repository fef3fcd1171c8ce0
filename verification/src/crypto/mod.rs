//! Passphrase sessions and encryption of journal data.
pub mod age;
pub mod session;
pub mod temp;

pub use self::age::{decrypt_with_passphrase, encrypt_with_passphrase};
pub use self::session::SessionManager;
