//! Session cookies sealed with authenticated encryption, and the access
//! policy that guards what users store.
//!
//! - [`crypto`] seals and opens byte strings under a 256-bit key, with a
//!   fresh nonce for every sealing.
//! - [`codec`] writes the session record as bytes and reads it back, and
//!   armors sealed bytes as text.
//! - [`sessions`] holds the key for the life of the process: it issues and
//!   resolves session cookies, and seals and opens the users' payloads.
//! - [`policies`] decides who may touch a payload and which texts may be
//!   stored.
//! - [`flow`] decides what each request leads to.
//! - [`text`] compares and trims string slices.
//!
//! Failures of format and of decryption all end as "no session" or "no
//! payload" at the manager's boundary; inside they stay apart, so that the
//! caller who logs them can tell one from another.

pub mod codec;
pub mod crypto;
pub mod flow;
pub mod policies;
pub mod sessions;
pub mod text;
