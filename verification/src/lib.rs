//! Hybrid public-key encryption for a personal encrypted journal.
//!
//! The library pairs an RSA keypair (protecting a one-time symmetric key)
//! with AES-256-GCM authenticated encryption (protecting the entry body),
//! frames the pieces into a single blob, and carries the blob as base64
//! text. Key generation, encryption and decryption are stateless
//! request/response operations; all file handling lives with the caller.

pub mod aead_ops;
pub mod blob;
pub mod codec;
pub mod errors;
pub mod hybrid;
pub mod naming;
pub mod rsa_ops;
