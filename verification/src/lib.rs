//! Passphrase-based authenticated encryption of a text blob.
//!
//! A passphrase and a random salt are stretched into two keys ([`key`]); the
//! plaintext is encrypted and authenticated under them ([`cipher`]); salt and
//! cipher output are rendered as one printable container ([`container`]).
//! [`cli`] holds the rules of the command-line front end that need no I/O.

pub mod cipher;
pub mod key;
pub mod text;
pub mod container;
pub mod cli;
