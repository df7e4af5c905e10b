//! Key derivation: from a passphrase and a salt to an encryption key and a
//! MAC key, and the random source for salts and IVs.

use pbkdf2::pbkdf2_hmac;
use rand::RngCore;
use sha2::Sha256;
use vstd::prelude::*;
use vstd::slice::slice_subrange;
use vstd::slice::slice_to_vec;
use vstd::utf8::encode_utf8;
use zeroize::Zeroize;

verus! {

/// Number of PBKDF2 rounds.
pub const PBKDF2_ITERATIONS: u32 = 100_000;

/// Length in bytes of the salt.
pub const SALT_LEN: usize = 16;

/// Length in bytes of the encryption key.
pub const ENCRYPTION_KEY_LEN: usize = 32;

/// Length in bytes of the MAC key.
pub const MAC_KEY_LEN: usize = 32;

/// Length in bytes of the derived stream: both keys together.
pub const DERIVED_KEY_LEN: usize = 64;

/// The first `length` bytes of the PBKDF2 output stream with HMAC-SHA-256 as
/// its pseudorandom function, for a password, a salt and a number of rounds.
pub uninterp spec fn pbkdf2_hmac_sha256(
    password: Seq<u8>,
    salt: Seq<u8>,
    rounds: u32,
    length: nat,
) -> Seq<u8>;

/// The 64 bytes that a passphrase and a salt are stretched into.
pub open spec fn key_material(passphrase: Seq<char>, salt: Seq<u8>) -> Seq<u8> {
    pbkdf2_hmac_sha256(encode_utf8(passphrase), salt, PBKDF2_ITERATIONS, DERIVED_KEY_LEN as nat)
}

/// The encryption key: bytes 0 to 31 of the key material.
pub open spec fn encryption_key_for(passphrase: Seq<char>, salt: Seq<u8>) -> Seq<u8> {
    Seq::new(ENCRYPTION_KEY_LEN as nat, |i: int| key_material(passphrase, salt)[i])
}

/// The MAC key: bytes 32 to 63 of the key material.
pub open spec fn mac_key_for(passphrase: Seq<char>, salt: Seq<u8>) -> Seq<u8> {
    Seq::new(MAC_KEY_LEN as nat, |i: int| key_material(passphrase, salt)[ENCRYPTION_KEY_LEN + i])
}

/// Calls `pbkdf2::pbkdf2_hmac` with SHA-256. The call overwrites the whole
/// buffer: each chunk is cleared before the rounds are folded into it, so what
/// it holds afterwards depends on the password, the salt, the number of rounds
/// and the buffer's length alone. HMAC takes a key of any length, so the call
/// does not fail.
#[verifier::external_body]
fn pbkdf2_fill(password: &[u8], salt: &[u8], rounds: u32, out: &mut [u8; 64])
    ensures
        final(out)@ == pbkdf2_hmac_sha256(password@, salt@, rounds, 64),
{
    pbkdf2_hmac::<Sha256>(password, salt, rounds, out);
}

/// Calls `zeroize::Zeroize::zeroize` on an array of bytes, which writes the
/// default value of `u8`, zero, to every element.
#[verifier::external_body]
fn wipe_array(buf: &mut [u8; 64])
    ensures
        forall|i: int| 0 <= i < 64 ==> final(buf)@[i] == 0u8,
{
    buf.zeroize();
}

/// Calls `zeroize::Zeroize::zeroize` on a vector of bytes, which overwrites
/// the elements and the spare capacity with zeros and then clears the vector.
#[verifier::external_body]
fn wipe_vec(buf: &mut Vec<u8>)
    ensures
        final(buf)@.len() == 0,
{
    buf.zeroize();
}

/// Calls `zeroize::Zeroize::zeroize` on a string, which zeroes its bytes as
/// it does a vector's and leaves the string empty.
#[verifier::external_body]
fn wipe_string(text: &mut String)
    ensures
        final(text)@.len() == 0,
{
    text.zeroize();
}

/// Calls `rand::RngCore::fill_bytes` on the thread-local generator of
/// `rand::thread_rng`, a cryptographically secure generator seeded by the
/// operating system. Nothing is known of the bytes it writes. The generator
/// panics if the operating system gives it no seed at its first use.
#[verifier::external_body]
pub(crate) fn fill_random<const N: usize>(buf: &mut [u8; N]) {
    rand::thread_rng().fill_bytes(buf);
}

/// Splits 64 derived bytes into the encryption key, the first 32, and the
/// MAC key, the last 32, and zeroes the buffer that held them.
pub fn split_key_material(material: &mut [u8; 64]) -> (keys: (Vec<u8>, Vec<u8>))
    ensures
        keys.0@ == old(material)@.subrange(0, ENCRYPTION_KEY_LEN as int),
        keys.1@ == old(material)@.subrange(ENCRYPTION_KEY_LEN as int, DERIVED_KEY_LEN as int),
        forall|i: int| 0 <= i < DERIVED_KEY_LEN ==> final(material)@[i] == 0u8,
{
    let stream = material.as_slice();
    let encryption_key = slice_to_vec(slice_subrange(stream, 0, ENCRYPTION_KEY_LEN));
    let mac_key = slice_to_vec(slice_subrange(stream, ENCRYPTION_KEY_LEN, DERIVED_KEY_LEN));
    wipe_array(material);
    (encryption_key, mac_key)
}

/// Derives the encryption key and the MAC key from a passphrase and a salt:
/// the two halves of 64 bytes of PBKDF2-HMAC-SHA-256 output after 100,000
/// rounds over the passphrase's UTF-8 bytes. The scratch buffer that held the
/// 64 bytes is zeroed before the function returns.
pub fn derive_keys(key_input: &str, salt: &[u8; 16]) -> (keys: (Vec<u8>, Vec<u8>))
    ensures
        keys.0@ == encryption_key_for(key_input@, salt@),
        keys.1@ == mac_key_for(key_input@, salt@),
        keys.0@.len() == ENCRYPTION_KEY_LEN,
        keys.1@.len() == MAC_KEY_LEN,
{
    let mut derived_key = [0u8; 64];
    pbkdf2_fill(key_input.as_bytes(), salt.as_slice(), PBKDF2_ITERATIONS, &mut derived_key);
    assert(derived_key@ == key_material(key_input@, salt@));
    let keys = split_key_material(&mut derived_key);
    assert(keys.0@ =~= encryption_key_for(key_input@, salt@));
    assert(keys.1@ =~= mac_key_for(key_input@, salt@));
    keys
}

/// Zeroes and empties the two keys. To be called on every path that ends
/// the use of derived keys, whether it succeeded or failed.
pub fn wipe_keys(encryption_key: &mut Vec<u8>, mac_key: &mut Vec<u8>)
    ensures
        final(encryption_key)@.len() == 0,
        final(mac_key)@.len() == 0,
{
    wipe_vec(encryption_key);
    wipe_vec(mac_key);
}

/// Zeroes and empties a passphrase. The library borrows the passphrase; its
/// owner calls this once the passphrase is no longer needed.
pub fn wipe_passphrase(passphrase: &mut String)
    ensures
        final(passphrase)@.len() == 0,
{
    wipe_string(passphrase);
}

/// Draws a fresh 16-byte salt from a cryptographically secure random source.
/// Every value of the result is possible: callers learn nothing of it.
pub fn generate_salt() -> [u8; 16] {
    let mut salt = [0u8; 16];
    fill_random(&mut salt);
    salt
}

} // verus!
