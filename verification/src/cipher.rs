//! Encrypt-then-authenticate ciphers.
//!
//! A cipher turns a plaintext and two 32-byte keys into one tamper-evident
//! byte sequence, `iv ‖ ciphertext ‖ mac`, and back. The MAC covers
//! `iv ‖ ciphertext` and is checked, in constant time, before anything is
//! decrypted.

use aes::Aes256;
use cbc::cipher::block_padding::Pkcs7;
use cbc::cipher::block_padding::UnpadError;
use cbc::cipher::generic_array::GenericArray;
use cbc::cipher::inout::PadError;
use cbc::cipher::BlockDecryptMut;
use cbc::cipher::BlockEncryptMut;
use cbc::cipher::KeyIvInit;
use cbc::Decryptor;
use cbc::Encryptor;
use hmac::digest::InvalidLength;
use hmac::Hmac;
use hmac::Mac;
use sha2::Sha256;
use subtle::ConstantTimeEq;
use vstd::prelude::*;
use vstd::slice::slice_subrange;
use vstd::slice::slice_to_vec;

use crate::key::generate_salt;

verus! {

/// Length in bytes of each of the two keys.
pub const KEY_LEN: usize = 32;

/// Length in bytes of the initialization vector, and of one cipher block.
pub const BLOCK_LEN: usize = 16;

/// Length in bytes of the MAC.
pub const MAC_LEN: usize = 32;

/// Shortest cipher output: IV, one block, MAC.
pub const MIN_OUTPUT_LEN: usize = 64;

/// Why an encryption or decryption was refused.
#[derive(Debug, Clone, Copy, PartialEq, Eq, Structural)]
pub enum CipherError {
    /// A key was not exactly 32 bytes long.
    InvalidKeyLength,
    /// The input is not decodable, or is too short to hold an IV, one block
    /// and a MAC.
    InvalidContainerFormat,
    /// The MAC does not match: the data was altered or the key is wrong.
    AuthenticationFailed,
    /// The MAC matched but the ciphertext does not decrypt to padded data.
    PaddingOrDecryptionFailed,
}

/// The error of `encrypt_padded_mut`: the buffer has no room for the padding.
#[verifier::external_type_specification]
#[verifier::external_body]
pub struct ExPadError(PadError);

/// The error of `decrypt_padded_mut`: the length is no multiple of the block
/// size, or the padding is malformed.
#[verifier::external_type_specification]
#[verifier::external_body]
pub struct ExUnpadError(UnpadError);

/// The error of `new_from_slice`: the key's length is not accepted.
#[verifier::external_type_specification]
#[verifier::external_body]
pub struct ExInvalidLength(InvalidLength);

/// The ciphertext of AES-256 in CBC mode for a 32-byte key, a 16-byte IV and
/// a plaintext that is first padded by PKCS7 to whole blocks.
pub uninterp spec fn aes256_cbc_encrypt(key: Seq<u8>, iv: Seq<u8>, plaintext: Seq<u8>) -> Seq<u8>;

/// The plaintext that AES-256 in CBC mode recovers from a ciphertext and from
/// which it strips the PKCS7 padding, or `None` where the ciphertext is not a
/// whole number of blocks or the padding is malformed.
pub uninterp spec fn aes256_cbc_decrypt(key: Seq<u8>, iv: Seq<u8>, ciphertext: Seq<u8>) -> Option<
    Seq<u8>,
>;

/// The HMAC-SHA-256 tag of a message under a key.
pub uninterp spec fn hmac_sha256(key: Seq<u8>, message: Seq<u8>) -> Seq<u8>;

/// Length of the ciphertext of a plaintext of `n` bytes: PKCS7 always adds
/// between 1 and 16 bytes, up to the next multiple of 16.
pub open spec fn padded_len(n: int) -> int {
    (n / 16 + 1) * 16
}

/// Calls `encrypt_padded_mut` with PKCS7 on a CBC encryptor over AES-256,
/// made by `KeyIvInit::new`. The first `msg_len` bytes of the buffer are the
/// message. The call fails only where the buffer cannot hold the message and
/// one more block. Otherwise it returns the padded message's ciphertext,
/// which is one block longer than the whole blocks of the message and which
/// decryption under the same key and IV turns back into the message.
#[verifier::external_body]
fn cbc_encrypt_padded(key: &[u8], iv: &[u8], buffer: Vec<u8>, msg_len: usize) -> (res: Result<
    Vec<u8>,
    PadError,
>)
    requires
        key@.len() == 32,
        iv@.len() == 16,
        msg_len <= buffer@.len(),
    ensures
        res is Ok <==> padded_len(msg_len as int) <= buffer@.len(),
        res matches Ok(ciphertext) ==> ciphertext@ == aes256_cbc_encrypt(
            key@,
            iv@,
            buffer@.subrange(0, msg_len as int),
        ),
        res matches Ok(ciphertext) ==> ciphertext@.len() == padded_len(msg_len as int),
        res matches Ok(ciphertext) ==> aes256_cbc_decrypt(key@, iv@, ciphertext@) == Some(
            buffer@.subrange(0, msg_len as int),
        ),
{
    let mut buffer = buffer;
    let encryptor = Encryptor::<Aes256>::new(
        GenericArray::from_slice(key),
        GenericArray::from_slice(iv),
    );
    match encryptor.encrypt_padded_mut::<Pkcs7>(&mut buffer, msg_len) {
        Ok(ciphertext) => Ok(ciphertext.to_vec()),
        Err(e) => Err(e),
    }
}

/// Calls `decrypt_padded_mut` with PKCS7 on a CBC decryptor over AES-256,
/// made by `KeyIvInit::new`. The call fails where the buffer is not a whole
/// number of blocks or the padding found is malformed; otherwise it returns
/// the plaintext without its padding.
#[verifier::external_body]
fn cbc_decrypt_padded(key: &[u8], iv: &[u8], buffer: Vec<u8>) -> (res: Result<Vec<u8>, UnpadError>)
    requires
        key@.len() == 32,
        iv@.len() == 16,
    ensures
        match res {
            Ok(plaintext) => aes256_cbc_decrypt(key@, iv@, buffer@) == Some(plaintext@),
            Err(_) => aes256_cbc_decrypt(key@, iv@, buffer@) is None,
        },
{
    let mut buffer = buffer;
    let decryptor = Decryptor::<Aes256>::new(
        GenericArray::from_slice(key),
        GenericArray::from_slice(iv),
    );
    match decryptor.decrypt_padded_mut::<Pkcs7>(&mut buffer) {
        Ok(plaintext) => Ok(plaintext.to_vec()),
        Err(e) => Err(e),
    }
}

/// Calls `Mac::new_from_slice`, `update` and `finalize` of `Hmac<Sha256>`.
/// HMAC pads a short key and hashes a long one, so a key of any length is
/// accepted and the call returns the 32-byte tag.
#[verifier::external_body]
fn hmac_sha256_tag(key: &[u8], message: &[u8]) -> (res: Result<Vec<u8>, InvalidLength>)
    ensures
        res is Ok,
        res matches Ok(tag) ==> tag@ == hmac_sha256(key@, message@),
        res matches Ok(tag) ==> tag@.len() == MAC_LEN,
{
    match <Hmac<Sha256> as Mac>::new_from_slice(key) {
        Ok(mut mac) => {
            mac.update(message);
            Ok(mac.finalize().into_bytes().to_vec())
        },
        Err(e) => Err(e),
    }
}

/// Calls `subtle::ConstantTimeEq::ct_eq` on two byte slices and unwraps the
/// choice: 1 where the slices have the same length and the same bytes, else
/// 0. The time taken does not depend on where the slices differ.
#[verifier::external_body]
fn ct_eq_code(a: &[u8], b: &[u8]) -> (code: u8)
    ensures
        code == (if a@ == b@ { 1u8 } else { 0u8 }),
{
    a.ct_eq(b).unwrap_u8()
}

/// An authenticated cipher: two operations over a plaintext and two 32-byte
/// keys. New schemes implement this trait; callers do not change.
pub trait Cipher {
    /// The cipher output for a plaintext and two keys when `iv` is the IV
    /// drawn.
    spec fn sealed(
        &self,
        plaintext: Seq<u8>,
        encryption_key: Seq<u8>,
        mac_key: Seq<u8>,
        iv: Seq<u8>,
    ) -> Seq<u8>;

    /// What decryption makes of an input under two keys.
    spec fn opened(&self, input: Seq<u8>, encryption_key: Seq<u8>, mac_key: Seq<u8>) -> Result<
        Seq<u8>,
        CipherError,
    >;

    /// Length of the cipher output for a plaintext of `n` bytes.
    spec fn output_len(&self, n: nat) -> nat;

    /// Encrypts and authenticates a plaintext under a fresh random IV.
    ///
    /// Fails, with `InvalidKeyLength`, exactly where a key is not 32 bytes
    /// long. The output is `sealed` for the IV drawn, and decrypting it under
    /// the same keys gives the plaintext back.
    fn encrypt(&self, plaintext: &[u8], encryption_key: &[u8], mac_key: &[u8]) -> (res: Result<
        Vec<u8>,
        CipherError,
    >)
        requires
            self.output_len(plaintext@.len()) <= usize::MAX,
        ensures
            (encryption_key@.len() != KEY_LEN || mac_key@.len() != KEY_LEN) ==> res == Err::<
                Vec<u8>,
                CipherError,
            >(CipherError::InvalidKeyLength),
            (encryption_key@.len() == KEY_LEN && mac_key@.len() == KEY_LEN) ==> res is Ok,
            res matches Ok(output) ==> exists|iv: Seq<u8>|
                iv.len() == BLOCK_LEN && output@ == #[trigger] self.sealed(
                    plaintext@,
                    encryption_key@,
                    mac_key@,
                    iv,
                ),
            res matches Ok(output) ==> output@.len() == self.output_len(plaintext@.len()),
            res matches Ok(output) ==> self.opened(output@, encryption_key@, mac_key@) == Ok::<
                Seq<u8>,
                CipherError,
            >(plaintext@),
    ;

    /// Verifies and decrypts a cipher output: returns exactly `opened`.
    fn decrypt(&self, ciphertext: &[u8], encryption_key: &[u8], mac_key: &[u8]) -> (res: Result<
        Vec<u8>,
        CipherError,
    >)
        ensures
            match res {
                Ok(plaintext) => self.opened(ciphertext@, encryption_key@, mac_key@) == Ok::<
                    Seq<u8>,
                    CipherError,
                >(plaintext@),
                Err(e) => self.opened(ciphertext@, encryption_key@, mac_key@) == Err::<
                    Seq<u8>,
                    CipherError,
                >(e),
            },
    ;
}

/// AES-256 in CBC mode with PKCS7 padding, authenticated by HMAC-SHA-256.
pub struct Aes256Cbc;

/// The part of a cipher output that the MAC covers: all but the last 32
/// bytes, that is IV and ciphertext.
pub open spec fn authenticated_part(input: Seq<u8>) -> Seq<u8> {
    input.subrange(0, input.len() - MAC_LEN)
}

/// The IV of a cipher output: its first 16 bytes.
pub open spec fn iv_part(input: Seq<u8>) -> Seq<u8> {
    input.subrange(0, BLOCK_LEN as int)
}

/// The ciphertext of a cipher output: what stands between IV and MAC.
pub open spec fn ciphertext_part(input: Seq<u8>) -> Seq<u8> {
    input.subrange(BLOCK_LEN as int, input.len() - MAC_LEN)
}

/// The MAC of a cipher output: its last 32 bytes.
pub open spec fn mac_part(input: Seq<u8>) -> Seq<u8> {
    input.subrange(input.len() - MAC_LEN, input.len() as int)
}

/// The cipher output of AES-256-CBC with HMAC-SHA-256 for a given IV:
/// `iv ‖ ciphertext ‖ mac`, the MAC taken over `iv ‖ ciphertext`.
pub open spec fn aes256_cbc_sealed(
    plaintext: Seq<u8>,
    encryption_key: Seq<u8>,
    mac_key: Seq<u8>,
    iv: Seq<u8>,
) -> Seq<u8> {
    let ciphertext = aes256_cbc_encrypt(encryption_key, iv, plaintext);
    iv + ciphertext + hmac_sha256(mac_key, iv + ciphertext)
}

/// Length of the cipher output of AES-256-CBC with HMAC-SHA-256 for a
/// plaintext of `n` bytes: IV, padded ciphertext and MAC.
pub open spec fn aes256_cbc_output_len(n: nat) -> nat {
    (BLOCK_LEN + padded_len(n as int) + MAC_LEN) as nat
}

/// What AES-256-CBC with HMAC-SHA-256 makes of an input: the key lengths are
/// checked first, then the input's length, then the MAC, and only then is the
/// ciphertext decrypted and unpadded.
pub open spec fn aes256_cbc_opened(
    input: Seq<u8>,
    encryption_key: Seq<u8>,
    mac_key: Seq<u8>,
) -> Result<Seq<u8>, CipherError> {
    if encryption_key.len() != KEY_LEN || mac_key.len() != KEY_LEN {
        Err(CipherError::InvalidKeyLength)
    } else if input.len() < MIN_OUTPUT_LEN {
        Err(CipherError::InvalidContainerFormat)
    } else if hmac_sha256(mac_key, authenticated_part(input)) != mac_part(input) {
        Err(CipherError::AuthenticationFailed)
    } else {
        match aes256_cbc_decrypt(encryption_key, iv_part(input), ciphertext_part(input)) {
            Some(plaintext) => Ok(plaintext),
            None => Err(CipherError::PaddingOrDecryptionFailed),
        }
    }
}

impl Aes256Cbc {
    /// Encrypts and authenticates a plaintext under the IV given.
    ///
    /// This is `encrypt` without the random draw: the output is exactly
    /// `iv ‖ ciphertext ‖ mac`.
    pub fn encrypt_with_iv(
        &self,
        plaintext: &[u8],
        encryption_key: &[u8],
        mac_key: &[u8],
        iv: &[u8; 16],
    ) -> (res: Result<Vec<u8>, CipherError>)
        requires
            aes256_cbc_output_len(plaintext@.len()) <= usize::MAX,
        ensures
            (encryption_key@.len() != KEY_LEN || mac_key@.len() != KEY_LEN) ==> res == Err::<
                Vec<u8>,
                CipherError,
            >(CipherError::InvalidKeyLength),
            (encryption_key@.len() == KEY_LEN && mac_key@.len() == KEY_LEN) ==> res is Ok,
            res matches Ok(output) ==> output@ == aes256_cbc_sealed(
                plaintext@,
                encryption_key@,
                mac_key@,
                iv@,
            ),
            res matches Ok(output) ==> output@.len() == aes256_cbc_output_len(plaintext@.len()),
            res matches Ok(output) ==> aes256_cbc_opened(output@, encryption_key@, mac_key@)
                == Ok::<Seq<u8>, CipherError>(plaintext@),
    {
        if encryption_key.len() != KEY_LEN {
            return Err(CipherError::InvalidKeyLength);
        }
        if mac_key.len() != KEY_LEN {
            return Err(CipherError::InvalidKeyLength);
        }
        let mut buffer = slice_to_vec(plaintext);
        let pt_len: usize = buffer.len();
        buffer.resize(pt_len + BLOCK_LEN, 0);
        assert(buffer@.subrange(0, pt_len as int) == plaintext@);
        // The buffer has room for one more block, so padding does not fail.
        let ciphertext = match cbc_encrypt_padded(encryption_key, iv.as_slice(), buffer, pt_len) {
            Ok(ciphertext) => ciphertext,
            Err(_) => {
                return Err(CipherError::PaddingOrDecryptionFailed);
            },
        };

        let mut mac_input: Vec<u8> = Vec::with_capacity(BLOCK_LEN + ciphertext.len());
        mac_input.extend_from_slice(iv.as_slice());
        mac_input.extend_from_slice(ciphertext.as_slice());
        assert(mac_input@ == iv@ + ciphertext@);
        // HMAC takes a key of any length, so it does not fail.
        let tag = match hmac_sha256_tag(mac_key, mac_input.as_slice()) {
            Ok(tag) => tag,
            Err(_) => {
                return Err(CipherError::InvalidKeyLength);
            },
        };

        let mut output: Vec<u8> = Vec::with_capacity(BLOCK_LEN + ciphertext.len() + MAC_LEN);
        output.extend_from_slice(iv.as_slice());
        output.extend_from_slice(ciphertext.as_slice());
        output.extend_from_slice(tag.as_slice());
        proof {
            assert(output@ == iv@ + ciphertext@ + tag@);
            lemma_sealed_opens(plaintext@, encryption_key@, mac_key@, iv@);
        }
        Ok(output)
    }
}

impl Cipher for Aes256Cbc {
    open spec fn sealed(
        &self,
        plaintext: Seq<u8>,
        encryption_key: Seq<u8>,
        mac_key: Seq<u8>,
        iv: Seq<u8>,
    ) -> Seq<u8> {
        aes256_cbc_sealed(plaintext, encryption_key, mac_key, iv)
    }

    open spec fn opened(&self, input: Seq<u8>, encryption_key: Seq<u8>, mac_key: Seq<u8>) -> Result<
        Seq<u8>,
        CipherError,
    > {
        aes256_cbc_opened(input, encryption_key, mac_key)
    }

    open spec fn output_len(&self, n: nat) -> nat {
        aes256_cbc_output_len(n)
    }

    fn encrypt(&self, plaintext: &[u8], encryption_key: &[u8], mac_key: &[u8]) -> (res: Result<
        Vec<u8>,
        CipherError,
    >) {
        if encryption_key.len() != KEY_LEN {
            return Err(CipherError::InvalidKeyLength);
        }
        if mac_key.len() != KEY_LEN {
            return Err(CipherError::InvalidKeyLength);
        }
        let iv = generate_salt();
        let res = self.encrypt_with_iv(plaintext, encryption_key, mac_key, &iv);
        proof {
            if res is Ok {
                assert(res->Ok_0@ == self.sealed(plaintext@, encryption_key@, mac_key@, iv@));
            }
        }
        res
    }

    fn decrypt(&self, ciphertext: &[u8], encryption_key: &[u8], mac_key: &[u8]) -> (res: Result<
        Vec<u8>,
        CipherError,
    >) {
        if encryption_key.len() != KEY_LEN {
            return Err(CipherError::InvalidKeyLength);
        }
        if mac_key.len() != KEY_LEN {
            return Err(CipherError::InvalidKeyLength);
        }
        if ciphertext.len() < MIN_OUTPUT_LEN {
            return Err(CipherError::InvalidContainerFormat);
        }
        let n: usize = ciphertext.len();
        let iv = slice_subrange(ciphertext, 0, BLOCK_LEN);
        let encrypted_data = slice_subrange(ciphertext, BLOCK_LEN, n - MAC_LEN);
        let provided_mac = slice_subrange(ciphertext, n - MAC_LEN, n);

        let mut mac_input: Vec<u8> = Vec::with_capacity(n - MAC_LEN);
        mac_input.extend_from_slice(iv);
        mac_input.extend_from_slice(encrypted_data);
        assert(mac_input@ == authenticated_part(ciphertext@));
        // HMAC takes a key of any length, so it does not fail.
        let tag = match hmac_sha256_tag(mac_key, mac_input.as_slice()) {
            Ok(tag) => tag,
            Err(_) => {
                return Err(CipherError::AuthenticationFailed);
            },
        };

        // Constant-time comparison; nothing is decrypted unless it succeeds.
        if ct_eq_code(tag.as_slice(), provided_mac) == 0 {
            return Err(CipherError::AuthenticationFailed);
        }
        let buffer = slice_to_vec(encrypted_data);
        match cbc_decrypt_padded(encryption_key, iv, buffer) {
            Ok(plaintext) => Ok(plaintext),
            Err(_) => Err(CipherError::PaddingOrDecryptionFailed),
        }
    }
}

/// Round trip: where decryption by the block cipher undoes its encryption of
/// this plaintext, and ciphertext and MAC have their lengths, a sealed
/// plaintext opens to itself under the same keys.
pub proof fn lemma_sealed_opens(
    plaintext: Seq<u8>,
    encryption_key: Seq<u8>,
    mac_key: Seq<u8>,
    iv: Seq<u8>,
)
    requires
        encryption_key.len() == KEY_LEN,
        mac_key.len() == KEY_LEN,
        iv.len() == BLOCK_LEN,
        aes256_cbc_encrypt(encryption_key, iv, plaintext).len() >= BLOCK_LEN,
        hmac_sha256(mac_key, iv + aes256_cbc_encrypt(encryption_key, iv, plaintext)).len()
            == MAC_LEN,
        aes256_cbc_decrypt(
            encryption_key,
            iv,
            aes256_cbc_encrypt(encryption_key, iv, plaintext),
        ) == Some(plaintext),
    ensures
        aes256_cbc_opened(
            aes256_cbc_sealed(plaintext, encryption_key, mac_key, iv),
            encryption_key,
            mac_key,
        ) == Ok::<Seq<u8>, CipherError>(plaintext),
{
    let ciphertext = aes256_cbc_encrypt(encryption_key, iv, plaintext);
    let tag = hmac_sha256(mac_key, iv + ciphertext);
    let output = aes256_cbc_sealed(plaintext, encryption_key, mac_key, iv);
    assert(output == iv + ciphertext + tag);
    assert(authenticated_part(output) == iv + ciphertext);
    assert(mac_part(output) == tag);
    assert(iv_part(output) == iv);
    assert(ciphertext_part(output) == ciphertext);
}

/// An input with one bit flipped: bit `bit` of the byte at `index`.
pub open spec fn flip_bit(input: Seq<u8>, index: int, bit: u8) -> Seq<u8> {
    input.update(index, input[index] ^ (1u8 << bit))
}

/// Tamper detection, MAC: an input that decrypts no longer does once a bit of
/// its MAC is flipped. It is rejected with `AuthenticationFailed`.
pub proof fn lemma_flipped_mac_rejected(
    input: Seq<u8>,
    encryption_key: Seq<u8>,
    mac_key: Seq<u8>,
    index: int,
    bit: u8,
)
    requires
        aes256_cbc_opened(input, encryption_key, mac_key) is Ok,
        input.len() - MAC_LEN <= index < input.len(),
        bit < 8,
    ensures
        aes256_cbc_opened(flip_bit(input, index, bit), encryption_key, mac_key) == Err::<
            Seq<u8>,
            CipherError,
        >(CipherError::AuthenticationFailed),
{
    let altered = flip_bit(input, index, bit);
    let byte = input[index];
    assert(byte ^ (1u8 << bit) != byte) by (bit_vector)
        requires
            bit < 8,
    ;
    assert(authenticated_part(altered) == authenticated_part(input));
    let at = index - (input.len() - MAC_LEN);
    assert(mac_part(altered)[at] == altered[index]);
    assert(mac_part(input)[at] == input[index]);
}

/// Tamper detection, IV and ciphertext: once a bit of the IV or of the
/// ciphertext is flipped, the MAC is taken over other bytes than before while
/// the MAC carried stays. The input is then rejected with
/// `AuthenticationFailed`, unless the altered bytes have that very MAC.
pub proof fn lemma_flipped_body_rejected(
    input: Seq<u8>,
    encryption_key: Seq<u8>,
    mac_key: Seq<u8>,
    index: int,
    bit: u8,
)
    requires
        encryption_key.len() == KEY_LEN,
        mac_key.len() == KEY_LEN,
        input.len() >= MIN_OUTPUT_LEN,
        0 <= index < input.len() - MAC_LEN,
        bit < 8,
    ensures
        authenticated_part(flip_bit(input, index, bit)) != authenticated_part(input),
        mac_part(flip_bit(input, index, bit)) == mac_part(input),
        aes256_cbc_opened(flip_bit(input, index, bit), encryption_key, mac_key) == Err::<
            Seq<u8>,
            CipherError,
        >(CipherError::AuthenticationFailed) || hmac_sha256(
            mac_key,
            authenticated_part(flip_bit(input, index, bit)),
        ) == mac_part(input),
{
    let altered = flip_bit(input, index, bit);
    let byte = input[index];
    assert(byte ^ (1u8 << bit) != byte) by (bit_vector)
        requires
            bit < 8,
    ;
    assert(authenticated_part(altered)[index] == altered[index]);
    assert(authenticated_part(input)[index] == input[index]);
    assert(mac_part(altered) == mac_part(input));
}

/// Authentication comes first: whatever the encryption key, an input of
/// sufficient length is rejected with `AuthenticationFailed` exactly where
/// its MAC is not the MAC of its IV and ciphertext under the MAC key, and
/// nothing is returned as plaintext unless the MAC matched.
pub proof fn lemma_authenticate_then_decrypt(
    input: Seq<u8>,
    encryption_key: Seq<u8>,
    mac_key: Seq<u8>,
)
    requires
        encryption_key.len() == KEY_LEN,
        mac_key.len() == KEY_LEN,
        input.len() >= MIN_OUTPUT_LEN,
    ensures
        aes256_cbc_opened(input, encryption_key, mac_key) == Err::<Seq<u8>, CipherError>(
            CipherError::AuthenticationFailed,
        ) <==> hmac_sha256(mac_key, authenticated_part(input)) != mac_part(input),
        aes256_cbc_opened(input, encryption_key, mac_key) is Ok ==> hmac_sha256(
            mac_key,
            authenticated_part(input),
        ) == mac_part(input),
{
}

/// Format rejection: under keys of the right length, an input shorter than
/// IV, one block and MAC together is rejected with `InvalidContainerFormat`.
pub proof fn lemma_short_input_rejected(
    input: Seq<u8>,
    encryption_key: Seq<u8>,
    mac_key: Seq<u8>,
)
    requires
        encryption_key.len() == KEY_LEN,
        mac_key.len() == KEY_LEN,
        input.len() < MIN_OUTPUT_LEN,
    ensures
        aes256_cbc_opened(input, encryption_key, mac_key) == Err::<Seq<u8>, CipherError>(
            CipherError::InvalidContainerFormat,
        ),
{
}

/// The schemes that can be selected by name. One is supported.
#[derive(Debug, Clone, Copy, PartialEq, Eq, Structural)]
pub enum AnyCipher {
    /// AES-256-CBC with HMAC-SHA-256.
    Aes256Cbc,
}

impl Cipher for AnyCipher {
    open spec fn sealed(
        &self,
        plaintext: Seq<u8>,
        encryption_key: Seq<u8>,
        mac_key: Seq<u8>,
        iv: Seq<u8>,
    ) -> Seq<u8> {
        match self {
            AnyCipher::Aes256Cbc => aes256_cbc_sealed(plaintext, encryption_key, mac_key, iv),
        }
    }

    open spec fn opened(&self, input: Seq<u8>, encryption_key: Seq<u8>, mac_key: Seq<u8>) -> Result<
        Seq<u8>,
        CipherError,
    > {
        match self {
            AnyCipher::Aes256Cbc => aes256_cbc_opened(input, encryption_key, mac_key),
        }
    }

    open spec fn output_len(&self, n: nat) -> nat {
        match self {
            AnyCipher::Aes256Cbc => aes256_cbc_output_len(n),
        }
    }

    fn encrypt(&self, plaintext: &[u8], encryption_key: &[u8], mac_key: &[u8]) -> (res: Result<
        Vec<u8>,
        CipherError,
    >) {
        match self {
            AnyCipher::Aes256Cbc => {
                let res = Aes256Cbc.encrypt(plaintext, encryption_key, mac_key);
                proof {
                    if res is Ok {
                        let iv = choose|iv: Seq<u8>|
                            iv.len() == BLOCK_LEN && res->Ok_0@ == #[trigger] Aes256Cbc.sealed(
                                plaintext@,
                                encryption_key@,
                                mac_key@,
                                iv,
                            );
                        assert(res->Ok_0@ == self.sealed(
                            plaintext@,
                            encryption_key@,
                            mac_key@,
                            iv,
                        ));
                    }
                }
                res
            },
        }
    }

    fn decrypt(&self, ciphertext: &[u8], encryption_key: &[u8], mac_key: &[u8]) -> (res: Result<
        Vec<u8>,
        CipherError,
    >) {
        match self {
            AnyCipher::Aes256Cbc => Aes256Cbc.decrypt(ciphertext, encryption_key, mac_key),
        }
    }
}

impl CipherError {
    /// The sentence that describes the error to a user.
    pub fn message(&self) -> (text: String)
        ensures
            text@ == match *self {
                CipherError::InvalidKeyLength => "Invalid key length - keys must be 32 bytes"@,
                CipherError::InvalidContainerFormat => "Invalid ciphertext format"@,
                CipherError::AuthenticationFailed =>
                    "MAC verification failed - data may have been tampered with"@,
                CipherError::PaddingOrDecryptionFailed =>
                    "Decryption failed - incorrect key or corrupted data"@,
            },
    {
        match self {
            CipherError::InvalidKeyLength => "Invalid key length - keys must be 32 bytes".to_owned(),
            CipherError::InvalidContainerFormat => "Invalid ciphertext format".to_owned(),
            CipherError::AuthenticationFailed =>
                "MAC verification failed - data may have been tampered with".to_owned(),
            CipherError::PaddingOrDecryptionFailed =>
                "Decryption failed - incorrect key or corrupted data".to_owned(),
        }
    }
}

} // verus!
